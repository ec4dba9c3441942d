//! The kinds of failure and the error value that carries one.

use vstd::prelude::*;

verus! {

/// The kind of an I/O failure.
#[derive(Debug, Clone, Copy, PartialEq, Eq, Structural)]
pub enum IOErrorEnum {
    NotFound,
    Exists,
    IsDirectory,
    NotDirectory,
    NotEmpty,
    Regular,
    SymbolicLink,
    Pending,
    Closed,
    Cancelled,
    NotSupported,
    PermissionDenied,
    InvalidArg,
    Failed,
    ProxyFailed,
    ProxyAuthFailed,
    ProxyNeedAuth,
    ProxyNotAllowed,
    BrokenPipe,
    ConnectionClosed,
    ConnectionRefused,
    HostUnreachable,
    NetworkUnreachable,
    ConnectionTimedOut,
    AddressInUse,
    PartialInput,
    InvalidData,
    TimedOut,
    WouldBlock,
    WriteZero,
    Interrupted,
    UnexpectedEof,
    OutOfMemory,
    Other,
}

impl IOErrorEnum {
    /// The name of the kind, as it is written in messages.
    pub open spec fn spec_name(self) -> Seq<char> {
        match self {
            IOErrorEnum::NotFound => "NotFound"@,
            IOErrorEnum::Exists => "Exists"@,
            IOErrorEnum::IsDirectory => "IsDirectory"@,
            IOErrorEnum::NotDirectory => "NotDirectory"@,
            IOErrorEnum::NotEmpty => "NotEmpty"@,
            IOErrorEnum::Regular => "Regular"@,
            IOErrorEnum::SymbolicLink => "SymbolicLink"@,
            IOErrorEnum::Pending => "Pending"@,
            IOErrorEnum::Closed => "Closed"@,
            IOErrorEnum::Cancelled => "Cancelled"@,
            IOErrorEnum::NotSupported => "NotSupported"@,
            IOErrorEnum::PermissionDenied => "PermissionDenied"@,
            IOErrorEnum::InvalidArg => "InvalidArg"@,
            IOErrorEnum::Failed => "Failed"@,
            IOErrorEnum::ProxyFailed => "ProxyFailed"@,
            IOErrorEnum::ProxyAuthFailed => "ProxyAuthFailed"@,
            IOErrorEnum::ProxyNeedAuth => "ProxyNeedAuth"@,
            IOErrorEnum::ProxyNotAllowed => "ProxyNotAllowed"@,
            IOErrorEnum::BrokenPipe => "BrokenPipe"@,
            IOErrorEnum::ConnectionClosed => "ConnectionClosed"@,
            IOErrorEnum::ConnectionRefused => "ConnectionRefused"@,
            IOErrorEnum::HostUnreachable => "HostUnreachable"@,
            IOErrorEnum::NetworkUnreachable => "NetworkUnreachable"@,
            IOErrorEnum::ConnectionTimedOut => "ConnectionTimedOut"@,
            IOErrorEnum::AddressInUse => "AddressInUse"@,
            IOErrorEnum::PartialInput => "PartialInput"@,
            IOErrorEnum::InvalidData => "InvalidData"@,
            IOErrorEnum::TimedOut => "TimedOut"@,
            IOErrorEnum::WouldBlock => "WouldBlock"@,
            IOErrorEnum::WriteZero => "WriteZero"@,
            IOErrorEnum::Interrupted => "Interrupted"@,
            IOErrorEnum::UnexpectedEof => "UnexpectedEof"@,
            IOErrorEnum::OutOfMemory => "OutOfMemory"@,
            IOErrorEnum::Other => "Other"@,
        }
    }

    /// The name of the kind, as it is written in messages.
    pub fn name(&self) -> (r: &'static str)
        ensures
            r@ == self.spec_name(),
    {
        match self {
            IOErrorEnum::NotFound => "NotFound",
            IOErrorEnum::Exists => "Exists",
            IOErrorEnum::IsDirectory => "IsDirectory",
            IOErrorEnum::NotDirectory => "NotDirectory",
            IOErrorEnum::NotEmpty => "NotEmpty",
            IOErrorEnum::Regular => "Regular",
            IOErrorEnum::SymbolicLink => "SymbolicLink",
            IOErrorEnum::Pending => "Pending",
            IOErrorEnum::Closed => "Closed",
            IOErrorEnum::Cancelled => "Cancelled",
            IOErrorEnum::NotSupported => "NotSupported",
            IOErrorEnum::PermissionDenied => "PermissionDenied",
            IOErrorEnum::InvalidArg => "InvalidArg",
            IOErrorEnum::Failed => "Failed",
            IOErrorEnum::ProxyFailed => "ProxyFailed",
            IOErrorEnum::ProxyAuthFailed => "ProxyAuthFailed",
            IOErrorEnum::ProxyNeedAuth => "ProxyNeedAuth",
            IOErrorEnum::ProxyNotAllowed => "ProxyNotAllowed",
            IOErrorEnum::BrokenPipe => "BrokenPipe",
            IOErrorEnum::ConnectionClosed => "ConnectionClosed",
            IOErrorEnum::ConnectionRefused => "ConnectionRefused",
            IOErrorEnum::HostUnreachable => "HostUnreachable",
            IOErrorEnum::NetworkUnreachable => "NetworkUnreachable",
            IOErrorEnum::ConnectionTimedOut => "ConnectionTimedOut",
            IOErrorEnum::AddressInUse => "AddressInUse",
            IOErrorEnum::PartialInput => "PartialInput",
            IOErrorEnum::InvalidData => "InvalidData",
            IOErrorEnum::TimedOut => "TimedOut",
            IOErrorEnum::WouldBlock => "WouldBlock",
            IOErrorEnum::WriteZero => "WriteZero",
            IOErrorEnum::Interrupted => "Interrupted",
            IOErrorEnum::UnexpectedEof => "UnexpectedEof",
            IOErrorEnum::OutOfMemory => "OutOfMemory",
            IOErrorEnum::Other => "Other",
        }
    }
}

/// The kind that the operating system gave to a failed call. `Unlisted`
/// stands for every kind that has no variant of its own here.
#[derive(Debug, Clone, Copy, PartialEq, Eq, Structural)]
pub enum OsErrorKind {
    NotFound,
    PermissionDenied,
    ConnectionRefused,
    ConnectionReset,
    ConnectionAborted,
    NotConnected,
    AddrInUse,
    AddrNotAvailable,
    BrokenPipe,
    AlreadyExists,
    WouldBlock,
    InvalidInput,
    InvalidData,
    TimedOut,
    WriteZero,
    Interrupted,
    Unsupported,
    UnexpectedEof,
    OutOfMemory,
    DirectoryNotEmpty,
    IsADirectory,
    NotADirectory,
    Unlisted,
}

/// The failure kind that an operating-system error kind is taken for.
pub open spec fn kind_of_os_error(kind: OsErrorKind) -> IOErrorEnum {
    match kind {
        OsErrorKind::NotFound => IOErrorEnum::NotFound,
        OsErrorKind::PermissionDenied => IOErrorEnum::PermissionDenied,
        OsErrorKind::ConnectionRefused => IOErrorEnum::ConnectionRefused,
        OsErrorKind::ConnectionReset => IOErrorEnum::ConnectionClosed,
        OsErrorKind::ConnectionAborted => IOErrorEnum::ConnectionClosed,
        OsErrorKind::NotConnected => IOErrorEnum::ConnectionClosed,
        OsErrorKind::AddrInUse => IOErrorEnum::AddressInUse,
        OsErrorKind::AddrNotAvailable => IOErrorEnum::AddressInUse,
        OsErrorKind::BrokenPipe => IOErrorEnum::BrokenPipe,
        OsErrorKind::AlreadyExists => IOErrorEnum::Exists,
        OsErrorKind::WouldBlock => IOErrorEnum::WouldBlock,
        OsErrorKind::InvalidInput => IOErrorEnum::InvalidArg,
        OsErrorKind::InvalidData => IOErrorEnum::InvalidData,
        OsErrorKind::TimedOut => IOErrorEnum::TimedOut,
        OsErrorKind::WriteZero => IOErrorEnum::WriteZero,
        OsErrorKind::Interrupted => IOErrorEnum::Interrupted,
        OsErrorKind::Unsupported => IOErrorEnum::NotSupported,
        OsErrorKind::UnexpectedEof => IOErrorEnum::UnexpectedEof,
        OsErrorKind::OutOfMemory => IOErrorEnum::OutOfMemory,
        OsErrorKind::DirectoryNotEmpty => IOErrorEnum::NotEmpty,
        OsErrorKind::IsADirectory => IOErrorEnum::IsDirectory,
        OsErrorKind::NotADirectory => IOErrorEnum::NotDirectory,
        OsErrorKind::Unlisted => IOErrorEnum::Failed,
    }
}

/// An error: its kind, a message for people, and the text of what caused it,
/// where that is known.
#[derive(Debug, Clone)]
pub struct NpioError {
    domain: IOErrorEnum,
    message: String,
    source: Option<String>,
}

pub type NpioResult<T> = Result<T, NpioError>;

impl NpioError {
    /// The kind of the error.
    pub closed spec fn spec_kind(&self) -> IOErrorEnum {
        self.domain
    }

    /// The message of the error.
    pub closed spec fn spec_message(&self) -> Seq<char> {
        self.message@
    }

    /// The text of the cause, if one was given.
    pub closed spec fn spec_source(&self) -> Option<Seq<char>> {
        match self.source {
            Some(s) => Some(s@),
            None => None,
        }
    }

    /// An error of the given kind, with no cause.
    pub fn new(domain: IOErrorEnum, message: &str) -> (r: Self)
        ensures
            r.spec_kind() == domain,
            r.spec_message() == message@,
            r.spec_source().is_none(),
    {
        NpioError { domain, message: message.to_owned(), source: None }
    }

    /// An error of the given kind, caused by what `source` describes.
    pub fn with_source(domain: IOErrorEnum, message: &str, source: &str) -> (r: Self)
        ensures
            r.spec_kind() == domain,
            r.spec_message() == message@,
            r.spec_source() == Some(source@),
    {
        NpioError { domain, message: message.to_owned(), source: Some(source.to_owned()) }
    }

    /// The error for a failed call of the operating system: the kind is
    /// mapped, and the system's own text is both message and cause.
    pub fn from_os_error(kind: OsErrorKind, text: &str) -> (r: Self)
        ensures
            r.spec_kind() == kind_of_os_error(kind),
            r.spec_message() == text@,
            r.spec_source() == Some(text@),
    {
        let domain = match kind {
            OsErrorKind::NotFound => IOErrorEnum::NotFound,
            OsErrorKind::PermissionDenied => IOErrorEnum::PermissionDenied,
            OsErrorKind::ConnectionRefused => IOErrorEnum::ConnectionRefused,
            OsErrorKind::ConnectionReset => IOErrorEnum::ConnectionClosed,
            OsErrorKind::ConnectionAborted => IOErrorEnum::ConnectionClosed,
            OsErrorKind::NotConnected => IOErrorEnum::ConnectionClosed,
            OsErrorKind::AddrInUse => IOErrorEnum::AddressInUse,
            OsErrorKind::AddrNotAvailable => IOErrorEnum::AddressInUse,
            OsErrorKind::BrokenPipe => IOErrorEnum::BrokenPipe,
            OsErrorKind::AlreadyExists => IOErrorEnum::Exists,
            OsErrorKind::WouldBlock => IOErrorEnum::WouldBlock,
            OsErrorKind::InvalidInput => IOErrorEnum::InvalidArg,
            OsErrorKind::InvalidData => IOErrorEnum::InvalidData,
            OsErrorKind::TimedOut => IOErrorEnum::TimedOut,
            OsErrorKind::WriteZero => IOErrorEnum::WriteZero,
            OsErrorKind::Interrupted => IOErrorEnum::Interrupted,
            OsErrorKind::Unsupported => IOErrorEnum::NotSupported,
            OsErrorKind::UnexpectedEof => IOErrorEnum::UnexpectedEof,
            OsErrorKind::OutOfMemory => IOErrorEnum::OutOfMemory,
            OsErrorKind::DirectoryNotEmpty => IOErrorEnum::NotEmpty,
            OsErrorKind::IsADirectory => IOErrorEnum::IsDirectory,
            OsErrorKind::NotADirectory => IOErrorEnum::NotDirectory,
            OsErrorKind::Unlisted => IOErrorEnum::Failed,
        };
        NpioError::with_source(domain, text, text)
    }

    /// The kind of the error.
    pub fn kind(&self) -> (r: &IOErrorEnum)
        ensures
            *r == self.spec_kind(),
    {
        &self.domain
    }

    /// The message of the error.
    pub fn message(&self) -> (r: &str)
        ensures
            r@ == self.spec_message(),
    {
        self.message.as_str()
    }

    /// The text of the cause, if one was given.
    pub fn source(&self) -> (r: Option<&str>)
        ensures
            match r {
                Some(s) => self.spec_source() == Some(s@),
                None => self.spec_source().is_none(),
            },
    {
        match &self.source {
            Some(s) => Some(s.as_str()),
            None => None,
        }
    }

    /// The error as one line: the kind's name, a colon and a space, the
    /// message.
    pub fn to_string(&self) -> (r: String)
        ensures
            r@ == self.spec_kind().spec_name() + ": "@ + self.spec_message(),
    {
        let mut out = self.domain.name().to_owned();
        out.append(": ");
        out.append(self.message.as_str());
        out
    }
}

} // verus!
