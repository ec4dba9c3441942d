use npio::error::{IOErrorEnum, NpioError, OsErrorKind};

#[test]
fn test_new_error() {
    let e = NpioError::new(IOErrorEnum::NotSupported, "Cannot eject");
    assert_eq!(*e.kind(), IOErrorEnum::NotSupported);
    assert_eq!(e.message(), "Cannot eject");
    assert_eq!(e.source(), None);
    assert_eq!(e.to_string(), "NotSupported: Cannot eject");
}

#[test]
fn test_error_with_source() {
    let e = NpioError::with_source(IOErrorEnum::Failed, "statvfs failed", "No such device");
    assert_eq!(*e.kind(), IOErrorEnum::Failed);
    assert_eq!(e.message(), "statvfs failed");
    assert_eq!(e.source(), Some("No such device"));
    assert_eq!(e.to_string(), "Failed: statvfs failed");
}

#[test]
fn test_kind_names() {
    assert_eq!(IOErrorEnum::NotFound.name(), "NotFound");
    assert_eq!(IOErrorEnum::ConnectionTimedOut.name(), "ConnectionTimedOut");
    assert_eq!(IOErrorEnum::Other.name(), "Other");
    for kind in [
        IOErrorEnum::NotFound,
        IOErrorEnum::Exists,
        IOErrorEnum::IsDirectory,
        IOErrorEnum::NotDirectory,
        IOErrorEnum::NotEmpty,
        IOErrorEnum::Regular,
        IOErrorEnum::SymbolicLink,
        IOErrorEnum::Pending,
        IOErrorEnum::Closed,
        IOErrorEnum::Cancelled,
        IOErrorEnum::NotSupported,
        IOErrorEnum::PermissionDenied,
        IOErrorEnum::InvalidArg,
        IOErrorEnum::Failed,
        IOErrorEnum::ProxyFailed,
        IOErrorEnum::ProxyAuthFailed,
        IOErrorEnum::ProxyNeedAuth,
        IOErrorEnum::ProxyNotAllowed,
        IOErrorEnum::BrokenPipe,
        IOErrorEnum::ConnectionClosed,
        IOErrorEnum::ConnectionRefused,
        IOErrorEnum::HostUnreachable,
        IOErrorEnum::NetworkUnreachable,
        IOErrorEnum::ConnectionTimedOut,
        IOErrorEnum::AddressInUse,
        IOErrorEnum::PartialInput,
        IOErrorEnum::InvalidData,
        IOErrorEnum::TimedOut,
        IOErrorEnum::WouldBlock,
        IOErrorEnum::WriteZero,
        IOErrorEnum::Interrupted,
        IOErrorEnum::UnexpectedEof,
        IOErrorEnum::OutOfMemory,
        IOErrorEnum::Other,
    ] {
        assert_eq!(kind.name(), format!("{:?}", kind));
    }
}

#[test]
fn test_os_error_kinds_are_mapped() {
    let cases = [
        (OsErrorKind::NotFound, IOErrorEnum::NotFound),
        (OsErrorKind::PermissionDenied, IOErrorEnum::PermissionDenied),
        (OsErrorKind::ConnectionRefused, IOErrorEnum::ConnectionRefused),
        (OsErrorKind::ConnectionReset, IOErrorEnum::ConnectionClosed),
        (OsErrorKind::ConnectionAborted, IOErrorEnum::ConnectionClosed),
        (OsErrorKind::NotConnected, IOErrorEnum::ConnectionClosed),
        (OsErrorKind::AddrInUse, IOErrorEnum::AddressInUse),
        (OsErrorKind::AddrNotAvailable, IOErrorEnum::AddressInUse),
        (OsErrorKind::BrokenPipe, IOErrorEnum::BrokenPipe),
        (OsErrorKind::AlreadyExists, IOErrorEnum::Exists),
        (OsErrorKind::WouldBlock, IOErrorEnum::WouldBlock),
        (OsErrorKind::InvalidInput, IOErrorEnum::InvalidArg),
        (OsErrorKind::InvalidData, IOErrorEnum::InvalidData),
        (OsErrorKind::TimedOut, IOErrorEnum::TimedOut),
        (OsErrorKind::WriteZero, IOErrorEnum::WriteZero),
        (OsErrorKind::Interrupted, IOErrorEnum::Interrupted),
        (OsErrorKind::Unsupported, IOErrorEnum::NotSupported),
        (OsErrorKind::UnexpectedEof, IOErrorEnum::UnexpectedEof),
        (OsErrorKind::OutOfMemory, IOErrorEnum::OutOfMemory),
        (OsErrorKind::DirectoryNotEmpty, IOErrorEnum::NotEmpty),
        (OsErrorKind::IsADirectory, IOErrorEnum::IsDirectory),
        (OsErrorKind::NotADirectory, IOErrorEnum::NotDirectory),
        (OsErrorKind::Unlisted, IOErrorEnum::Failed),
    ];
    for (os, kind) in cases {
        let e = NpioError::from_os_error(os, "system says no");
        assert_eq!(*e.kind(), kind);
        assert_eq!(e.message(), "system says no");
        assert_eq!(e.source(), Some("system says no"));
    }
}

#[test]
fn test_exclusive_create_collision_is_exists() {
    // A second exclusive create of one file is refused by the system as
    // already existing, which is the kind `Exists`.
    let e = NpioError::from_os_error(OsErrorKind::AlreadyExists, "File exists (os error 17)");
    assert_eq!(*e.kind(), IOErrorEnum::Exists);
    assert_eq!(e.to_string(), "Exists: File exists (os error 17)");
}

#[test]
fn test_query_of_a_deleted_file_is_not_found() {
    let e = NpioError::from_os_error(OsErrorKind::NotFound, "No such file or directory");
    assert_eq!(*e.kind(), IOErrorEnum::NotFound);
}
