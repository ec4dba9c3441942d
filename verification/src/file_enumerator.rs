//! The enumerator contract: the children of a directory, one at a time.

use crate::cancellable::{checkpoint, tripped, Cancellable};
use crate::error::{IOErrorEnum, NpioError, NpioResult};
use crate::file::local::LocalFile;
use crate::file_info::{key_name, key_type, AttributeValue, FileInfo, FileType};
use crate::path;
use vstd::prelude::*;

verus! {

/// An enumerator of a backend whose handles are `F`.
pub trait FileEnumerator<F> {
    /// The next child with its metadata, or nothing at the end.
    fn next_file(&mut self, cancellable: Option<&Cancellable>) -> NpioResult<Option<(FileInfo, F)>>;

    /// Closes the enumerator.
    fn close(&mut self, cancellable: Option<&Cancellable>) -> NpioResult<()>;
}

/// What the listing of a directory tells of an entry's type without a
/// query of its own.
#[derive(Debug, Clone, Copy, PartialEq, Eq, Structural)]
pub enum EntryKind {
    /// A directory.
    Directory,
    /// A symbolic link.
    SymbolicLink,
    /// Anything else.
    Other,
}

/// The file type that the kind of an entry stands for.
pub open spec fn entry_type(kind: EntryKind) -> FileType {
    match kind {
        EntryKind::Directory => FileType::Directory,
        EntryKind::SymbolicLink => FileType::SymbolicLink,
        EntryKind::Other => FileType::Regular,
    }
}

/// The bag of an entry: its name, and its type where the listing tells it.
pub open spec fn entry_bag(name: Seq<char>, kind: Option<EntryKind>) -> Map<
    Seq<char>,
    AttributeValue,
> {
    let named = Map::<Seq<char>, AttributeValue>::empty().insert(
        key_name(),
        AttributeValue::String(name),
    );
    match kind {
        Some(k) => named.insert(key_type(), AttributeValue::Uint32(entry_type(k).code())),
        None => named,
    }
}

/// The bag of an entry of a directory.
pub fn entry_info(name: &str, kind: Option<EntryKind>) -> (r: FileInfo)
    ensures
        r@ == entry_bag(name@, kind),
{
    let mut info = FileInfo::new();
    info.set_name(name);
    match kind {
        Some(EntryKind::Directory) => {
            info.set_file_type(FileType::Directory);
        },
        Some(EntryKind::SymbolicLink) => {
            info.set_file_type(FileType::SymbolicLink);
        },
        Some(EntryKind::Other) => {
            info.set_file_type(FileType::Regular);
        },
        None => {},
    }
    info
}

/// An entry that the listing of a directory gave.
#[derive(Debug)]
pub struct DirectoryEntry {
    /// The name of the entry, in the bytes of the operating system.
    pub name: Vec<u8>,
    /// The kind of the entry, where the listing tells it.
    pub kind: Option<EntryKind>,
}

/// The enumerator of a local directory. The listing of the directory is
/// read one entry at a time by the caller; the enumerator says whether the
/// next entry may be read, and what an entry that was read is handed out
/// as.
pub struct LocalFileEnumerator {
    directory: LocalFile,
    closed: bool,
}

/// What an enumerator hands out for what the listing gave: nothing at the
/// end of the listing; else the bag of the entry, which states the name as
/// far as it can be read, and the handle of the entry under the directory,
/// which keeps the bytes of the name.
pub open spec fn handed_out(
    directory: LocalFile,
    entry: Option<&DirectoryEntry>,
    r: Option<(FileInfo, LocalFile)>,
) -> bool {
    match entry {
        Some(e) => {
            &&& r matches Some((info, child))
            &&& info@ == entry_bag(crate::text::lossy_text(e.name@), e.kind)
            &&& child@ == path::child(directory@, crate::text::lossy_text(e.name@))
            &&& child.spec_raw() == path::child_bytes(directory.spec_raw(), e.name@)
        },
        None => r is None,
    }
}

impl LocalFileEnumerator {
    /// The directory that is enumerated.
    pub closed spec fn spec_directory(&self) -> LocalFile {
        self.directory
    }

    /// Whether the enumerator is closed.
    pub closed spec fn spec_closed(&self) -> bool {
        self.closed
    }

    /// The open enumerator of `directory`.
    pub fn new(directory: LocalFile) -> (r: Self)
        ensures
            r.spec_directory() == directory,
            !r.spec_closed(),
    {
        LocalFileEnumerator { directory, closed: false }
    }

    /// Whether the next entry may be read from the listing: under a tripped
    /// token the call fails with `Cancelled`, and else on a closed
    /// enumerator with `Closed`.
    pub fn check(&self, cancellable: Option<&Cancellable>) -> (r: NpioResult<()>)
        ensures
            r is Err <==> (tripped(cancellable) || self.spec_closed()),
            r matches Err(e) ==> e.spec_kind() == if tripped(cancellable) {
                IOErrorEnum::Cancelled
            } else {
                IOErrorEnum::Closed
            },
    {
        match checkpoint(cancellable) {
            Err(e) => Err(e),
            Ok(()) => {
                if self.closed {
                    Err(NpioError::new(IOErrorEnum::Closed, "Enumerator is closed"))
                } else {
                    Ok(())
                }
            },
        }
    }

    /// Hands out what the listing gave next: `entry` is the entry that was
    /// read, or nothing at the end of the listing. Under a tripped token
    /// the call fails with `Cancelled`, and else on a closed enumerator with
    /// `Closed`. Else the entry is handed out with its bag and the handle
    /// of the entry under the directory, or nothing at the end.
    pub fn next_file(&self, cancellable: Option<&Cancellable>, entry: Option<&DirectoryEntry>) -> (r:
        NpioResult<Option<(FileInfo, LocalFile)>>)
        ensures
            r is Err <==> (tripped(cancellable) || self.spec_closed()),
            r matches Err(e) ==> e.spec_kind() == if tripped(cancellable) {
                IOErrorEnum::Cancelled
            } else {
                IOErrorEnum::Closed
            },
            r matches Ok(found) ==> handed_out(self.spec_directory(), entry, found),
    {
        match self.check(cancellable) {
            Err(e) => Err(e),
            Ok(()) => match entry {
                Some(e) => {
                    let name = crate::text::utf8_lossy(&e.name);
                    let info = entry_info(name.as_str(), e.kind);
                    let child = self.directory.child_of_bytes(&e.name);
                    Ok(Some((info, child)))
                },
                None => Ok(None),
            },
        }
    }

    /// Closes the enumerator. Returns whether this call closed it, which is
    /// when the listing is to be released; closing twice changes nothing.
    pub fn close(&mut self) -> (first: bool)
        ensures
            final(self).spec_closed(),
            first == !old(self).spec_closed(),
            final(self).spec_directory() == old(self).spec_directory(),
    {
        let first = !self.closed;
        self.closed = true;
        first
    }
}

} // verus!
