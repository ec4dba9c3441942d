//! What a local file's metadata says: the bag of a file, the bag of its
//! filesystem, and the type of the filesystem that holds it.

use crate::cancellable::{checkpoint, tripped, Cancellable};
use crate::error::{IOErrorEnum, NpioResult};
use crate::file::local::{basename_of, LocalFile};
use crate::file::File;
use crate::file_info::{
    key_content_type, key_modified, key_name, key_size, key_type, AttributeValue,
    FileAttributeType, FileInfo, FileType,
};
use crate::metadata::{icon_of, mime_guess_of, MimeResolver};
use crate::path;
use crate::text::{contains, from_chars, has_sub, pieces, split, to_chars, views, Sep};
use vstd::prelude::*;

verus! {

/// What the operating system says of a file, without following a symbolic
/// link.
#[derive(Debug, Clone, Copy, PartialEq, Eq, Structural)]
pub struct FileMetadata {
    /// The size in bytes.
    pub len: u64,
    /// The time of the last change in seconds since the epoch, where it is
    /// known.
    pub modified: Option<u64>,
    /// Whether the file is a directory.
    pub is_dir: bool,
    /// Whether the file is a symbolic link.
    pub is_symlink: bool,
}

/// The type of a file: a directory, else a symbolic link, else regular.
pub open spec fn type_of(metadata: FileMetadata) -> FileType {
    if metadata.is_dir {
        FileType::Directory
    } else if metadata.is_symlink {
        FileType::SymbolicLink
    } else {
        FileType::Regular
    }
}

/// Whether a list of attributes asks for `key`: by its name or by the
/// pattern of its namespace.
pub open spec fn asks_for(attributes: Seq<char>, key: Seq<char>, pattern: Seq<char>) -> bool {
    contains(attributes, key) || contains(attributes, pattern)
}

/// The key of the icon.
pub open spec fn key_icon() -> Seq<char> {
    "standard::icon"@
}

/// The content type of a file: that of directories, or the guess by the
/// file's name.
pub open spec fn content_type_of(p: Seq<char>, metadata: FileMetadata) -> Seq<char> {
    if metadata.is_dir {
        "inode/directory"@
    } else {
        mime_guess_of(p)
    }
}

/// The bag of a file: always its name, size and type, and the time of its
/// last change where that is known; the content type where it is asked
/// for, and with it the icon where that is asked for too.
pub open spec fn info_of(p: Seq<char>, attributes: Seq<char>, metadata: FileMetadata) -> Map<
    Seq<char>,
    AttributeValue,
> {
    let named = Map::<Seq<char>, AttributeValue>::empty().insert(
        key_name(),
        AttributeValue::String(basename_of(p)),
    ).insert(key_size(), AttributeValue::Uint64(metadata.len));
    let timed = match metadata.modified {
        Some(t) => named.insert(key_modified(), AttributeValue::Uint64(t)),
        None => named,
    };
    let typed = timed.insert(key_type(), AttributeValue::Uint32(type_of(metadata).code()));
    if asks_for(attributes, "standard::content-type"@, "standard::*"@) {
        let mime = content_type_of(p, metadata);
        let with_type = typed.insert(key_content_type(), AttributeValue::String(mime));
        if asks_for(attributes, key_icon(), "standard::*"@) {
            with_type.insert(key_icon(), AttributeValue::String(icon_of(mime)))
        } else {
            with_type
        }
    } else {
        typed
    }
}

/// Whether a list of attributes asks for `key`.
fn asked(attributes: &Vec<char>, key: &str, pattern: &str) -> (r: bool)
    ensures
        r == asks_for(attributes@, key@, pattern@),
{
    has_sub(attributes, &to_chars(key)) || has_sub(attributes, &to_chars(pattern))
}

/// What the operating system says of a filesystem.
#[derive(Debug, Clone, Copy, PartialEq, Eq, Structural)]
pub struct FilesystemStat {
    /// The size of a block in bytes.
    pub block_size: u64,
    /// The number of blocks.
    pub blocks: u64,
    /// The number of free blocks.
    pub blocks_free: u64,
    /// The number of free blocks that a user without privileges can take.
    pub blocks_available: u64,
    /// Whether the filesystem is mounted read-only.
    pub read_only: bool,
}

impl FilesystemStat {
    /// The numbers are such that sizes in bytes can be told: no more blocks
    /// are free than there are, and the sizes fit in 64 bits.
    pub open spec fn in_range(&self) -> bool {
        &&& self.blocks_free <= self.blocks
        &&& self.blocks * self.block_size <= u64::MAX
        &&& self.blocks_available * self.block_size <= u64::MAX
    }

    /// Whether the numbers are such that sizes in bytes can be told.
    pub fn is_in_range(&self) -> (r: bool)
        ensures
            r == self.in_range(),
    {
        self.blocks_free <= self.blocks && self.blocks.checked_mul(self.block_size).is_some()
            && self.blocks_available.checked_mul(self.block_size).is_some()
    }
}

/// The type of a filesystem, as the bag says it: `unknown` where the mount
/// table does not tell.
pub open spec fn type_text(filesystem_type: Option<Seq<char>>) -> Seq<char> {
    match filesystem_type {
        Some(t) => t,
        None => "unknown"@,
    }
}

/// The bag of a filesystem: of its size, its free and used bytes, whether
/// it is read-only, and its type, what the attributes ask for.
pub open spec fn filesystem_info_of(
    attributes: Seq<char>,
    stat: FilesystemStat,
    filesystem_type: Option<Seq<char>>,
) -> Map<Seq<char>, AttributeValue> {
    let m0 = Map::<Seq<char>, AttributeValue>::empty();
    let m1 = if asks_for(attributes, "filesystem::size"@, "filesystem::*"@) {
        m0.insert(
            "filesystem::size"@,
            AttributeValue::Uint64((stat.blocks * stat.block_size) as u64),
        )
    } else {
        m0
    };
    let m2 = if asks_for(attributes, "filesystem::free"@, "filesystem::*"@) {
        m1.insert(
            "filesystem::free"@,
            AttributeValue::Uint64((stat.blocks_available * stat.block_size) as u64),
        )
    } else {
        m1
    };
    let m3 = if asks_for(attributes, "filesystem::used"@, "filesystem::*"@) {
        m2.insert(
            "filesystem::used"@,
            AttributeValue::Uint64(((stat.blocks - stat.blocks_free) * stat.block_size) as u64),
        )
    } else {
        m2
    };
    let m4 = if asks_for(attributes, "filesystem::readonly"@, "filesystem::*"@) {
        m3.insert("filesystem::readonly"@, AttributeValue::Boolean(stat.read_only))
    } else {
        m3
    };
    if asks_for(attributes, "filesystem::type"@, "filesystem::*"@) {
        m4.insert("filesystem::type"@, AttributeValue::String(type_text(filesystem_type)))
    } else {
        m4
    }
}

/// A line of the list of mounts that tells a mount point and a filesystem
/// type: one with three fields or more.
pub open spec fn tells(line: Seq<char>) -> bool {
    pieces(line, Sep::Space, false).len() >= 3
}

/// The mount point that a line tells.
pub open spec fn told_mount_point(line: Seq<char>) -> Seq<char> {
    pieces(line, Sep::Space, false)[1]
}

/// The filesystem type that a line tells.
pub open spec fn told_type(line: Seq<char>) -> Seq<char> {
    pieces(line, Sep::Space, false)[2]
}

/// The line at position `i` tells a mount that holds `p`.
pub open spec fn line_holds(lines: Seq<Seq<char>>, p: Seq<char>, i: int) -> bool {
    &&& 0 <= i < lines.len()
    &&& tells(lines[i])
    &&& path::starts_with(p, told_mount_point(lines[i]))
}

/// How specific the mount of a line is: the number of components of its
/// mount point.
pub open spec fn depth(line: Seq<char>) -> nat {
    path::components(told_mount_point(line)).len()
}

/// The line at position `i` tells the most specific mount that holds `p`:
/// no line that holds `p` tells a deeper one, and none before it tells one
/// as deep.
pub open spec fn deepest_line(lines: Seq<Seq<char>>, p: Seq<char>, i: int) -> bool {
    &&& line_holds(lines, p, i)
    &&& forall|j: int| #[trigger] line_holds(lines, p, j) ==> depth(lines[j]) <= depth(lines[i])
    &&& forall|j: int|
        0 <= j < i && #[trigger] line_holds(lines, p, j) ==> depth(lines[j]) < depth(lines[i])
}

/// The type of the filesystem that holds `p`, by the list of mounts: that
/// of the most specific mount whose mount point leads to `p`.
pub fn get_filesystem_type(p: &str, mounts: &str) -> (r: Option<String>)
    ensures
        match r {
            Some(t) => exists|i: int|
                deepest_line(pieces(mounts@, Sep::Line, false), p@, i) && t@ == told_type(
                    pieces(mounts@, Sep::Line, false)[i],
                ),
            None => forall|i: int| !line_holds(pieces(mounts@, Sep::Line, false), p@, i),
        },
{
    let target = to_chars(p);
    let lines = split(&to_chars(mounts), Sep::Line, false);
    let ghost all = views(lines@);
    let mut best: Option<(usize, usize, Vec<char>)> = None;
    let mut i: usize = 0;
    while i < lines.len()
        invariant
            i <= lines.len(),
            all == views(lines@),
            target@ == p@,
            match best {
                Some((at, len, t)) => at < i && len == depth(all[at as int]) && t@ == told_type(
                    all[at as int],
                ) && line_holds(all, p@, at as int) && (forall|j: int|
                    0 <= j < i && #[trigger] line_holds(all, p@, j) ==> depth(all[j]) <= len) && (
                forall|j: int|
                    0 <= j < at && #[trigger] line_holds(all, p@, j) ==> depth(all[j]) < len),
                None => forall|j: int| 0 <= j < i ==> !line_holds(all, p@, j),
            },
        decreases lines.len() - i,
    {
        let fields = split(&lines[i], Sep::Space, false);
        assert(views(fields@) == pieces(all[i as int], Sep::Space, false));
        if fields.len() >= 3 {
            assert(views(fields@)[1] == fields@[1]@);
            assert(views(fields@)[2] == fields@[2]@);
            if path::path_starts_with(&target, &fields[1]) {
                let len = path::component_count(&fields[1]);
                let better = match &best {
                    Some((_, old_len, _)) => len > *old_len,
                    None => true,
                };
                if better {
                    let t = crate::text::slice(&fields[2], 0, fields[2].len());
                    best = Some((i, len, t));
                }
            }
        }
        i = i + 1;
    }
    match best {
        Some((at, _, t)) => {
            assert(deepest_line(all, p@, at as int));
            Some(from_chars(&t))
        },
        None => None,
    }
}

impl LocalFile {
    /// The bag of the file, from what the operating system says of it.
    /// Fails with `Cancelled` exactly under a tripped token.
    pub fn query_info(
        &self,
        attributes: &str,
        metadata: &FileMetadata,
        cancellable: Option<&Cancellable>,
    ) -> (r: NpioResult<FileInfo>)
        ensures
            r is Err <==> tripped(cancellable),
            r matches Err(e) ==> e.spec_kind() == IOErrorEnum::Cancelled,
            r matches Ok(info) ==> info@ == info_of(self@, attributes@, *metadata),
    {
        match checkpoint(cancellable) {
            Err(e) => {
                return Err(e);
            },
            Ok(()) => {},
        }
        let mut info = FileInfo::new();
        info.set_name(self.basename().as_str());
        info.set_size(metadata.len);
        match metadata.modified {
            Some(t) => {
                info.set_modification_time(t);
            },
            None => {},
        }
        let file_type = if metadata.is_dir {
            FileType::Directory
        } else if metadata.is_symlink {
            FileType::SymbolicLink
        } else {
            FileType::Regular
        };
        info.set_file_type(file_type);
        let wanted = to_chars(attributes);
        if asked(&wanted, "standard::content-type", "standard::*") {
            let mime = if metadata.is_dir {
                "inode/directory".to_owned()
            } else {
                MimeResolver::guess_mime_type(self.path())
            };
            info.set_content_type(mime.as_str());
            if asked(&wanted, "standard::icon", "standard::*") {
                let icon = MimeResolver::get_icon_name(mime.as_str());
                info.set_attribute("standard::icon", FileAttributeType::String(icon));
            }
        }
        Ok(info)
    }

    /// The bag of the filesystem that holds the file, from what the
    /// operating system says of it and the type that the list of mounts
    /// tells. Fails with `Cancelled` exactly under a tripped token.
    pub fn query_filesystem_info(
        &self,
        attributes: &str,
        stat: &FilesystemStat,
        filesystem_type: Option<&str>,
        cancellable: Option<&Cancellable>,
    ) -> (r: NpioResult<FileInfo>)
        requires
            stat.in_range(),
        ensures
            r is Err <==> tripped(cancellable),
            r matches Err(e) ==> e.spec_kind() == IOErrorEnum::Cancelled,
            r matches Ok(info) ==> info@ == filesystem_info_of(
                attributes@,
                *stat,
                match filesystem_type {
                    Some(t) => Some(t@),
                    None => None,
                },
            ),
    {
        match checkpoint(cancellable) {
            Err(e) => {
                return Err(e);
            },
            Ok(()) => {},
        }
        let mut info = FileInfo::new();
        let wanted = to_chars(attributes);
        let used_blocks: u64 = stat.blocks - stat.blocks_free;
        assert(used_blocks * stat.block_size <= stat.blocks * stat.block_size) by (nonlinear_arith)
            requires
                used_blocks <= stat.blocks,
        ;
        if asked(&wanted, "filesystem::size", "filesystem::*") {
            info.set_attribute(
                "filesystem::size",
                FileAttributeType::Uint64(stat.blocks * stat.block_size),
            );
        }
        if asked(&wanted, "filesystem::free", "filesystem::*") {
            info.set_attribute(
                "filesystem::free",
                FileAttributeType::Uint64(stat.blocks_available * stat.block_size),
            );
        }
        if asked(&wanted, "filesystem::used", "filesystem::*") {
            info.set_attribute(
                "filesystem::used",
                FileAttributeType::Uint64(used_blocks * stat.block_size),
            );
        }
        if asked(&wanted, "filesystem::readonly", "filesystem::*") {
            info.set_attribute("filesystem::readonly", FileAttributeType::Boolean(stat.read_only));
        }
        if asked(&wanted, "filesystem::type", "filesystem::*") {
            let text = match filesystem_type {
                Some(t) => t.to_owned(),
                None => "unknown".to_owned(),
            };
            info.set_attribute("filesystem::type", FileAttributeType::String(text));
        }
        Ok(info)
    }
}

} // verus!
