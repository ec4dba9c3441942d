//! The mount table of the kernel: how a line of it is read, which mounts
//! count, and what each one is taken for.

use crate::cancellable::Cancellable;
use crate::error::IOErrorEnum;
use crate::file::local::LocalFile;
use crate::mount::{Mount, ServicePlan};
use crate::path;
use crate::text::{
    chars_eq, contains, from_chars, has_prefix, has_sub, joined, parse_u32, parsed_u32, pieces,
    split, starts_with, str_eq, to_chars, views, Sep,
};
use vstd::prelude::*;

verus! {

/// One line of the mount table.
#[derive(Debug)]
pub struct MountEntry {
    pub mount_id: u32,
    pub parent_id: u32,
    pub major_minor: String,
    pub root: String,
    pub mount_point: String,
    pub mount_options: String,
    pub optional_fields: String,
    pub filesystem_type: String,
    pub source: String,
    pub super_options: String,
}

/// The separator between the optional fields and the rest.
pub open spec fn dash() -> Seq<char> {
    seq!['-']
}

/// The blank between joined fields.
pub open spec fn blank() -> Seq<char> {
    seq![' ']
}

/// The position of the first `-` among the fields from position `from`
/// on, or the number of fields if there is none.
pub open spec fn separator_from(fields: Seq<Seq<char>>, from: int) -> int
    decreases fields.len() - from,
{
    if from >= fields.len() {
        fields.len() as int
    } else if fields[from] == dash() {
        from
    } else {
        separator_from(fields, from + 1)
    }
}

/// Where the filesystem type stands: after the separator, or at position 6
/// in a line without one.
pub open spec fn type_index(fields: Seq<Seq<char>>) -> int {
    let sep = separator_from(fields, 6);
    if sep < fields.len() {
        sep + 1
    } else {
        6
    }
}

/// Whether the fields make an entry: there are ten of them or more, the two
/// ids are numbers, and a source follows the filesystem type.
pub open spec fn fields_parse(fields: Seq<Seq<char>>) -> bool {
    &&& fields.len() >= 10
    &&& parsed_u32(fields[0]) is Some
    &&& parsed_u32(fields[1]) is Some
    &&& fields.len() > type_index(fields) + 1
}

/// Whether `entry` is what the fields say.
pub open spec fn entry_matches(entry: MountEntry, fields: Seq<Seq<char>>) -> bool {
    let sep = separator_from(fields, 6);
    let at = type_index(fields);
    &&& Some(entry.mount_id) == parsed_u32(fields[0])
    &&& Some(entry.parent_id) == parsed_u32(fields[1])
    &&& entry.major_minor@ == fields[2]
    &&& entry.root@ == fields[3]
    &&& entry.mount_point@ == fields[4]
    &&& entry.mount_options@ == fields[5]
    &&& entry.optional_fields@ == joined(fields.subrange(6, sep), blank())
    &&& entry.filesystem_type@ == fields[at]
    &&& entry.source@ == fields[at + 1]
    &&& entry.super_options@ == joined(fields.subrange(at + 2, fields.len() as int), blank())
}

/// What `separator_from` finds is the first `-` from `from` on.
pub proof fn lemma_separator_from(fields: Seq<Seq<char>>, from: int)
    requires
        0 <= from <= fields.len(),
    ensures
        from <= separator_from(fields, from) <= fields.len(),
        separator_from(fields, from) < fields.len() ==> fields[separator_from(fields, from)]
            == dash(),
        forall|j: int| from <= j < separator_from(fields, from) ==> fields[j] != dash(),
    decreases fields.len() - from,
{
    if from < fields.len() && fields[from] != dash() {
        lemma_separator_from(fields, from + 1);
    }
}

/// The fields from `from` up to `to`, with blanks between them.
fn join_range(fields: &Vec<Vec<char>>, from: usize, to: usize) -> (r: String)
    requires
        from <= to <= fields.len(),
    ensures
        r@ == joined(views(fields@).subrange(from as int, to as int), blank()),
{
    let mut out: Vec<char> = Vec::new();
    let ghost all = views(fields@);
    let mut i: usize = from;
    assert(all.subrange(from as int, from as int) =~= Seq::<Seq<char>>::empty());
    while i < to
        invariant
            from <= i <= to <= fields.len(),
            all == views(fields@),
            out@ == joined(all.subrange(from as int, i as int), blank()),
        decreases to - i,
    {
        proof {
            let next = all.subrange(from as int, i + 1);
            assert(next.drop_last() == all.subrange(from as int, i as int));
            assert(next.last() == fields@[i as int]@);
        }
        if i > from {
            out.push(' ');
            assert(out@ == joined(all.subrange(from as int, i as int), blank()) + blank());
        }
        crate::text::append(&mut out, &fields[i]);
        i = i + 1;
    }
    from_chars(&out)
}

/// Whether `field` is the separator `-`.
fn is_dash(field: &Vec<char>) -> (r: bool)
    ensures
        r == (field@ == dash()),
{
    let r = field.len() == 1 && field[0] == '-';
    proof {
        if r {
            assert(field@ =~= dash());
        }
    }
    r
}

/// A mount of the kernel's mount table.
#[derive(Debug)]
pub struct UnixMount {
    pub mount_point: String,
    pub source: String,
    pub filesystem_type: String,
    pub is_read_only: bool,
    pub is_system_internal: bool,
}

/// A mount is read-only when `ro` is one of its options.
pub open spec fn read_only(mount_options: Seq<char>) -> bool {
    pieces(mount_options, Sep::Comma, true).contains("ro"@)
}

/// The filesystem type is one of the kernel's own: `tmpfs`, `devtmpfs`,
/// `sysfs`, `proc`, `devpts`.
pub open spec fn kernel_filesystem(filesystem_type: Seq<char>) -> bool {
    ||| filesystem_type == "tmpfs"@
    ||| filesystem_type == "devtmpfs"@
    ||| filesystem_type == "sysfs"@
    ||| filesystem_type == "proc"@
    ||| filesystem_type == "devpts"@
}

/// A mount is internal to the system when it is the root, lies under
/// `/sys`, `/proc` or `/dev`, or holds one of the kernel's own filesystems.
pub open spec fn system_internal(mount_point: Seq<char>, filesystem_type: Seq<char>) -> bool {
    ||| path::components(mount_point) == seq![path::slash()]
    ||| path::starts_with(mount_point, "/sys"@)
    ||| path::starts_with(mount_point, "/proc"@)
    ||| path::starts_with(mount_point, "/dev"@)
    ||| kernel_filesystem(filesystem_type)
}

/// A mount holds media that can be ejected when it lies under `/media` or
/// `/mnt`.
pub open spec fn ejectable(mount_point: Seq<char>) -> bool {
    path::starts_with(mount_point, "/media"@) || path::starts_with(mount_point, "/mnt"@)
}

/// The icon of a mount: optical for `iso9660` or a source that holds `sr`;
/// removable media for a source `/dev/sd*` or `/dev/nvme*` under `/media`
/// or `/mnt`; flash for a source `/dev/mmc*`; a hard disk else.
pub open spec fn mount_icon(mount_point: Seq<char>, filesystem_type: Seq<char>, source: Seq<char>)
    -> Seq<char> {
    if filesystem_type == "iso9660"@ || contains(source, "sr"@) {
        "drive-optical"@
    } else if (starts_with(source, "/dev/sd"@) || starts_with(source, "/dev/nvme"@)) && ejectable(
        mount_point,
    ) {
        "drive-removable-media"@
    } else if starts_with(source, "/dev/mmc"@) {
        "media-flash"@
    } else {
        "drive-harddisk"@
    }
}

/// The name of a mount: the file name of its mount point, or the whole
/// mount point where it has none.
pub open spec fn unix_mount_name(mount_point: Seq<char>) -> Seq<char> {
    match path::file_name(mount_point) {
        Some(name) => name,
        None => mount_point,
    }
}

/// Whether `p` lies under `base`.
fn under(p: &Vec<char>, base: &str) -> (r: bool)
    ensures
        r == path::starts_with(p@, base@),
{
    let b = to_chars(base);
    path::path_starts_with(p, &b)
}

/// Whether `name` is among `names`.
fn has_piece(names: &Vec<Vec<char>>, name: &Vec<char>) -> (r: bool)
    ensures
        r == views(names@).contains(name@),
{
    let mut i: usize = 0;
    while i < names.len()
        invariant
            i <= names.len(),
            forall|j: int| 0 <= j < i ==> views(names@)[j] != name@,
        decreases names.len() - i,
    {
        if chars_eq(&names[i], name) {
            assert(views(names@)[i as int] == name@);
            return true;
        }
        i = i + 1;
    }
    false
}

impl UnixMount {
    /// The mount that an entry of the mount table describes.
    pub fn new(entry: &MountEntry) -> (r: Self)
        ensures
            r.mount_point@ == entry.mount_point@,
            r.source@ == entry.source@,
            r.filesystem_type@ == entry.filesystem_type@,
            r.is_read_only == read_only(entry.mount_options@),
            r.is_system_internal == system_internal(entry.mount_point@, entry.filesystem_type@),
    {
        let options = split(&to_chars(entry.mount_options.as_str()), Sep::Comma, true);
        let is_read_only = has_piece(&options, &to_chars("ro"));
        let mp = to_chars(entry.mount_point.as_str());
        let parts = path::split_components(&mp);
        let is_root = parts.len() == 1 && parts[0].len() == 1 && parts[0][0] == '/';
        proof {
            if is_root {
                assert(parts@[0]@ =~= path::slash());
                assert(views(parts@) =~= seq![path::slash()]);
            } else if views(parts@) == seq![path::slash()] {
                assert(views(parts@).len() == 1);
                assert(views(parts@)[0] == parts@[0]@);
                assert(parts@[0]@[0] == '/');
            }
        }
        let fs = entry.filesystem_type.as_str();
        let is_system_internal = is_root || under(&mp, "/sys") || under(&mp, "/proc") || under(
            &mp,
            "/dev",
        ) || str_eq(fs, "tmpfs") || str_eq(fs, "devtmpfs") || str_eq(fs, "sysfs") || str_eq(
            fs,
            "proc",
        ) || str_eq(fs, "devpts");
        UnixMount {
            mount_point: entry.mount_point.clone(),
            source: entry.source.clone(),
            filesystem_type: entry.filesystem_type.clone(),
            is_read_only,
            is_system_internal,
        }
    }

    /// Whether the mount lies under `/media` or `/mnt`.
    pub fn is_ejectable(&self) -> (r: bool)
        ensures
            r == ejectable(self.mount_point@),
    {
        let mp = to_chars(self.mount_point.as_str());
        under(&mp, "/media") || under(&mp, "/mnt")
    }

    /// The name of the mount's icon.
    pub fn get_icon_name(&self) -> (r: String)
        ensures
            r@ == mount_icon(self.mount_point@, self.filesystem_type@, self.source@),
    {
        let source = to_chars(self.source.as_str());
        if str_eq(self.filesystem_type.as_str(), "iso9660") || has_sub(&source, &to_chars("sr")) {
            "drive-optical".to_owned()
        } else if (has_prefix(&source, &to_chars("/dev/sd")) || has_prefix(
            &source,
            &to_chars("/dev/nvme"),
        )) && self.is_ejectable() {
            "drive-removable-media".to_owned()
        } else if has_prefix(&source, &to_chars("/dev/mmc")) {
            "media-flash".to_owned()
        } else {
            "drive-harddisk".to_owned()
        }
    }
}

impl Mount for UnixMount {
    /// The root of the mount is its mount point.
    open spec fn spec_root(&self) -> Seq<char> {
        self.mount_point@
    }

    fn get_root(&self) -> (r: LocalFile)
        ensures
            r@ == self.mount_point@,
            r.is_text(),
    {
        LocalFile::new(self.mount_point.as_str())
    }

    fn get_name(&self) -> (r: String)
        ensures
            r@ == unix_mount_name(self.mount_point@),
    {
        let mp = to_chars(self.mount_point.as_str());
        match path::path_file_name(&mp) {
            Some(name) => from_chars(&name),
            None => self.mount_point.clone(),
        }
    }

    fn get_icon(&self) -> (r: String)
        ensures
            r@ == mount_icon(self.mount_point@, self.filesystem_type@, self.source@),
    {
        self.get_icon_name()
    }

    fn get_uuid(&self) -> (r: Option<String>)
        ensures
            r is None,
    {
        None
    }

    fn get_volume(&self) -> (r: Option<String>)
        ensures
            r is None,
    {
        None
    }

    fn get_drive(&self) -> (r: Option<String>)
        ensures
            r is None,
    {
        None
    }

    /// A mount can be unmounted unless it is internal to the system.
    fn can_unmount(&self) -> (r: bool)
        ensures
            r == !self.is_system_internal,
    {
        !self.is_system_internal
    }

    /// A mount can be ejected when it lies under `/media` or `/mnt`, unless
    /// it is internal to the system.
    fn can_eject(&self) -> (r: bool)
        ensures
            r == (!self.is_system_internal && ejectable(self.mount_point@)),
    {
        !self.is_system_internal && self.is_ejectable()
    }

    /// Unmounting is not supported here, for any mount.
    fn unmount(&self, cancellable: Option<&Cancellable>) -> (r: ServicePlan)
        ensures
            r.fails_at_once(IOErrorEnum::NotSupported),
            r.failure->Some_0.spec_message() == if self.is_system_internal {
                "Cannot unmount system internal mount"@
            } else {
                "Unmounting is not supported"@
            },
    {
        if !self.can_unmount() {
            ServicePlan::refuse(IOErrorEnum::NotSupported, "Cannot unmount system internal mount")
        } else {
            ServicePlan::refuse(IOErrorEnum::NotSupported, "Unmounting is not supported")
        }
    }

    /// Ejecting is not supported here, for any mount.
    fn eject(&self, cancellable: Option<&Cancellable>) -> (r: ServicePlan)
        ensures
            r.fails_at_once(IOErrorEnum::NotSupported),
            r.failure->Some_0.spec_message() == if !self.is_system_internal && ejectable(
                self.mount_point@,
            ) {
                "Ejection is not supported"@
            } else {
                "Cannot eject this mount"@
            },
    {
        if !self.can_eject() {
            ServicePlan::refuse(IOErrorEnum::NotSupported, "Cannot eject this mount")
        } else {
            ServicePlan::refuse(IOErrorEnum::NotSupported, "Ejection is not supported")
        }
    }
}

/// The reader of the kernel's mount table.
#[derive(Debug, Clone, Copy, PartialEq, Eq, Structural)]
pub struct MountBackend {}

/// A mount is listed unless it lies under `/proc`, `/sys/kernel`,
/// `/sys/fs/cgroup` or `/dev`.
pub open spec fn listed(mount_point: Seq<char>) -> bool {
    &&& !path::starts_with(mount_point, "/proc"@)
    &&& !path::starts_with(mount_point, "/sys/kernel"@)
    &&& !path::starts_with(mount_point, "/sys/fs/cgroup"@)
    &&& !path::starts_with(mount_point, "/dev"@)
}

/// The fields of a line of the mount table.
pub open spec fn line_fields(line: Seq<char>) -> Seq<Seq<char>> {
    pieces(line, Sep::Space, false)
}

/// Whether a line of the mount table gives a mount that is listed.
pub open spec fn line_counts(line: Seq<char>) -> bool {
    fields_parse(line_fields(line)) && listed(line_fields(line)[4])
}

/// The lines that give listed mounts, in order.
pub open spec fn counted_lines(lines: Seq<Seq<char>>) -> Seq<Seq<char>>
    decreases lines.len(),
{
    if lines.len() == 0 {
        Seq::empty()
    } else {
        let init = counted_lines(lines.drop_last());
        if line_counts(lines.last()) {
            init.push(lines.last())
        } else {
            init
        }
    }
}

/// Whether `mount` is the mount that `line` gives.
pub open spec fn mount_of_line(mount: UnixMount, line: Seq<char>) -> bool {
    let fields = line_fields(line);
    &&& mount.mount_point@ == fields[4]
    &&& mount.filesystem_type@ == fields[type_index(fields)]
    &&& mount.source@ == fields[type_index(fields) + 1]
    &&& mount.is_read_only == read_only(fields[5])
    &&& mount.is_system_internal == system_internal(fields[4], fields[type_index(fields)])
}

/// The mount at position `i` holds `p`.
pub open spec fn holds(mounts: Seq<UnixMount>, p: Seq<char>, i: int) -> bool {
    &&& 0 <= i < mounts.len()
    &&& path::starts_with(p, mounts[i].mount_point@)
    &&& path::components(mounts[i].mount_point@).len() > 0
}

/// The mount at position `i` is the most specific one that holds `p`: no
/// mount that holds `p` has more components, and none before it has as
/// many.
pub open spec fn most_specific(mounts: Seq<UnixMount>, p: Seq<char>, i: int) -> bool {
    &&& holds(mounts, p, i)
    &&& forall|j: int| #[trigger]
        holds(mounts, p, j) ==> path::components(mounts[j].mount_point@).len()
            <= path::components(mounts[i].mount_point@).len()
    &&& forall|j: int|
        0 <= j < i && #[trigger] holds(mounts, p, j) ==> path::components(
            mounts[j].mount_point@,
        ).len() < path::components(mounts[i].mount_point@).len()
}

impl MountBackend {
    /// A reader of the mount table.
    pub fn new() -> (r: Self) {
        MountBackend {  }
    }

    /// Reads one line of the mount table. The line is split at white
    /// space. The first six fields are the mount id, the parent id, the
    /// device numbers, the root, the mount point and the mount options.
    /// Optional fields follow up to a `-`; then come the filesystem type,
    /// the source, and the options of the superblock.
    pub fn parse_mountinfo_line(line: &str) -> (r: Option<MountEntry>)
        ensures
            r is Some <==> fields_parse(line_fields(line@)),
            r matches Some(entry) ==> entry_matches(entry, line_fields(line@)),
    {
        let chars = to_chars(line);
        let parts = split(&chars, Sep::Space, false);
        let ghost fields = views(parts@);
        if parts.len() < 10 {
            return None;
        }
        let mount_id = match parse_u32(&parts[0]) {
            Some(n) => n,
            None => {
                return None;
            },
        };
        let parent_id = match parse_u32(&parts[1]) {
            Some(n) => n,
            None => {
                return None;
            },
        };
        let mut sep: usize = 6;
        while sep < parts.len() && !is_dash(&parts[sep])
            invariant
                6 <= sep <= parts.len(),
                fields == views(parts@),
                separator_from(fields, 6) == separator_from(fields, sep as int),
            decreases parts.len() - sep,
        {
            sep = sep + 1;
        }
        proof {
            lemma_separator_from(fields, 6);
        }
        let at: usize = if sep < parts.len() {
            sep + 1
        } else {
            6
        };
        if parts.len() - at <= 1 {
            return None;
        }
        let entry = MountEntry {
            mount_id,
            parent_id,
            major_minor: from_chars(&parts[2]),
            root: from_chars(&parts[3]),
            mount_point: from_chars(&parts[4]),
            mount_options: from_chars(&parts[5]),
            optional_fields: join_range(&parts, 6, sep),
            filesystem_type: from_chars(&parts[at]),
            source: from_chars(&parts[at + 1]),
            super_options: join_range(&parts, at + 2, parts.len()),
        };
        Some(entry)
    }

    /// The mounts that the text of the mount table lists, in its order:
    /// one for each line that can be read and whose mount point does not
    /// lie under `/proc`, `/sys/kernel`, `/sys/fs/cgroup` or `/dev`.
    pub fn get_mounts(&self, content: &str) -> (r: Vec<UnixMount>)
        ensures
            r@.len() == counted_lines(pieces(content@, Sep::Line, false)).len(),
            forall|i: int|
                0 <= i < r@.len() ==> mount_of_line(
                    #[trigger] r@[i],
                    counted_lines(pieces(content@, Sep::Line, false))[i],
                ),
    {
        let chars = to_chars(content);
        let lines = split(&chars, Sep::Line, false);
        let ghost all = views(lines@);
        let mut mounts: Vec<UnixMount> = Vec::new();
        let mut i: usize = 0;
        while i < lines.len()
            invariant
                i <= lines.len(),
                all == views(lines@),
                mounts@.len() == counted_lines(all.take(i as int)).len(),
                forall|j: int|
                    0 <= j < mounts@.len() ==> mount_of_line(
                        #[trigger] mounts@[j],
                        counted_lines(all.take(i as int))[j],
                    ),
            decreases lines.len() - i,
        {
            proof {
                assert(all.take(i + 1).drop_last() == all.take(i as int));
                assert(all.take(i + 1).last() == lines@[i as int]@);
            }
            let line = from_chars(&lines[i]);
            match MountBackend::parse_mountinfo_line(line.as_str()) {
                Some(entry) => {
                    let mp = to_chars(entry.mount_point.as_str());
                    if !under(&mp, "/proc") && !under(&mp, "/sys/kernel") && !under(
                        &mp,
                        "/sys/fs/cgroup",
                    ) && !under(&mp, "/dev") {
                        let mount = UnixMount::new(&entry);
                        mounts.push(mount);
                    }
                },
                None => {},
            }
            i = i + 1;
        }
        assert(all.take(lines.len() as int) == all);
        mounts
    }

    /// The most specific mount that holds `path`: the one with the longest
    /// mount point among those whose mount point leads to `path`, and the
    /// first of them in the list if there are several.
    pub fn get_mount_for_path<'a>(&self, mounts: &'a Vec<UnixMount>, path: &str) -> (r: Option<
        &'a UnixMount,
    >)
        ensures
            match r {
                Some(m) => exists|i: int| most_specific(mounts@, path@, i) && *m == mounts@[i],
                None => forall|i: int| !holds(mounts@, path@, i),
            },
    {
        let p = to_chars(path);
        let mut best: Option<usize> = None;
        let mut best_len: usize = 0;
        let mut i: usize = 0;
        while i < mounts.len()
            invariant
                i <= mounts.len(),
                p@ == path@,
                match best {
                    Some(b) => b < i && best_len == path::components(
                        mounts@[b as int].mount_point@,
                    ).len() && holds(mounts@, path@, b as int) && (forall|j: int|
                        0 <= j < i && #[trigger] holds(mounts@, path@, j) ==> path::components(
                            mounts@[j].mount_point@,
                        ).len() <= best_len) && (forall|j: int|
                        0 <= j < b && #[trigger] holds(mounts@, path@, j) ==> path::components(
                            mounts@[j].mount_point@,
                        ).len() < best_len),
                    None => best_len == 0 && forall|j: int| 0 <= j < i ==> !holds(mounts@, path@, j),
                },
            decreases mounts.len() - i,
        {
            let mp = to_chars(mounts[i].mount_point.as_str());
            if path::path_starts_with(&p, &mp) {
                let len = path::component_count(&mp);
                if len > best_len {
                    best_len = len;
                    best = Some(i);
                }
            }
            i = i + 1;
        }
        match best {
            Some(b) => {
                assert(most_specific(mounts@, path@, b as int));
                Some(&mounts[b])
            },
            None => None,
        }
    }
}

impl Default for MountBackend {
    fn default() -> (r: Self) {
        MountBackend::new()
    }
}

} // verus!
