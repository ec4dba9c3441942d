//! The volume monitor: what is known of volumes, mounts and drives, and the
//! events that tell how a new look at them differs from the last.

use crate::backend::mount::UnixMount;
use crate::backend::udisks2::{UDisks2Drive, UDisks2Mount, UDisks2Volume};
use crate::cancellable::{checkpoint, Cancellable};
use crate::error::{IOErrorEnum, NpioResult};
use crate::mount::Mount;
use crate::text::{append_str, decimal, from_chars, opt_eq, opt_view, push_decimal, str_eq};
use vstd::prelude::*;

verus! {

/// How often the device service is looked at, in seconds.
pub const POLL_INTERVAL_SECS: u64 = 2;

/// An event of the volume monitor. Each names what it is about by its key:
/// a volume by its UUID, a mount by its path, a drive by its device.
#[derive(Debug, Clone, PartialEq, Eq)]
pub enum VolumeMonitorEvent {
    VolumeAdded { volume: String },
    VolumeRemoved { volume: String },
    VolumeChanged { volume: String },
    MountAdded { mount: String },
    MountRemoved { mount: String },
    MountChanged { mount: String },
    DriveConnected { drive: String },
    DriveDisconnected { drive: String },
    DriveChanged { drive: String },
}

/// What is watched.
#[derive(Debug, Clone, Copy, PartialEq, Eq, Structural)]
pub enum DeviceKind {
    Volume,
    Mount,
    Drive,
}

/// How something that is watched differs from the last look.
#[derive(Debug, Clone, Copy, PartialEq, Eq, Structural)]
pub enum Change {
    /// It is there now and was not.
    Added,
    /// It was there and is not now.
    Removed,
    /// It is there as before, with other properties.
    Changed,
}

/// A difference between two looks: what happened, and to which key.
pub struct Delta {
    pub change: Change,
    pub key: Seq<char>,
}

/// The difference that an event tells, and of what kind of thing.
pub open spec fn event_view(event: VolumeMonitorEvent) -> (DeviceKind, Delta) {
    match event {
        VolumeMonitorEvent::VolumeAdded { volume } => (
            DeviceKind::Volume,
            Delta { change: Change::Added, key: volume@ },
        ),
        VolumeMonitorEvent::VolumeRemoved { volume } => (
            DeviceKind::Volume,
            Delta { change: Change::Removed, key: volume@ },
        ),
        VolumeMonitorEvent::VolumeChanged { volume } => (
            DeviceKind::Volume,
            Delta { change: Change::Changed, key: volume@ },
        ),
        VolumeMonitorEvent::MountAdded { mount } => (
            DeviceKind::Mount,
            Delta { change: Change::Added, key: mount@ },
        ),
        VolumeMonitorEvent::MountRemoved { mount } => (
            DeviceKind::Mount,
            Delta { change: Change::Removed, key: mount@ },
        ),
        VolumeMonitorEvent::MountChanged { mount } => (
            DeviceKind::Mount,
            Delta { change: Change::Changed, key: mount@ },
        ),
        VolumeMonitorEvent::DriveConnected { drive } => (
            DeviceKind::Drive,
            Delta { change: Change::Added, key: drive@ },
        ),
        VolumeMonitorEvent::DriveDisconnected { drive } => (
            DeviceKind::Drive,
            Delta { change: Change::Removed, key: drive@ },
        ),
        VolumeMonitorEvent::DriveChanged { drive } => (
            DeviceKind::Drive,
            Delta { change: Change::Changed, key: drive@ },
        ),
    }
}

/// The event that tells a difference.
pub fn event_of(kind: DeviceKind, change: Change, key: &str) -> (r: VolumeMonitorEvent)
    ensures
        event_view(r) == (kind, Delta { change, key: key@ }),
{
    let k = key.to_owned();
    match kind {
        DeviceKind::Volume => match change {
            Change::Added => VolumeMonitorEvent::VolumeAdded { volume: k },
            Change::Removed => VolumeMonitorEvent::VolumeRemoved { volume: k },
            Change::Changed => VolumeMonitorEvent::VolumeChanged { volume: k },
        },
        DeviceKind::Mount => match change {
            Change::Added => VolumeMonitorEvent::MountAdded { mount: k },
            Change::Removed => VolumeMonitorEvent::MountRemoved { mount: k },
            Change::Changed => VolumeMonitorEvent::MountChanged { mount: k },
        },
        DeviceKind::Drive => match change {
            Change::Added => VolumeMonitorEvent::DriveConnected { drive: k },
            Change::Removed => VolumeMonitorEvent::DriveDisconnected { drive: k },
            Change::Changed => VolumeMonitorEvent::DriveChanged { drive: k },
        },
    }
}

/// What is known of something that is watched: its key, and the
/// properties by which a change of it is told.
#[derive(Debug)]
pub struct Record {
    /// The key: the UUID of a volume, the path of a mount, the device of a
    /// drive.
    pub key: String,
    /// The name.
    pub name: String,
    /// The name of the icon.
    pub icon: String,
    /// Where it is mounted, if it is.
    pub mount_point: Option<String>,
    /// Whether it can be mounted or unmounted.
    pub can_mount: bool,
    /// Whether it can be ejected.
    pub can_eject: bool,
    /// Whether it holds media.
    pub has_media: bool,
}

impl Record {
    /// Two records tell the same properties.
    pub open spec fn same(&self, other: &Record) -> bool {
        &&& self.name@ == other.name@
        &&& self.icon@ == other.icon@
        &&& opt_view(self.mount_point) == opt_view(other.mount_point)
        &&& self.can_mount == other.can_mount
        &&& self.can_eject == other.can_eject
        &&& self.has_media == other.has_media
    }

    /// Whether two records tell the same properties.
    pub fn is_same(&self, other: &Record) -> (r: bool)
        ensures
            r == self.same(other),
    {
        str_eq(self.name.as_str(), other.name.as_str()) && str_eq(
            self.icon.as_str(),
            other.icon.as_str(),
        ) && opt_eq(&self.mount_point, &other.mount_point) && self.can_mount == other.can_mount
            && self.can_eject == other.can_eject && self.has_media == other.has_media
    }
}

/// The position of the first record of the given key, or the length of the
/// list where none has it.
pub open spec fn key_position(list: Seq<Record>, key: Seq<char>) -> int
    decreases list.len(),
{
    if list.len() == 0 {
        0
    } else if list[0].key@ == key {
        0
    } else {
        1 + key_position(list.skip(1), key)
    }
}

/// What `key_position` finds is the first record of the key.
pub proof fn lemma_key_position(list: Seq<Record>, key: Seq<char>)
    ensures
        0 <= key_position(list, key) <= list.len(),
        key_position(list, key) < list.len() ==> list[key_position(list, key)].key@ == key,
        forall|j: int| 0 <= j < key_position(list, key) ==> (#[trigger] list[j]).key@ != key,
    decreases list.len(),
{
    if list.len() > 0 && list[0].key@ != key {
        lemma_key_position(list.skip(1), key);
        assert forall|j: int| 0 <= j < key_position(list, key) implies (#[trigger] list[j]).key@
            != key by {
            if j > 0 {
                assert(list.skip(1)[j - 1] == list[j]);
            }
        }
    }
}

/// The list with `record` put in: in the place of the first record of its
/// key, or at the end where no record has the key.
pub open spec fn put(list: Seq<Record>, record: Record) -> Seq<Record> {
    let at = key_position(list, record.key@);
    if at < list.len() {
        list.update(at, record)
    } else {
        list.push(record)
    }
}

/// The list with `record` put in unless a record has its key already.
pub open spec fn put_if_absent(list: Seq<Record>, record: Record) -> Seq<Record> {
    if key_position(list, record.key@) < list.len() {
        list
    } else {
        list.push(record)
    }
}

/// The differences for what is gone: one for each record of the last look,
/// in its order, whose key the new look does not hold.
pub open spec fn removals(last: Seq<Record>, now: Seq<Record>) -> Seq<Delta>
    decreases last.len(),
{
    if last.len() == 0 {
        Seq::empty()
    } else {
        let init = removals(last.drop_last(), now);
        if key_position(now, last.last().key@) == now.len() {
            init.push(Delta { change: Change::Removed, key: last.last().key@ })
        } else {
            init
        }
    }
}

/// The differences for what is there: for each record of the new look, in
/// its order, one that says it was added where the last look does not hold
/// its key, and one that says it changed where the last look holds the key
/// with other properties.
pub open spec fn arrivals(last: Seq<Record>, now: Seq<Record>) -> Seq<Delta>
    decreases now.len(),
{
    if now.len() == 0 {
        Seq::empty()
    } else {
        let init = arrivals(last, now.drop_last());
        let record = now.last();
        let at = key_position(last, record.key@);
        if at == last.len() {
            init.push(Delta { change: Change::Added, key: record.key@ })
        } else if !last[at].same(&record) {
            init.push(Delta { change: Change::Changed, key: record.key@ })
        } else {
            init
        }
    }
}

/// The differences between two looks: first what is gone, then what is
/// new or changed.
pub open spec fn differences(last: Seq<Record>, now: Seq<Record>) -> Seq<Delta> {
    removals(last, now) + arrivals(last, now)
}

/// The differences that a list of events tells.
pub open spec fn deltas_of(events: Seq<VolumeMonitorEvent>) -> Seq<Delta> {
    Seq::new(events.len(), |i: int| event_view(events[i]).1)
}

/// The position of the first record of the given key.
fn find_key(list: &Vec<Record>, key: &str) -> (r: usize)
    ensures
        r == key_position(list@, key@),
        r <= list@.len(),
{
    let mut i: usize = 0;
    assert(list@.skip(0) == list@);
    while i < list.len()
        invariant
            i <= list.len(),
            key_position(list@, key@) == i + key_position(list@.skip(i as int), key@),
        decreases list.len() - i,
    {
        proof {
            assert(list@.skip(i as int)[0] == list@[i as int]);
            assert(list@.skip(i as int).skip(1) == list@.skip(i + 1));
        }
        if str_eq(list[i].key.as_str(), key) {
            return i;
        }
        i = i + 1;
    }
    assert(list@.skip(list.len() as int).len() == 0);
    i
}

/// The events that tell how the look `now` differs from the look `last`,
/// for things of one kind.
pub fn diff(kind: DeviceKind, last: &Vec<Record>, now: &Vec<Record>) -> (r: Vec<VolumeMonitorEvent>)
    ensures
        deltas_of(r@) == differences(last@, now@),
        forall|i: int| 0 <= i < r@.len() ==> event_view(#[trigger] r@[i]).0 == kind,
{
    let mut out: Vec<VolumeMonitorEvent> = Vec::new();
    let mut i: usize = 0;
    assert(deltas_of(out@) =~= removals(last@.take(0), now@));
    while i < last.len()
        invariant
            i <= last.len(),
            deltas_of(out@) == removals(last@.take(i as int), now@),
            forall|j: int| 0 <= j < out@.len() ==> event_view(#[trigger] out@[j]).0 == kind,
        decreases last.len() - i,
    {
        proof {
            assert(last@.take(i + 1).drop_last() == last@.take(i as int));
            assert(last@.take(i + 1).last() == last@[i as int]);
        }
        if find_key(now, last[i].key.as_str()) == now.len() {
            let ghost before = deltas_of(out@);
            let event = event_of(kind, Change::Removed, last[i].key.as_str());
            out.push(event);
            assert(deltas_of(out@) =~= before.push(event_view(event).1));
        }
        i = i + 1;
    }
    assert(last@.take(last.len() as int) == last@);
    let ghost gone = deltas_of(out@);
    let mut k: usize = 0;
    assert(gone + arrivals(last@, now@.take(0)) =~= gone);
    while k < now.len()
        invariant
            k <= now.len(),
            gone == removals(last@, now@),
            deltas_of(out@) == gone + arrivals(last@, now@.take(k as int)),
            forall|j: int| 0 <= j < out@.len() ==> event_view(#[trigger] out@[j]).0 == kind,
        decreases now.len() - k,
    {
        proof {
            assert(now@.take(k + 1).drop_last() == now@.take(k as int));
            assert(now@.take(k + 1).last() == now@[k as int]);
        }
        let at = find_key(last, now[k].key.as_str());
        let ghost before = deltas_of(out@);
        if at == last.len() {
            let event = event_of(kind, Change::Added, now[k].key.as_str());
            out.push(event);
            assert(deltas_of(out@) =~= before.push(event_view(event).1));
            assert(before.push(event_view(event).1) =~= gone + arrivals(
                last@,
                now@.take(k as int),
            ).push(event_view(event).1));
        } else if !last[at].is_same(&now[k]) {
            let event = event_of(kind, Change::Changed, now[k].key.as_str());
            out.push(event);
            assert(deltas_of(out@) =~= before.push(event_view(event).1));
            assert(before.push(event_view(event).1) =~= gone + arrivals(
                last@,
                now@.take(k as int),
            ).push(event_view(event).1));
        }
        k = k + 1;
    }
    assert(now@.take(now.len() as int) == now@);
    out
}

/// The record of a volume under the key `key`.
pub open spec fn is_volume_record(record: Record, volume: UDisks2Volume, key: Seq<char>) -> bool {
    &&& record.key@ == key
    &&& record.name@ == volume.name@
    &&& record.icon@ == crate::backend::udisks2::volume_icon(opt_view(volume.device))
    &&& opt_view(record.mount_point) == opt_view(volume.mount_point)
    &&& record.can_mount == volume.can_mount
    &&& record.can_eject == volume.can_eject
    &&& record.has_media
}

/// The record of a drive under the key `key`.
pub open spec fn is_drive_record(record: Record, drive: UDisks2Drive, key: Seq<char>) -> bool {
    &&& record.key@ == key
    &&& record.name@ == drive.name@
    &&& record.icon@ == crate::backend::udisks2::drive_icon(drive.is_removable, drive.model@)
    &&& record.mount_point is None
    &&& !record.can_mount
    &&& record.can_eject == drive.can_eject
    &&& record.has_media == drive.has_media
}

/// The record of a mount at `mount_point`.
pub open spec fn is_mount_record(
    record: Record,
    mount_point: Seq<char>,
    name: Seq<char>,
    icon: Seq<char>,
    can_unmount: bool,
    can_eject: bool,
) -> bool {
    &&& record.key@ == mount_point
    &&& record.name@ == name
    &&& record.icon@ == icon
    &&& opt_view(record.mount_point) == Some(mount_point)
    &&& record.can_mount == can_unmount
    &&& record.can_eject == can_eject
    &&& record.has_media
}

/// The record of a volume under the key `key`.
pub fn volume_record(volume: &UDisks2Volume, key: &str) -> (r: Record)
    ensures
        is_volume_record(r, *volume, key@),
{
    Record {
        key: key.to_owned(),
        name: volume.name.clone(),
        icon: volume.get_icon_name(),
        mount_point: crate::text::clone_opt(&volume.mount_point),
        can_mount: volume.can_mount,
        can_eject: volume.can_eject,
        has_media: true,
    }
}

/// The record of a drive under the key `key`.
pub fn drive_record(drive: &UDisks2Drive, key: &str) -> (r: Record)
    ensures
        is_drive_record(r, *drive, key@),
{
    Record {
        key: key.to_owned(),
        name: drive.name.clone(),
        icon: drive.get_icon_name(),
        mount_point: None,
        can_mount: false,
        can_eject: drive.can_eject,
        has_media: drive.has_media,
    }
}

/// The record of a mount of the mount table, under its mount point.
pub fn unix_mount_record(mount: &UnixMount) -> (r: Record)
    ensures
        is_mount_record(
            r,
            mount.mount_point@,
            crate::backend::mount::unix_mount_name(mount.mount_point@),
            crate::backend::mount::mount_icon(
                mount.mount_point@,
                mount.filesystem_type@,
                mount.source@,
            ),
            !mount.is_system_internal,
            !mount.is_system_internal && crate::backend::mount::ejectable(mount.mount_point@),
        ),
{
    Record {
        key: mount.mount_point.clone(),
        name: mount.get_name(),
        icon: mount.get_icon(),
        mount_point: Some(mount.mount_point.clone()),
        can_mount: mount.can_unmount(),
        can_eject: mount.can_eject(),
        has_media: true,
    }
}

/// The key of a drive that is put into a list of `count` records: its
/// device, or `drive-` and the count where it names none.
pub open spec fn drive_key(drive: UDisks2Drive, count: nat) -> Seq<char> {
    match drive.device {
        Some(d) => d@,
        None => "drive-"@ + decimal(count),
    }
}

/// The records of the volumes that have a UUID, each put under its UUID in
/// the order of the volumes.
pub open spec fn volume_records(volumes: Seq<UDisks2Volume>, list: Seq<Record>) -> bool
    decreases volumes.len(),
{
    if volumes.len() == 0 {
        list.len() == 0
    } else {
        match volumes.last().uuid {
            Some(uuid) => exists|init: Seq<Record>, record: Record|
                #![trigger put(init, record)]
                volume_records(volumes.drop_last(), init) && is_volume_record(
                    record,
                    volumes.last(),
                    uuid@,
                ) && list == put(init, record),
            None => volume_records(volumes.drop_last(), list),
        }
    }
}

/// The records of the drives, each put under its key in the order of the
/// drives.
pub open spec fn drive_records(drives: Seq<UDisks2Drive>, list: Seq<Record>) -> bool
    decreases drives.len(),
{
    if drives.len() == 0 {
        list.len() == 0
    } else {
        exists|init: Seq<Record>, record: Record|
            #![trigger put(init, record)]
            drive_records(drives.drop_last(), init) && is_drive_record(
                record,
                drives.last(),
                drive_key(drives.last(), init.len()),
            ) && list == put(init, record)
    }
}

/// The records of the volumes that have a UUID.
pub fn records_of_volumes(volumes: &Vec<UDisks2Volume>) -> (r: Vec<Record>)
    ensures
        volume_records(volumes@, r@),
{
    let mut list: Vec<Record> = Vec::new();
    let mut i: usize = 0;
    while i < volumes.len()
        invariant
            i <= volumes.len(),
            volume_records(volumes@.take(i as int), list@),
        decreases volumes.len() - i,
    {
        proof {
            assert(volumes@.take(i + 1).drop_last() == volumes@.take(i as int));
            assert(volumes@.take(i + 1).last() == volumes@[i as int]);
        }
        match &volumes[i].uuid {
            Some(uuid) => {
                let ghost init = list@;
                let record = volume_record(&volumes[i], uuid.as_str());
                let at = find_key(&list, uuid.as_str());
                if at < list.len() {
                    list.set(at, record);
                } else {
                    list.push(record);
                }
                assert(list@ == put(init, record));
            },
            None => {},
        }
        i = i + 1;
    }
    assert(volumes@.take(volumes.len() as int) == volumes@);
    list
}

/// The records of the drives.
pub fn records_of_drives(drives: &Vec<UDisks2Drive>) -> (r: Vec<Record>)
    ensures
        drive_records(drives@, r@),
{
    let mut list: Vec<Record> = Vec::new();
    let mut i: usize = 0;
    while i < drives.len()
        invariant
            i <= drives.len(),
            drive_records(drives@.take(i as int), list@),
        decreases drives.len() - i,
    {
        proof {
            assert(drives@.take(i + 1).drop_last() == drives@.take(i as int));
            assert(drives@.take(i + 1).last() == drives@[i as int]);
        }
        let ghost init = list@;
        let key = match &drives[i].device {
            Some(d) => d.clone(),
            None => {
                let mut text: Vec<char> = Vec::new();
                append_str(&mut text, "drive-");
                push_decimal(&mut text, list.len() as u64);
                from_chars(&text)
            },
        };
        let record = drive_record(&drives[i], key.as_str());
        let at = find_key(&list, key.as_str());
        if at < list.len() {
            list.set(at, record);
        } else {
            list.push(record);
        }
        assert(list@ == put(init, record));
        i = i + 1;
    }
    assert(drives@.take(drives.len() as int) == drives@);
    list
}

/// The records of mounts of the device service put into `list`, each in
/// the place of a record of its path.
pub open spec fn with_service_mounts(list: Seq<Record>, mounts: Seq<UDisks2Mount>, result: Seq<
    Record,
>) -> bool
    decreases mounts.len(),
{
    if mounts.len() == 0 {
        result == list
    } else {
        exists|init: Seq<Record>, record: Record|
            #![trigger put(init, record)]
            with_service_mounts(list, mounts.drop_last(), init) && is_mount_record(
                record,
                service_mount_point(mounts.last()),
                crate::backend::udisks2::mount_name(opt_view(mounts.last().mount_point)),
                "drive-harddisk"@,
                mounts.last().mount_point is Some,
                false,
            ) && result == put(init, record)
    }
}

/// Where a mount of the device service has its root: at its mount point,
/// or at `/` where it has none.
pub open spec fn service_mount_point(mount: UDisks2Mount) -> Seq<char> {
    match mount.mount_point {
        Some(mp) => mp@,
        None => "/"@,
    }
}

/// The records of mounts of the mount table put into `list`, each only
/// where no record has its path yet.
pub open spec fn with_table_mounts(list: Seq<Record>, mounts: Seq<UnixMount>, result: Seq<Record>)
    -> bool
    decreases mounts.len(),
{
    if mounts.len() == 0 {
        result == list
    } else {
        exists|init: Seq<Record>, record: Record|
            #![trigger put_if_absent(init, record)]
            with_table_mounts(list, mounts.drop_last(), init) && is_mount_record(
                record,
                mounts.last().mount_point@,
                crate::backend::mount::unix_mount_name(mounts.last().mount_point@),
                crate::backend::mount::mount_icon(
                    mounts.last().mount_point@,
                    mounts.last().filesystem_type@,
                    mounts.last().source@,
                ),
                !mounts.last().is_system_internal,
                !mounts.last().is_system_internal && crate::backend::mount::ejectable(
                    mounts.last().mount_point@,
                ),
            ) && result == put_if_absent(init, record)
    }
}

/// The record of a mount of the device service, under the path of its
/// root.
pub fn service_mount_record(mount: &UDisks2Mount) -> (r: Record)
    ensures
        is_mount_record(
            r,
            service_mount_point(*mount),
            crate::backend::udisks2::mount_name(opt_view(mount.mount_point)),
            "drive-harddisk"@,
            mount.mount_point is Some,
            false,
        ),
{
    let root = mount.get_root();
    Record {
        key: root.path().to_owned(),
        name: mount.get_name(),
        icon: mount.get_icon(),
        mount_point: Some(root.path().to_owned()),
        can_mount: mount.can_unmount(),
        can_eject: mount.can_eject(),
        has_media: true,
    }
}

/// What the volume monitor knows: the volumes by UUID, the mounts by path,
/// the drives by device, and whether it is watching.
pub struct VolumeMonitor {
    volumes: Vec<Record>,
    mounts: Vec<Record>,
    drives: Vec<Record>,
    started: bool,
}

/// What the device service and the mount table gave to a load: `None`
/// where one of them could not be asked.
#[derive(Debug)]
pub struct Looked {
    /// Whether the device service is there.
    pub service_available: bool,
    /// The volumes of the device service.
    pub volumes: Option<Vec<UDisks2Volume>>,
    /// The drives of the device service.
    pub drives: Option<Vec<UDisks2Drive>>,
    /// The mounts of the device service.
    pub service_mounts: Option<Vec<UDisks2Mount>>,
    /// The mounts of the mount table.
    pub table_mounts: Option<Vec<UnixMount>>,
}

impl Looked {
    /// The mounts of the device service that count: those it gave, where it
    /// is there.
    pub open spec fn service_mounts_seen(&self) -> Seq<UDisks2Mount> {
        if self.service_available && self.service_mounts is Some {
            self.service_mounts->Some_0@
        } else {
            Seq::empty()
        }
    }

    /// The mounts of the mount table that count: those it gave.
    pub open spec fn table_mounts_seen(&self) -> Seq<UnixMount> {
        match self.table_mounts {
            Some(t) => t@,
            None => Seq::empty(),
        }
    }
}

impl VolumeMonitor {
    /// The volumes that are known.
    pub closed spec fn spec_volumes(&self) -> Seq<Record> {
        self.volumes@
    }

    /// The mounts that are known.
    pub closed spec fn spec_mounts(&self) -> Seq<Record> {
        self.mounts@
    }

    /// The drives that are known.
    pub closed spec fn spec_drives(&self) -> Seq<Record> {
        self.drives@
    }

    /// Whether the monitor is watching.
    pub closed spec fn spec_started(&self) -> bool {
        self.started
    }

    /// A monitor that knows nothing and does not watch.
    pub fn new() -> (r: Self)
        ensures
            r.spec_volumes().len() == 0,
            r.spec_mounts().len() == 0,
            r.spec_drives().len() == 0,
            !r.spec_started(),
    {
        VolumeMonitor {
            volumes: Vec::new(),
            mounts: Vec::new(),
            drives: Vec::new(),
            started: false,
        }
    }

    /// Starts to watch. Under a cancelled token the call fails with
    /// `Cancelled` and changes nothing. Else the result says whether the
    /// task that polls is to be spawned: only where the monitor did not
    /// watch yet.
    pub fn start(&mut self, cancellable: Option<&Cancellable>) -> (r: NpioResult<bool>)
        ensures
            final(self).spec_volumes() == old(self).spec_volumes(),
            final(self).spec_mounts() == old(self).spec_mounts(),
            final(self).spec_drives() == old(self).spec_drives(),
            r is Err <==> (cancellable matches Some(c) && c@),
            r matches Err(e) ==> e.spec_kind() == IOErrorEnum::Cancelled && final(
                self
            ).spec_started() == old(self).spec_started(),
            r matches Ok(spawn) ==> spawn == !old(self).spec_started() && final(
                self
            ).spec_started(),
    {
        match checkpoint(cancellable) {
            Err(e) => Err(e),
            Ok(()) => {
                let spawn = !self.started;
                self.started = true;
                Ok(spawn)
            },
        }
    }

    /// Stops to watch. The result says whether a task that polls is to be
    /// ended: only where the monitor watched.
    pub fn stop(&mut self) -> (r: bool)
        ensures
            r == old(self).spec_started(),
            !final(self).spec_started(),
            final(self).spec_volumes() == old(self).spec_volumes(),
            final(self).spec_mounts() == old(self).spec_mounts(),
            final(self).spec_drives() == old(self).spec_drives(),
    {
        let was = self.started;
        self.started = false;
        was
    }

    /// Takes in what a look at the devices gave. Under a cancelled token
    /// the call fails with `Cancelled` and changes nothing. Else, where the
    /// device service is there: the volumes that it gave replace those
    /// known, each under its UUID; the drives that it gave replace those
    /// known, each under its device; its mounts are put among those known,
    /// each under its path. Then the mounts of the mount table are put in
    /// where no mount of their path is known.
    pub fn load(&mut self, looked: &Looked, cancellable: Option<&Cancellable>) -> (r: NpioResult<()>)
        ensures
            final(self).spec_started() == old(self).spec_started(),
            r is Err <==> (cancellable matches Some(c) && c@),
            r matches Err(e) ==> e.spec_kind() == IOErrorEnum::Cancelled && final(
                self
            ).spec_volumes() == old(self).spec_volumes() && final(self).spec_mounts() == old(
                self,
            ).spec_mounts() && final(self).spec_drives() == old(self).spec_drives(),
            r is Ok ==> {
                &&& match looked.volumes {
                    Some(v) => if looked.service_available {
                        volume_records(v@, final(self).spec_volumes())
                    } else {
                        final(self).spec_volumes() == old(self).spec_volumes()
                    },
                    None => final(self).spec_volumes() == old(self).spec_volumes(),
                }
                &&& match looked.drives {
                    Some(d) => if looked.service_available {
                        drive_records(d@, final(self).spec_drives())
                    } else {
                        final(self).spec_drives() == old(self).spec_drives()
                    },
                    None => final(self).spec_drives() == old(self).spec_drives(),
                }
                &&& exists|middle: Seq<Record>|
                    {
                        &&& #[trigger] with_service_mounts(
                            old(self).spec_mounts(),
                            looked.service_mounts_seen(),
                            middle,
                        )
                        &&& with_table_mounts(
                            middle,
                            looked.table_mounts_seen(),
                            final(self).spec_mounts(),
                        )
                    }
            },
    {
        match checkpoint(cancellable) {
            Err(e) => {
                return Err(e);
            },
            Ok(()) => {},
        }
        let ghost start = self.mounts@;
        if looked.service_available {
            match &looked.volumes {
                Some(v) => {
                    self.volumes = records_of_volumes(v);
                },
                None => {},
            }
            match &looked.drives {
                Some(d) => {
                    self.drives = records_of_drives(d);
                },
                None => {},
            }
        }
        let mut list: Vec<Record> = Vec::new();
        std::mem::swap(&mut self.mounts, &mut list);
        if looked.service_available {
            match &looked.service_mounts {
                Some(mounts) => {
                    let mut i: usize = 0;
                    assert(mounts@.take(0) =~= Seq::<UDisks2Mount>::empty());
                    while i < mounts.len()
                        invariant
                            i <= mounts.len(),
                            with_service_mounts(start, mounts@.take(i as int), list@),
                        decreases mounts.len() - i,
                    {
                        proof {
                            assert(mounts@.take(i + 1).drop_last() == mounts@.take(i as int));
                            assert(mounts@.take(i + 1).last() == mounts@[i as int]);
                        }
                        let ghost init = list@;
                        let record = service_mount_record(&mounts[i]);
                        let at = find_key(&list, record.key.as_str());
                        if at < list.len() {
                            list.set(at, record);
                        } else {
                            list.push(record);
                        }
                        assert(list@ == put(init, record));
                        i = i + 1;
                    }
                    assert(mounts@.take(mounts.len() as int) == mounts@);
                },
                None => {},
            }
        }
        let ghost middle = list@;
        assert(with_service_mounts(start, looked.service_mounts_seen(), middle));
        match &looked.table_mounts {
            Some(mounts) => {
                let mut i: usize = 0;
                assert(mounts@.take(0) =~= Seq::<UnixMount>::empty());
                while i < mounts.len()
                    invariant
                        i <= mounts.len(),
                        with_table_mounts(middle, mounts@.take(i as int), list@),
                    decreases mounts.len() - i,
                {
                    proof {
                        assert(mounts@.take(i + 1).drop_last() == mounts@.take(i as int));
                        assert(mounts@.take(i + 1).last() == mounts@[i as int]);
                    }
                    let ghost init = list@;
                    let record = unix_mount_record(&mounts[i]);
                    let at = find_key(&list, record.key.as_str());
                    if at == list.len() {
                        list.push(record);
                    }
                    assert(list@ == put_if_absent(init, record));
                    i = i + 1;
                }
                assert(mounts@.take(mounts.len() as int) == mounts@);
            },
            None => {},
        }
        assert(with_table_mounts(middle, looked.table_mounts_seen(), list@));
        self.mounts = list;
        proof {
            assert(start == old(self).spec_mounts());
            assert(with_service_mounts(
                old(self).spec_mounts(),
                looked.service_mounts_seen(),
                middle,
            ));
            assert(with_table_mounts(middle, looked.table_mounts_seen(), self.spec_mounts()));
        }
        Ok(())
    }

    /// Follows a new look at the volumes: the volumes known are those of
    /// the new look from now on, and the events tell how it differs from
    /// what was known, first what is gone, then what is new or changed.
    pub fn poll_volumes(&mut self, volumes: &Vec<UDisks2Volume>) -> (r: Vec<VolumeMonitorEvent>)
        ensures
            volume_records(volumes@, final(self).spec_volumes()),
            deltas_of(r@) == differences(old(self).spec_volumes(), final(self).spec_volumes()),
            forall|i: int| 0 <= i < r@.len() ==> event_view(#[trigger] r@[i]).0 == DeviceKind::Volume,
            final(self).spec_mounts() == old(self).spec_mounts(),
            final(self).spec_drives() == old(self).spec_drives(),
            final(self).spec_started() == old(self).spec_started(),
    {
        let now = records_of_volumes(volumes);
        let events = diff(DeviceKind::Volume, &self.volumes, &now);
        self.volumes = now;
        events
    }

    /// Follows a new look at the drives, as `poll_volumes` does for
    /// volumes.
    pub fn poll_drives(&mut self, drives: &Vec<UDisks2Drive>) -> (r: Vec<VolumeMonitorEvent>)
        ensures
            drive_records(drives@, final(self).spec_drives()),
            deltas_of(r@) == differences(old(self).spec_drives(), final(self).spec_drives()),
            forall|i: int| 0 <= i < r@.len() ==> event_view(#[trigger] r@[i]).0 == DeviceKind::Drive,
            final(self).spec_mounts() == old(self).spec_mounts(),
            final(self).spec_volumes() == old(self).spec_volumes(),
            final(self).spec_started() == old(self).spec_started(),
    {
        let now = records_of_drives(drives);
        let events = diff(DeviceKind::Drive, &self.drives, &now);
        self.drives = now;
        events
    }

    /// Follows a new look at the mounts: the mounts known are the given
    /// records from now on, and the events tell how they differ from what
    /// was known.
    pub fn poll_mounts(&mut self, mounts: Vec<Record>) -> (r: Vec<VolumeMonitorEvent>)
        ensures
            final(self).spec_mounts() == mounts@,
            deltas_of(r@) == differences(old(self).spec_mounts(), mounts@),
            forall|i: int| 0 <= i < r@.len() ==> event_view(#[trigger] r@[i]).0 == DeviceKind::Mount,
            final(self).spec_volumes() == old(self).spec_volumes(),
            final(self).spec_drives() == old(self).spec_drives(),
            final(self).spec_started() == old(self).spec_started(),
    {
        let events = diff(DeviceKind::Mount, &self.mounts, &mounts);
        self.mounts = mounts;
        events
    }

    /// The record of the volume of the given UUID, if one is known.
    pub fn get_volume_for_uuid(&self, uuid: &str) -> (r: Option<&Record>)
        ensures
            match r {
                Some(record) => key_position(self.spec_volumes(), uuid@)
                    < self.spec_volumes().len() && *record == self.spec_volumes()[key_position(
                    self.spec_volumes(),
                    uuid@,
                )] && record.key@ == uuid@,
                None => key_position(self.spec_volumes(), uuid@) == self.spec_volumes().len(),
            },
    {
        proof {
            lemma_key_position(self.volumes@, uuid@);
        }
        let at = find_key(&self.volumes, uuid);
        if at < self.volumes.len() {
            Some(&self.volumes[at])
        } else {
            None
        }
    }

    /// The record of the mount at the given path, if one is known.
    pub fn get_mount_for_path(&self, path: &str) -> (r: Option<&Record>)
        ensures
            match r {
                Some(record) => key_position(self.spec_mounts(), path@) < self.spec_mounts().len()
                    && *record == self.spec_mounts()[key_position(self.spec_mounts(), path@)]
                    && record.key@ == path@,
                None => key_position(self.spec_mounts(), path@) == self.spec_mounts().len(),
            },
    {
        proof {
            lemma_key_position(self.mounts@, path@);
        }
        let at = find_key(&self.mounts, path);
        if at < self.mounts.len() {
            Some(&self.mounts[at])
        } else {
            None
        }
    }

    /// The volumes that are known.
    pub fn get_volumes(&self) -> (r: &Vec<Record>)
        ensures
            r@ == self.spec_volumes(),
    {
        &self.volumes
    }

    /// The mounts that are known.
    pub fn get_mounts(&self) -> (r: &Vec<Record>)
        ensures
            r@ == self.spec_mounts(),
    {
        &self.mounts
    }

    /// The drives that are known.
    pub fn get_connected_drives(&self) -> (r: &Vec<Record>)
        ensures
            r@ == self.spec_drives(),
    {
        &self.drives
    }
}

impl Default for VolumeMonitor {
    fn default() -> (r: Self) {
        VolumeMonitor::new()
    }
}

} // verus!
