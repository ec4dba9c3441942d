use npio::backend::mount::{MountBackend, UnixMount};
use npio::backend::udisks2::{
    DriveProperties, Element, PropertyValue, Scalar, UDisks2Drive, UDisks2Mount, UDisks2Volume,
    VolumeProperties,
};
use npio::cancellable::Cancellable;
use npio::error::IOErrorEnum;
use npio::model::devices::DevicesModel;
use npio::service::volumemonitor::{
    diff, event_of, records_of_drives, records_of_volumes, Change, DeviceKind, Looked, Record,
    VolumeMonitor, VolumeMonitorEvent, POLL_INTERVAL_SECS,
};

fn volume(path: &str, uuid: Option<&str>, label: &str, mount_point: Option<&str>) -> UDisks2Volume {
    let points = match mount_point {
        Some(mp) => vec![Element::Array(mp.bytes().map(Scalar::U8).collect())],
        None => Vec::new(),
    };
    UDisks2Volume::new(
        path,
        &VolumeProperties {
            label: Some(PropertyValue::Str(label.to_string())),
            uuid: uuid.map(|u| PropertyValue::Str(u.to_string())),
            device: Some(PropertyValue::Str("/dev/sdb1".to_string())),
            mount_points: Some(PropertyValue::Array(points)),
        },
    )
}

fn drive(path: &str, device: Option<&str>, model: &str) -> UDisks2Drive {
    UDisks2Drive::new(
        path,
        &DriveProperties {
            vendor: None,
            model: Some(PropertyValue::Str(model.to_string())),
            removable: Some(PropertyValue::Bool(true)),
            media_removable: None,
            media_available: Some(PropertyValue::Bool(true)),
            ejectable: Some(PropertyValue::Bool(true)),
            device: device.map(|d| PropertyValue::Str(d.to_string())),
        },
    )
}

fn record(key: &str, name: &str) -> Record {
    Record {
        key: key.to_string(),
        name: name.to_string(),
        icon: "drive-harddisk".to_string(),
        mount_point: None,
        can_mount: true,
        can_eject: false,
        has_media: true,
    }
}

fn table_mounts() -> Vec<UnixMount> {
    MountBackend::new().get_mounts(
        "25 1 8:1 / / rw - ext4 /dev/sda1 rw\n70 25 8:17 / /media/u/stick rw - vfat /dev/sdb1 rw\n",
    )
}

fn cancelled() -> Cancellable {
    let mut token = Cancellable::new();
    token.cancel();
    token
}

#[test]
fn test_events_by_kind_and_change() {
    assert_eq!(POLL_INTERVAL_SECS, 2);
    assert_eq!(event_of(DeviceKind::Volume, Change::Added, "u"), VolumeMonitorEvent::VolumeAdded { volume: "u".to_string() });
    assert_eq!(event_of(DeviceKind::Volume, Change::Removed, "u"), VolumeMonitorEvent::VolumeRemoved { volume: "u".to_string() });
    assert_eq!(event_of(DeviceKind::Volume, Change::Changed, "u"), VolumeMonitorEvent::VolumeChanged { volume: "u".to_string() });
    assert_eq!(event_of(DeviceKind::Mount, Change::Added, "/m"), VolumeMonitorEvent::MountAdded { mount: "/m".to_string() });
    assert_eq!(event_of(DeviceKind::Mount, Change::Removed, "/m"), VolumeMonitorEvent::MountRemoved { mount: "/m".to_string() });
    assert_eq!(event_of(DeviceKind::Mount, Change::Changed, "/m"), VolumeMonitorEvent::MountChanged { mount: "/m".to_string() });
    assert_eq!(event_of(DeviceKind::Drive, Change::Added, "/dev/sdb"), VolumeMonitorEvent::DriveConnected { drive: "/dev/sdb".to_string() });
    assert_eq!(event_of(DeviceKind::Drive, Change::Removed, "/dev/sdb"), VolumeMonitorEvent::DriveDisconnected { drive: "/dev/sdb".to_string() });
    assert_eq!(event_of(DeviceKind::Drive, Change::Changed, "/dev/sdb"), VolumeMonitorEvent::DriveChanged { drive: "/dev/sdb".to_string() });
}

#[test]
fn test_diff() {
    let last = vec![record("a", "A"), record("b", "B"), record("c", "C"), record("d", "D")];
    let now = vec![record("e", "E"), record("c", "C"), record("b", "B2"), record("f", "F")];
    assert_eq!(
        diff(DeviceKind::Volume, &last, &now),
        vec![
            VolumeMonitorEvent::VolumeRemoved { volume: "a".to_string() },
            VolumeMonitorEvent::VolumeRemoved { volume: "d".to_string() },
            VolumeMonitorEvent::VolumeAdded { volume: "e".to_string() },
            VolumeMonitorEvent::VolumeChanged { volume: "b".to_string() },
            VolumeMonitorEvent::VolumeAdded { volume: "f".to_string() },
        ]
    );
    assert!(diff(DeviceKind::Drive, &last, &last).is_empty());
    assert!(diff(DeviceKind::Drive, &Vec::new(), &Vec::new()).is_empty());
    assert_eq!(
        diff(DeviceKind::Mount, &Vec::new(), &vec![record("/m", "m")]),
        vec![VolumeMonitorEvent::MountAdded { mount: "/m".to_string() }]
    );
    assert_eq!(
        diff(DeviceKind::Drive, &vec![record("/dev/sdb", "d")], &Vec::new()),
        vec![VolumeMonitorEvent::DriveDisconnected { drive: "/dev/sdb".to_string() }]
    );
}

#[test]
fn test_every_property_tells_a_change() {
    let base = record("k", "n");
    let mut other = record("k", "n");
    assert!(base.is_same(&other));
    other.icon = "media-flash".to_string();
    assert!(!base.is_same(&other));
    let mut other = record("k", "n");
    other.mount_point = Some("/m".to_string());
    assert!(!base.is_same(&other));
    let mut other = record("k", "n");
    other.can_mount = false;
    assert!(!base.is_same(&other));
    let mut other = record("k", "n");
    other.can_eject = true;
    assert!(!base.is_same(&other));
    let mut other = record("k", "n");
    other.has_media = false;
    assert!(!base.is_same(&other));
    // The key is not a property.
    assert!(base.is_same(&record("other", "n")));
}

#[test]
fn test_records_of_volumes() {
    let volumes = vec![
        volume("/b/1", Some("U1"), "One", None),
        volume("/b/2", None, "NoUuid", None),
        volume("/b/3", Some("U3"), "Three", Some("/media/three")),
        volume("/b/4", Some("U1"), "One again", None),
    ];
    let records = records_of_volumes(&volumes);
    let seen: Vec<(&str, &str, Option<&str>, bool)> =
        records.iter().map(|r| (r.key.as_str(), r.name.as_str(), r.mount_point.as_deref(), r.can_mount)).collect();
    assert_eq!(seen, vec![("U1", "One again", None, true), ("U3", "Three", Some("/media/three"), false)]);
}

#[test]
fn test_records_of_drives() {
    let drives = vec![
        drive("/d/1", Some("/dev/sda"), "Disk"),
        drive("/d/2", None, "Nameless"),
        drive("/d/3", None, "DVD"),
        drive("/d/4", Some("/dev/sda"), "Disk again"),
    ];
    let records = records_of_drives(&drives);
    let seen: Vec<(&str, &str, &str)> = records.iter().map(|r| (r.key.as_str(), r.name.as_str(), r.icon.as_str())).collect();
    assert_eq!(
        seen,
        vec![
            ("/dev/sda", "Disk again", "drive-removable-media"),
            ("drive-1", "Nameless", "drive-removable-media"),
            ("drive-2", "DVD", "drive-optical"),
        ]
    );
}

#[test]
fn test_start_and_stop() {
    let mut monitor = VolumeMonitor::new();
    assert_eq!(*monitor.start(Some(&cancelled())).err().expect("cancelled").kind(), IOErrorEnum::Cancelled);
    assert_eq!(monitor.start(None).ok(), Some(true));
    // Starting again spawns nothing.
    assert_eq!(monitor.start(None).ok(), Some(false));
    assert!(monitor.stop());
    assert!(!monitor.stop());
    assert_eq!(monitor.start(None).ok(), Some(true));
}

#[test]
fn test_load() {
    let mut monitor = VolumeMonitor::default();
    let looked = Looked {
        service_available: true,
        volumes: Some(vec![volume("/b/1", Some("U1"), "One", Some("/media/u/stick"))]),
        drives: Some(vec![drive("/d/1", Some("/dev/sdb"), "Stick")]),
        service_mounts: Some(vec![UDisks2Mount {
            path: "/b/1".to_string(),
            mount_point: Some("/media/u/stick".to_string()),
            volume_path: "/b/1".to_string(),
        }]),
        table_mounts: Some(table_mounts()),
    };
    assert!(monitor.load(&looked, Some(&cancelled())).is_err());
    assert!(monitor.get_volumes().is_empty());
    assert!(monitor.load(&looked, None).is_ok());
    assert_eq!(monitor.get_volumes().len(), 1);
    assert_eq!(monitor.get_connected_drives().len(), 1);
    let mounts: Vec<(&str, &str)> = monitor.get_mounts().iter().map(|r| (r.key.as_str(), r.icon.as_str())).collect();
    // The mount of the device service comes first and is not replaced by
    // the mount of the same path in the mount table.
    assert_eq!(mounts, vec![("/media/u/stick", "drive-harddisk"), ("/", "drive-harddisk")]);
    assert_eq!(monitor.get_volume_for_uuid("U1").map(|r| r.name.as_str()), Some("One"));
    assert!(monitor.get_volume_for_uuid("U2").is_none());
    assert_eq!(monitor.get_mount_for_path("/").map(|r| r.can_mount), Some(false));
    assert!(monitor.get_mount_for_path("/home").is_none());
}

#[test]
fn test_load_without_the_service() {
    let mut monitor = VolumeMonitor::new();
    let looked = Looked {
        service_available: false,
        volumes: Some(vec![volume("/b/1", Some("U1"), "One", None)]),
        drives: Some(vec![drive("/d/1", None, "x")]),
        service_mounts: Some(vec![UDisks2Mount { path: "/b/1".to_string(), mount_point: None, volume_path: "/b/1".to_string() }]),
        table_mounts: Some(table_mounts()),
    };
    assert!(monitor.load(&looked, None).is_ok());
    assert!(monitor.get_volumes().is_empty());
    assert!(monitor.get_connected_drives().is_empty());
    let keys: Vec<&str> = monitor.get_mounts().iter().map(|r| r.key.as_str()).collect();
    assert_eq!(keys, vec!["/", "/media/u/stick"]);
    let names: Vec<&str> = monitor.get_mounts().iter().map(|r| r.name.as_str()).collect();
    assert_eq!(names, vec!["/", "stick"]);
}

#[test]
fn test_polls() {
    let mut monitor = VolumeMonitor::new();
    assert_eq!(
        monitor.poll_volumes(&vec![volume("/b/1", Some("U1"), "One", None)]),
        vec![VolumeMonitorEvent::VolumeAdded { volume: "U1".to_string() }]
    );
    assert!(monitor.poll_volumes(&vec![volume("/b/1", Some("U1"), "One", None)]).is_empty());
    assert_eq!(
        monitor.poll_volumes(&vec![volume("/b/1", Some("U1"), "One", Some("/media/one")), volume("/b/2", Some("U2"), "Two", None)]),
        vec![
            VolumeMonitorEvent::VolumeChanged { volume: "U1".to_string() },
            VolumeMonitorEvent::VolumeAdded { volume: "U2".to_string() },
        ]
    );
    assert_eq!(
        monitor.poll_volumes(&vec![volume("/b/2", Some("U2"), "Two", None)]),
        vec![VolumeMonitorEvent::VolumeRemoved { volume: "U1".to_string() }]
    );
    assert_eq!(
        monitor.poll_drives(&vec![drive("/d/1", Some("/dev/sdb"), "Stick")]),
        vec![VolumeMonitorEvent::DriveConnected { drive: "/dev/sdb".to_string() }]
    );
    assert_eq!(
        monitor.poll_drives(&Vec::new()),
        vec![VolumeMonitorEvent::DriveDisconnected { drive: "/dev/sdb".to_string() }]
    );
    assert_eq!(
        monitor.poll_mounts(vec![record("/media/a", "a")]),
        vec![VolumeMonitorEvent::MountAdded { mount: "/media/a".to_string() }]
    );
    assert_eq!(monitor.get_mounts().len(), 1);
    assert_eq!(monitor.get_volumes().len(), 1);
}

#[test]
fn test_devices_model() {
    let mut model = DevicesModel::new();
    assert!(model.needs_mounts() && model.needs_drives() && model.needs_volumes());
    assert!(model.load(table_mounts(), None, None, Some(&cancelled())).is_err());
    assert!(model.needs_mounts());

    assert!(model.load(table_mounts(), Some(vec![drive("/d/1", None, "x")]), None, None).is_ok());
    assert!(!model.needs_mounts());
    assert!(!model.needs_drives());
    assert!(model.needs_volumes());
    // What is kept is read without a load.
    assert_eq!(model.get_mounts(Some(Vec::new())).len(), 2);
    assert_eq!(model.get_mounts(None).len(), 2);
    assert_eq!(model.get_drives(None).len(), 1);
    // What is not kept is what the load gave, and is kept from now on.
    assert!(model.get_volumes(None).is_empty());
    assert_eq!(model.get_volumes(Some(vec![volume("/b/1", Some("U1"), "One", None)])).len(), 1);
    assert_eq!(model.get_volumes(None).len(), 1);

    // A load that gives no drives keeps the drives.
    assert!(model.refresh(Vec::new(), None, Some(Vec::new()), None).is_ok());
    assert!(model.needs_mounts());
    assert!(model.needs_volumes());
    assert!(!model.needs_drives());

    let mounts = table_mounts();
    let found = model.get_mount_for_path(&mounts, "/media/u/stick/x", None).ok().expect("armed");
    assert_eq!(found.map(|m| m.mount_point.as_str()), Some("/media/u/stick"));
    assert!(model.get_mount_for_path(&mounts, "/x", Some(&cancelled())).is_err());
}
