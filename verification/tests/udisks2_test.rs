use npio::backend::udisks2::{
    drive_icon_by_model, path_last_segment, property_bool, property_mount_points, property_str, property_str_opt,
    DriveProperties, Element, ManagedObject, PropertyValue, Scalar, UDisks2Backend, UDisks2Drive,
    UDisks2Mount, UDisks2Volume, VolumeProperties,
};
use npio::error::IOErrorEnum;
use npio::mount::ServiceCall;
use npio::{Cancellable, Drive, File, Mount, Volume};

fn text(s: &str) -> Option<PropertyValue> {
    Some(PropertyValue::Str(s.to_string()))
}

fn flag(b: bool) -> Option<PropertyValue> {
    Some(PropertyValue::Bool(b))
}

fn bytes(s: &[u8]) -> Element {
    Element::Array(s.iter().map(|b| Scalar::U8(*b)).collect())
}

fn drive_properties(vendor: &str, model: &str, removable: bool) -> DriveProperties {
    DriveProperties {
        vendor: text(vendor),
        model: text(model),
        removable: flag(removable),
        media_removable: flag(removable),
        media_available: flag(true),
        ejectable: flag(removable),
        device: text("/dev/sdb"),
    }
}

fn volume_properties(label: Option<&str>, uuid: Option<&str>, mount_points: Vec<Element>) -> VolumeProperties {
    VolumeProperties {
        label: label.map(|l| PropertyValue::Str(l.to_string())),
        uuid: uuid.map(|u| PropertyValue::Str(u.to_string())),
        device: text("/dev/sdb1"),
        mount_points: Some(PropertyValue::Array(mount_points)),
    }
}

fn cancelled() -> Cancellable {
    let mut token = Cancellable::new();
    token.cancel();
    token
}

#[test]
fn test_properties_degrade_to_defaults() {
    assert_eq!(property_str(&text("Kingston")), "Kingston");
    assert_eq!(property_str(&None), "");
    assert_eq!(property_str(&flag(true)), "");
    assert_eq!(property_str(&Some(PropertyValue::Other)), "");
    assert!(property_bool(&flag(true)));
    assert!(!property_bool(&flag(false)));
    assert!(!property_bool(&None));
    assert!(!property_bool(&text("true")));
    assert_eq!(property_str_opt(&text("x")), Some("x".to_string()));
    assert_eq!(property_str_opt(&text("")), Some(String::new()));
    assert_eq!(property_str_opt(&None), None);
    assert_eq!(property_str_opt(&flag(true)), None);
}

#[test]
fn test_mount_points_property() {
    let value = Some(PropertyValue::Array(vec![
        bytes(b"/media/a"),
        Element::Other,
        Element::Array(vec![Scalar::U8(0x2F), Scalar::Other, Scalar::U8(0x62)]),
        bytes(b""),
    ]));
    assert_eq!(
        property_mount_points(&value),
        vec![b"/media/a".to_vec(), vec![0x2F, 0, 0x62], Vec::new()]
    );
    assert!(property_mount_points(&None).is_empty());
    assert!(property_mount_points(&text("/media/a")).is_empty());
    assert!(property_mount_points(&Some(PropertyValue::Array(Vec::new()))).is_empty());
}

#[test]
fn test_last_segment() {
    assert_eq!(path_last_segment("/org/freedesktop/UDisks2/drives/Kingston_1"), "Kingston_1");
    assert_eq!(path_last_segment("plain"), "plain");
    assert_eq!(path_last_segment("/ends/with/"), "");
    assert_eq!(path_last_segment(""), "");
}

#[test]
fn test_drive_names() {
    let path = "/org/freedesktop/UDisks2/drives/Kingston_1";
    assert_eq!(UDisks2Drive::new(path, &drive_properties("Kingston", "DataTraveler", true)).get_name(), "Kingston DataTraveler");
    assert_eq!(UDisks2Drive::new(path, &drive_properties("", "DataTraveler", true)).get_name(), "DataTraveler");
    assert_eq!(UDisks2Drive::new(path, &drive_properties("Kingston", "", true)).get_name(), "Kingston_1");
    assert_eq!(UDisks2Drive::new(path, &drive_properties("", "", true)).get_name(), "Kingston_1");
}

#[test]
fn test_drive_from_properties() {
    let path = "/org/freedesktop/UDisks2/drives/d";
    let drive = UDisks2Drive::new(path, &drive_properties("V", "M", true));
    assert_eq!(drive.path, path);
    assert_eq!(drive.vendor, "V");
    assert_eq!(drive.model, "M");
    assert!(drive.is_removable());
    assert!(drive.is_media_removable());
    assert!(drive.has_media());
    assert!(drive.has_volumes());
    assert!(drive.can_eject());
    assert!(drive.is_media_check_automatic());
    assert!(!drive.can_poll_for_media());
    assert!(drive.get_volumes().is_empty());
    assert_eq!(drive.get_identifier("unix-device"), Some("/dev/sdb".to_string()));
    assert_eq!(drive.get_identifier("uuid"), None);
    assert_eq!(drive.enumerate_identifiers(), vec!["unix-device".to_string()]);

    let bare = UDisks2Drive::new(
        path,
        &DriveProperties {
            vendor: None,
            model: Some(PropertyValue::Other),
            removable: text("yes"),
            media_removable: None,
            media_available: None,
            ejectable: None,
            device: flag(true),
        },
    );
    assert_eq!(bare.get_name(), "d");
    assert!(!bare.is_removable());
    assert!(!bare.has_media());
    assert!(!bare.can_eject());
    assert_eq!(bare.get_identifier("unix-device"), None);
    assert!(bare.enumerate_identifiers().is_empty());
}

#[test]
fn test_drive_icons() {
    let icon = |model: &str, removable: bool| UDisks2Drive::new("/d", &drive_properties("V", model, removable)).get_icon();
    assert_eq!(icon("DVD-RW Writer", true), "drive-optical");
    assert_eq!(icon("SuperCD", true), "drive-optical");
    assert_eq!(icon("Optical Thing", true), "drive-optical");
    assert_eq!(icon("DataTraveler", true), "drive-removable-media");
    assert_eq!(icon("DVD-RW Writer", false), "drive-harddisk");
    assert_eq!(icon("Samsung SSD", false), "drive-harddisk");
}

#[test]
fn test_drive_icon_by_model() {
    assert_eq!(drive_icon_by_model(true, "dvd-rw writer"), "drive-optical");
    assert_eq!(drive_icon_by_model(true, "a cd changer"), "drive-optical");
    assert_eq!(drive_icon_by_model(true, "optical"), "drive-optical");
    assert_eq!(drive_icon_by_model(true, "datatraveler"), "drive-removable-media");
    assert_eq!(drive_icon_by_model(true, ""), "drive-removable-media");
    // The model is read as it is given: in upper case it tells nothing.
    assert_eq!(drive_icon_by_model(true, "DVD"), "drive-removable-media");
    assert_eq!(drive_icon_by_model(false, "dvd"), "drive-harddisk");
}

#[test]
fn test_drive_eject_plan() {
    let drive = UDisks2Drive::new("/d/1", &drive_properties("V", "M", true));
    let plan = drive.eject(None);
    assert!(plan.failure.is_none());
    assert_eq!(
        plan.calls,
        vec![ServiceCall {
            object_path: "/d/1".to_string(),
            interface: "org.freedesktop.UDisks2.Drive".to_string(),
            method: "Eject".to_string(),
            options: Vec::new(),
        }]
    );
    let fixed = UDisks2Drive::new("/d/2", &drive_properties("V", "M", false));
    let plan = fixed.eject(None);
    assert!(plan.calls.is_empty());
    let e = plan.failure.expect("the drive cannot eject");
    assert_eq!(*e.kind(), IOErrorEnum::NotSupported);
    assert_eq!(e.message(), "Drive is not ejectable");
    let plan = drive.eject(Some(&cancelled()));
    assert!(plan.calls.is_empty());
    assert_eq!(*plan.failure.expect("cancelled").kind(), IOErrorEnum::Cancelled);
    let plan = drive.poll_for_media(Some(&cancelled()));
    assert!(plan.calls.is_empty() && plan.failure.is_none());
}

#[test]
fn test_volume_names() {
    let path = "/org/freedesktop/UDisks2/block_devices/sdb1";
    let name = |label: Option<&str>, uuid: Option<&str>| UDisks2Volume::new(path, &volume_properties(label, uuid, Vec::new())).get_name();
    assert_eq!(name(Some("Backup"), Some("1234-5678")), "Backup");
    assert_eq!(name(None, Some("1234-5678")), "1234-5678");
    assert_eq!(name(None, None), "sdb1");
    // A label that is there and empty is the name.
    assert_eq!(name(Some(""), Some("1234-5678")), "");
}

#[test]
fn test_volume_that_is_not_mounted() {
    let volume = UDisks2Volume::new("/b/sdb1", &volume_properties(Some("Backup"), Some("1234-5678"), Vec::new()));
    assert_eq!(volume.mount_point, None);
    assert!(volume.can_mount());
    assert!(!volume.can_eject());
    assert!(volume.should_automount());
    assert!(volume.get_mount().is_none());
    assert!(volume.mounted().is_none());
    assert_eq!(volume.get_uuid(), Some("1234-5678".to_string()));
    assert_eq!(volume.get_drive(), None);
    assert_eq!(volume.get_identifier("uuid"), Some("1234-5678".to_string()));
    assert_eq!(volume.get_identifier("label"), Some("Backup".to_string()));
    assert_eq!(volume.get_identifier("unix-device"), Some("/dev/sdb1".to_string()));
    assert_eq!(volume.get_identifier("class"), None);
    assert_eq!(volume.enumerate_identifiers(), vec!["uuid", "label", "unix-device"]);

    let plan = volume.mount(None);
    assert!(plan.failure.is_none());
    assert_eq!(
        plan.calls,
        vec![ServiceCall {
            object_path: "/b/sdb1".to_string(),
            interface: "org.freedesktop.UDisks2.Filesystem".to_string(),
            method: "Mount".to_string(),
            options: vec![("auth.no_user_interaction".to_string(), true)],
        }]
    );
    assert_eq!(*volume.mount(Some(&cancelled())).failure.expect("cancelled").kind(), IOErrorEnum::Cancelled);
    let e = volume.eject(None).failure.expect("the volume cannot be ejected");
    assert_eq!(*e.kind(), IOErrorEnum::NotSupported);
    assert_eq!(e.message(), "Volume cannot be ejected");
}

#[test]
fn test_volume_that_is_mounted() {
    let volume = UDisks2Volume::new(
        "/b/sdb1",
        &volume_properties(None, None, vec![bytes(b"/media/u/Backup"), bytes(b"/mnt/second")]),
    );
    assert_eq!(volume.mount_point, Some("/media/u/Backup".to_string()));
    assert!(!volume.can_mount());
    assert_eq!(volume.enumerate_identifiers(), vec!["unix-device"]);
    let e = volume.mount(None).failure.expect("a mounted volume cannot be mounted");
    assert_eq!(*e.kind(), IOErrorEnum::NotSupported);
    assert_eq!(e.message(), "Volume cannot be mounted");

    let mount = volume.get_mount().expect("the volume is mounted");
    assert_eq!(mount.get_root().uri(), "file:///media/u/Backup");
    assert_eq!(mount.get_name(), "Backup");
    assert_eq!(mount.get_icon(), "drive-harddisk");
    assert_eq!(mount.get_volume(), Some("/b/sdb1".to_string()));
    assert!(mount.can_unmount());
    assert!(!mount.can_eject());

    let mut ejectable = UDisks2Volume::new("/b/sdb1", &volume_properties(None, None, vec![bytes(b"/media/x")]));
    ejectable.can_eject = true;
    let plan = ejectable.eject(None);
    assert!(plan.failure.is_none());
    assert_eq!(plan.calls.len(), 1);
    assert_eq!(plan.calls[0].method, "Unmount");
    assert_eq!(plan.calls[0].options, vec![("force".to_string(), false)]);
    ejectable.mount_point = None;
    let plan = ejectable.eject(None);
    assert!(plan.failure.is_none() && plan.calls.is_empty());
}

#[test]
fn test_mount_point_that_is_not_utf8() {
    let volume = UDisks2Volume::new("/b/x", &volume_properties(None, None, vec![bytes(&[0x2F, 0xFF, 0x61])]));
    assert_eq!(volume.mount_point, Some("/\u{FFFD}a".to_string()));
}

#[test]
fn test_volume_icons() {
    let icon = |device: Option<&str>| {
        let mut properties = volume_properties(None, None, Vec::new());
        properties.device = device.map(|d| PropertyValue::Str(d.to_string()));
        UDisks2Volume::new("/b/x", &properties).get_icon()
    };
    assert_eq!(icon(Some("/dev/sr0")), "drive-optical");
    assert_eq!(icon(Some("/dev/mmcblk0p1")), "media-flash");
    assert_eq!(icon(Some("/dev/sda1")), "drive-harddisk");
    assert_eq!(icon(None), "drive-harddisk");
}

#[test]
fn test_service_mount_plans() {
    let mount = UDisks2Mount {
        path: "/b/sdb1".to_string(),
        mount_point: Some("/media/u/Backup".to_string()),
        volume_path: "/b/sdb1".to_string(),
    };
    let plan = mount.unmount(None);
    assert!(plan.failure.is_none());
    assert_eq!(
        plan.calls,
        vec![ServiceCall {
            object_path: "/b/sdb1".to_string(),
            interface: "org.freedesktop.UDisks2.Filesystem".to_string(),
            method: "Unmount".to_string(),
            options: vec![("force".to_string(), false)],
        }]
    );
    // Ejecting unmounts first and is then not supported.
    let plan = mount.eject(None);
    assert_eq!(plan.calls.len(), 1);
    assert_eq!(plan.calls[0].method, "Unmount");
    let e = plan.failure.expect("the drive is not known");
    assert_eq!(*e.kind(), IOErrorEnum::NotSupported);
    assert_eq!(e.message(), "Eject requires drive lookup");
    let e = mount.remount(None).failure.expect("not supported");
    assert_eq!(e.message(), "Remount is not supported");
    for plan in [mount.unmount(Some(&cancelled())), mount.eject(Some(&cancelled())), mount.remount(Some(&cancelled()))] {
        assert!(plan.calls.is_empty());
        assert_eq!(*plan.failure.expect("cancelled").kind(), IOErrorEnum::Cancelled);
    }

    let unmounted = UDisks2Mount { path: "/b/x".to_string(), mount_point: None, volume_path: "/b/x".to_string() };
    assert_eq!(unmounted.get_root().uri(), "file:///");
    assert_eq!(unmounted.get_name(), "Unknown Mount");
    assert!(!unmounted.can_unmount());
    let e = unmounted.unmount(None).failure.expect("not mounted");
    assert_eq!(*e.kind(), IOErrorEnum::NotSupported);
    assert_eq!(e.message(), "Mount is not mounted");
    let plan = unmounted.eject(None);
    assert!(plan.calls.is_empty());
    assert_eq!(*plan.failure.expect("not supported").kind(), IOErrorEnum::NotSupported);
    assert_eq!(unmounted.remount(None).failure.expect("not mounted").message(), "Mount is not mounted");
}

fn object(path: &str, interfaces: &[&str]) -> ManagedObject {
    ManagedObject { path: path.to_string(), interfaces: interfaces.iter().map(|i| i.to_string()).collect() }
}

#[test]
fn test_objects_are_selected() {
    let objects = vec![
        object("/org/freedesktop/UDisks2/drives/a", &["org.freedesktop.UDisks2.Drive"]),
        object("/org/freedesktop/UDisks2/block_devices/sda", &["org.freedesktop.UDisks2.Block"]),
        object("/org/freedesktop/UDisks2/block_devices/sda1", &["org.freedesktop.UDisks2.Block", "org.freedesktop.UDisks2.Filesystem"]),
        object("/org/freedesktop/UDisks2/drives/b", &["org.freedesktop.UDisks2.Drive.Ata"]),
        object("/org/freedesktop/UDisks2/Manager", &["org.freedesktop.UDisks2.Drive", "org.freedesktop.UDisks2.Filesystem"]),
        object("/org/freedesktop/UDisks2/drives/c", &["x", "org.freedesktop.UDisks2.Drive"]),
        object("/org/freedesktop/UDisks2/block_devices/sdb1", &["org.freedesktop.UDisks2.Filesystem"]),
    ];
    let backend = UDisks2Backend::new();
    assert_eq!(
        backend.get_drives(&objects, None).ok(),
        Some(vec!["/org/freedesktop/UDisks2/drives/a".to_string(), "/org/freedesktop/UDisks2/drives/c".to_string()])
    );
    assert_eq!(
        backend.get_volumes(&objects, None).ok(),
        Some(vec![
            "/org/freedesktop/UDisks2/block_devices/sda1".to_string(),
            "/org/freedesktop/UDisks2/block_devices/sdb1".to_string()
        ])
    );
    assert_eq!(backend.get_drives(&Vec::new(), None).ok(), Some(Vec::new()));
    assert_eq!(*backend.get_drives(&objects, Some(&cancelled())).err().expect("cancelled").kind(), IOErrorEnum::Cancelled);
    assert_eq!(*backend.get_volumes(&objects, Some(&cancelled())).err().expect("cancelled").kind(), IOErrorEnum::Cancelled);
    assert_eq!(UDisks2Backend::default(), backend);
}

fn volumes() -> Vec<UDisks2Volume> {
    vec![
        UDisks2Volume::new("/b/sda1", &volume_properties(None, None, Vec::new())),
        UDisks2Volume::new("/b/sdb1", &volume_properties(None, None, vec![bytes(b"/media/a")])),
        UDisks2Volume::new("/b/sdc1", &volume_properties(None, None, vec![bytes(b"/media/b")])),
        UDisks2Volume::new("/b/sdd1", &volume_properties(None, None, vec![bytes(b"/media/a")])),
    ]
}

#[test]
fn test_mounts_of_volumes() {
    let backend = UDisks2Backend::new();
    let mounts = backend.get_mounts(&volumes(), None).ok().expect("the token is armed");
    let seen: Vec<(String, Option<String>)> = mounts.into_iter().map(|m| (m.path, m.mount_point)).collect();
    assert_eq!(
        seen,
        vec![
            ("/b/sdb1".to_string(), Some("/media/a".to_string())),
            ("/b/sdc1".to_string(), Some("/media/b".to_string())),
            ("/b/sdd1".to_string(), Some("/media/a".to_string())),
        ]
    );
    assert!(backend.get_mounts(&volumes(), Some(&cancelled())).is_err());
}

#[test]
fn test_unmount_by_path() {
    let backend = UDisks2Backend::new();
    let plan = backend.unmount_mount(&volumes(), "/media/a", None);
    assert!(plan.failure.is_none());
    assert_eq!(plan.calls.len(), 1);
    assert_eq!(plan.calls[0].object_path, "/b/sdb1");
    assert_eq!(plan.calls[0].method, "Unmount");
    let plan = backend.unmount_mount(&volumes(), "/media/b", None);
    assert_eq!(plan.calls[0].object_path, "/b/sdc1");
    let plan = backend.unmount_mount(&volumes(), "/media/c", None);
    assert!(plan.calls.is_empty());
    let e = plan.failure.expect("nothing is mounted there");
    assert_eq!(*e.kind(), IOErrorEnum::NotFound);
    assert_eq!(e.message(), "Mount not found: /media/c");
    let plan = backend.unmount_mount(&volumes(), "/media/a", Some(&cancelled()));
    assert!(plan.calls.is_empty());
    assert_eq!(*plan.failure.expect("cancelled").kind(), IOErrorEnum::Cancelled);
}

#[test]
fn test_defaults_are_kept() {
    let drive = UDisks2Drive::new("/d/1", &drive_properties("V", "M", true));
    assert_eq!(drive.get_symbolic_icon(), None);
    assert_eq!(drive.get_sort_key(), None);
    let volume = UDisks2Volume::new("/b/sdb1", &volume_properties(None, None, vec![bytes(b"/media/a")]));
    assert_eq!(volume.get_symbolic_icon(), None);
    assert_eq!(volume.get_sort_key(), None);
    assert!(volume.get_activation_root().is_none());
    let mount = volume.mounted().expect("the volume is mounted");
    assert_eq!(mount.get_symbolic_icon(), None);
    assert_eq!(mount.get_sort_key(), None);
    assert_eq!(mount.get_default_location().map(|f| f.uri()), Some("file:///media/a".to_string()));
}
