use npio::file::local::LocalFile;
use npio::monitor::{watch_event, FileMonitor, FileMonitorEvent, WatchKind, MONITOR_CAPACITY};
use npio::File;

fn created(i: usize) -> FileMonitorEvent<LocalFile> {
    FileMonitorEvent::Created(LocalFile::new(&format!("/tmp/{}", i)))
}

fn path_of(event: Option<FileMonitorEvent<LocalFile>>) -> Option<String> {
    match event {
        Some(FileMonitorEvent::Created(f)) => Some(f.path().to_string()),
        _ => None,
    }
}

#[test]
fn test_watch_events() {
    let path = b"/tmp/x".to_vec();
    assert!(matches!(watch_event(WatchKind::Create, Some(&path)), Some(FileMonitorEvent::Created(f)) if f.uri() == "file:///tmp/x"));
    assert!(matches!(watch_event(WatchKind::Modify, Some(&path)), Some(FileMonitorEvent::Changed(f, None)) if f.path() == "/tmp/x"));
    assert!(matches!(watch_event(WatchKind::Remove, Some(&path)), Some(FileMonitorEvent::Deleted(f)) if f.path() == "/tmp/x"));
    assert!(watch_event(WatchKind::Other, Some(&path)).is_none());
    assert!(watch_event(WatchKind::Create, None).is_none());
    assert!(watch_event(WatchKind::Modify, None).is_none());
    assert!(watch_event(WatchKind::Remove, None).is_none());
}

#[test]
fn test_watch_event_keeps_the_bytes_of_the_path() {
    let path = vec![b'/', b't', 0xFF, b'x'];
    match watch_event(WatchKind::Create, Some(&path)) {
        Some(FileMonitorEvent::Created(f)) => {
            assert_eq!(f.raw_path(), &path);
            assert_eq!(f.path(), "/t\u{FFFD}x");
        }
        _ => panic!("a creation is reported"),
    }
}

#[test]
fn test_events_come_in_order() {
    let mut monitor: FileMonitor<LocalFile> = FileMonitor::new();
    assert_eq!(monitor.pending(), 0);
    assert!(monitor.next_event().is_none());
    assert!(!monitor.report(created(1)));
    assert!(!monitor.report(created(2)));
    assert_eq!(monitor.pending(), 2);
    assert_eq!(path_of(monitor.next_event()), Some("/tmp/1".to_string()));
    assert_eq!(path_of(monitor.next_event()), Some("/tmp/2".to_string()));
    assert!(monitor.next_event().is_none());
}

#[test]
fn test_full_queue_drops_the_oldest() {
    assert_eq!(MONITOR_CAPACITY, 100);
    let mut monitor: FileMonitor<LocalFile> = FileMonitor::new();
    for i in 0..100 {
        assert!(!monitor.report(created(i)));
    }
    assert_eq!(monitor.pending(), 100);
    assert!(monitor.report(created(100)));
    assert!(monitor.report(created(101)));
    assert_eq!(monitor.pending(), 100);
    assert_eq!(path_of(monitor.next_event()), Some("/tmp/2".to_string()));
    assert!(!monitor.report(created(102)));
    assert_eq!(monitor.pending(), 100);
    let mut last = None;
    while let Some(event) = monitor.next_event() {
        last = path_of(Some(event));
    }
    assert_eq!(last, Some("/tmp/102".to_string()));
}
