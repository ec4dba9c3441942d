use npio::backend::thumbnail::{to_hex, CacheRoots, ThumbnailBackend, ThumbnailSize};
use npio::cancellable::Cancellable;
use npio::error::{IOErrorEnum, NpioError};
use npio::file_info::{FileAttributeType, FileInfo};
use npio::service::thumbnail::{
    cache_key, is_supported_mime, modification_time, CacheEntry, ThumbnailEvent, ThumbnailImage,
    ThumbnailImageCache, ThumbnailService, THUMBNAIL_MAX_AGE_SECS,
};

fn roots() -> CacheRoots {
    CacheRoots { xdg_cache_home: Some("/home/u/.cache".to_string()), platform_cache: None, home: None }
}

fn cancelled() -> Cancellable {
    let mut token = Cancellable::new();
    token.cancel();
    token
}

#[test]
fn test_sizes() {
    assert_eq!(ThumbnailSize::Normal.dimensions(), (128, 128));
    assert_eq!(ThumbnailSize::Large.dimensions(), (256, 256));
    assert_eq!(ThumbnailSize::XLarge.dimensions(), (512, 512));
    assert_eq!(ThumbnailSize::XXLarge.dimensions(), (1024, 1024));
    assert_eq!(ThumbnailSize::Normal.directory_name(), "normal");
    assert_eq!(ThumbnailSize::Large.directory_name(), "large");
    assert_eq!(ThumbnailSize::XLarge.directory_name(), "x-large");
    assert_eq!(ThumbnailSize::XXLarge.directory_name(), "xx-large");
    for size in [ThumbnailSize::Normal, ThumbnailSize::Large, ThumbnailSize::XLarge, ThumbnailSize::XXLarge] {
        assert_eq!(size.name(), format!("{:?}", size));
    }
}

#[test]
fn test_md5_fingerprint() {
    assert_eq!(
        ThumbnailBackend::uri_to_thumbnail_name("file:///tmp/test.png"),
        "6756f54a791d53a4ece8ebb70471b573.png"
    );
}

#[test]
fn test_fingerprint_is_of_the_raw_bytes() {
    assert_eq!(ThumbnailBackend::uri_to_thumbnail_name(""), "d41d8cd98f00b204e9800998ecf8427e.png");
    assert_eq!(ThumbnailBackend::uri_to_thumbnail_name("abc"), "900150983cd24fb0d6963f7d28e17f72.png");
    // A line feed at the end gives another name.
    assert_ne!(
        ThumbnailBackend::uri_to_thumbnail_name("file:///tmp/test.png\n"),
        "6756f54a791d53a4ece8ebb70471b573.png"
    );
    let name = ThumbnailBackend::uri_to_thumbnail_name("file:///tmp/ü b.png");
    assert_eq!(name.len(), 36);
    assert!(name[..32].chars().all(|c| c.is_ascii_digit() || ('a'..='f').contains(&c)));
}

#[test]
fn test_hex() {
    let text: String = to_hex(&vec![0x00, 0x0f, 0xa0, 0xff, 0x9a]).iter().collect();
    assert_eq!(text, "000fa0ff9a");
    assert!(to_hex(&Vec::new()).is_empty());
}

#[test]
fn test_cache_dir() {
    assert_eq!(ThumbnailBackend::get_cache_dir(&roots(), ThumbnailSize::Normal).ok(), Some("/home/u/.cache/thumbnails/normal".to_string()));
    assert_eq!(ThumbnailBackend::get_cache_dir(&roots(), ThumbnailSize::XXLarge).ok(), Some("/home/u/.cache/thumbnails/xx-large".to_string()));
    let platform = CacheRoots { xdg_cache_home: None, platform_cache: Some("/var/cache/u".to_string()), home: Some("/home/u".to_string()) };
    assert_eq!(ThumbnailBackend::get_cache_dir(&platform, ThumbnailSize::Large).ok(), Some("/var/cache/u/thumbnails/large".to_string()));
    let home = CacheRoots { xdg_cache_home: None, platform_cache: None, home: Some("/home/u".to_string()) };
    assert_eq!(ThumbnailBackend::get_cache_dir(&home, ThumbnailSize::XLarge).ok(), Some("/home/u/.cache/thumbnails/x-large".to_string()));
    let nothing = CacheRoots { xdg_cache_home: None, platform_cache: None, home: None };
    let e = ThumbnailBackend::get_cache_dir(&nothing, ThumbnailSize::Normal).err().expect("no cache home");
    assert_eq!(*e.kind(), IOErrorEnum::Failed);
    assert_eq!(e.message(), "Could not determine XDG_CACHE_HOME");
}

#[test]
fn test_thumbnail_path() {
    assert_eq!(
        ThumbnailBackend::get_thumbnail_path(&roots(), "file:///tmp/test.png", ThumbnailSize::Large).ok(),
        Some("/home/u/.cache/thumbnails/large/6756f54a791d53a4ece8ebb70471b573.png".to_string())
    );
    let nothing = CacheRoots { xdg_cache_home: None, platform_cache: None, home: None };
    assert!(ThumbnailBackend::get_thumbnail_path(&nothing, "file:///tmp/test.png", ThumbnailSize::Large).is_err());
}

#[test]
fn test_thumbnail_validity() {
    // A thumbnail that was just made counts.
    assert!(ThumbnailBackend::has_valid_thumbnail(Some(1000), 1000));
    assert!(ThumbnailBackend::has_valid_thumbnail(Some(1001), 1000));
    // Once the source is touched later, it counts no longer.
    assert!(!ThumbnailBackend::has_valid_thumbnail(Some(1000), 1001));
    assert!(!ThumbnailBackend::has_valid_thumbnail(None, 0));
    assert!(ThumbnailBackend::has_valid_thumbnail(Some(0), 0));
}

#[test]
fn test_thumbnail_image_cache_storage() {
    let mut cache = ThumbnailImageCache::new();

    let test_image = ThumbnailImage { width: 128, height: 128, data: vec![0; 128 * 128 * 4] };

    cache.store_image("test:Normal".to_string(), test_image.clone());

    let retrieved = cache.get_image("test:Normal");
    assert!(retrieved.is_some());
    let img = retrieved.unwrap();
    assert_eq!(img.width, 128);
    assert_eq!(img.height, 128);
    assert_eq!(img.data.len(), 128 * 128 * 4);

    let not_found = cache.get_image("nonexistent:Normal");
    assert!(not_found.is_none());

    cache.clear();
    let cleared = cache.get_image("test:Normal");
    assert!(cleared.is_none());
}

#[test]
fn test_image_cache_replaces() {
    let mut cache = ThumbnailImageCache::default();
    cache.store_image("a:Normal".to_string(), ThumbnailImage { width: 1, height: 1, data: vec![1, 2, 3, 4] });
    cache.store_image("b:Normal".to_string(), ThumbnailImage { width: 2, height: 1, data: vec![0; 8] });
    cache.store_image("a:Normal".to_string(), ThumbnailImage { width: 1, height: 2, data: vec![9; 8] });
    assert_eq!(cache.get_image("a:Normal"), Some(ThumbnailImage { width: 1, height: 2, data: vec![9; 8] }));
    assert_eq!(cache.get_image("b:Normal"), Some(ThumbnailImage { width: 2, height: 1, data: vec![0; 8] }));
    assert_eq!(cache.get_image("a:Large"), None);
}

#[test]
fn test_cache_key() {
    assert_eq!(cache_key("file:///tmp/a.png", ThumbnailSize::Normal), "file:///tmp/a.png:Normal");
    assert_eq!(cache_key("test", ThumbnailSize::XXLarge), "test:XXLarge");
}

#[test]
fn test_supported_mime_types() {
    for mime in ["image/jpeg", "image/jpg", "image/png", "image/gif", "image/webp", "image/bmp", "image/tiff", "image/tif", "application/pdf", "video/mp4", "video/avi", "video/quicktime", "video/x-msvideo", "video/webm"] {
        assert!(is_supported_mime(mime), "{} is supported", mime);
    }
    for mime in ["text/plain", "video/ogg", "video/", "image/svg+xml", "application/octet-stream", "", "IMAGE/PNG"] {
        assert!(!is_supported_mime(mime), "{} is not supported", mime);
    }
}

#[test]
fn test_thumbnail_service_mime_types() {
    let service = ThumbnailService::new();

    let test_cases = vec![
        ("test.jpg", true),
        ("test.png", true),
        ("test.gif", true),
        ("test.webp", true),
        ("test.pdf", true),
        ("test.txt", false),
        ("test.mp4", true),
    ];

    for (filename, expected_supported) in test_cases {
        let file_uri = format!("file:///tmp/npio_thumbnail_mime_test/{}", filename);
        let supported = service.is_supported(&file_uri, None).unwrap();
        assert_eq!(supported, expected_supported, "MIME type check failed for {}", filename);
    }
    let e = service.is_supported("file:///tmp/test.jpg", Some(&cancelled())).err().expect("cancelled");
    assert_eq!(*e.kind(), IOErrorEnum::Cancelled);
}

#[test]
fn test_thumbnail_path_if_valid() {
    let service = ThumbnailService::default();
    let mut info = FileInfo::new();
    info.set_modification_time(1000);
    assert_eq!(modification_time(&info), 1000);
    assert_eq!(modification_time(&FileInfo::new()), 0);
    let uri = "file:///tmp/test.png";
    let expected = "/home/u/.cache/thumbnails/normal/6756f54a791d53a4ece8ebb70471b573.png".to_string();
    assert_eq!(service.get_thumbnail_path(&roots(), uri, ThumbnailSize::Normal, &info, Some(1000), None).ok(), Some(Some(expected.clone())));
    assert_eq!(service.get_thumbnail_path(&roots(), uri, ThumbnailSize::Normal, &info, Some(999), None).ok(), Some(None));
    assert_eq!(service.get_thumbnail_path(&roots(), uri, ThumbnailSize::Normal, &info, None, None).ok(), Some(None));
    // A time that is no unsigned 64-bit number counts as 0.
    info.set_attribute("time::modified", FileAttributeType::Int64(5000));
    assert_eq!(service.get_thumbnail_path(&roots(), uri, ThumbnailSize::Normal, &info, Some(1), None).ok(), Some(Some(expected)));
    let e = service.get_thumbnail_path(&roots(), uri, ThumbnailSize::Normal, &info, Some(1), Some(&cancelled())).err().expect("cancelled");
    assert_eq!(*e.kind(), IOErrorEnum::Cancelled);
    let nothing = CacheRoots { xdg_cache_home: None, platform_cache: None, home: None };
    let e = service.get_thumbnail_path(&nothing, uri, ThumbnailSize::Normal, &info, Some(1), None).err().expect("no cache home");
    assert_eq!(*e.kind(), IOErrorEnum::Failed);
    assert_eq!(service.get_thumbnail_path(&nothing, uri, ThumbnailSize::Normal, &info, None, None).ok(), Some(None));
}

#[test]
fn test_generation_plan() {
    let service = ThumbnailService::new();
    let plan = service.generate_thumbnail(&roots(), "file:///tmp/test.png", ThumbnailSize::Large, true, None).ok().expect("a plan");
    assert_eq!(plan.source_path, "/tmp/test.png");
    assert_eq!(plan.cache_dir, "/home/u/.cache/thumbnails/large");
    assert_eq!(plan.thumbnail_path, "/home/u/.cache/thumbnails/large/6756f54a791d53a4ece8ebb70471b573.png");
    let e = service.generate_thumbnail(&roots(), "file:///tmp/test.png", ThumbnailSize::Large, false, None).err().expect("no source");
    assert_eq!(*e.kind(), IOErrorEnum::NotFound);
    assert_eq!(e.message(), "File not found");
    let e = service.generate_thumbnail(&roots(), "file:///tmp/test.png", ThumbnailSize::Large, false, Some(&cancelled())).err().expect("cancelled");
    assert_eq!(*e.kind(), IOErrorEnum::Cancelled);
    let nothing = CacheRoots { xdg_cache_home: None, platform_cache: None, home: None };
    let e = service.generate_thumbnail(&nothing, "file:///tmp/test.png", ThumbnailSize::Large, true, None).err().expect("no cache home");
    assert_eq!(*e.kind(), IOErrorEnum::Failed);
}

#[test]
fn test_events() {
    let ready = ThumbnailService::ready_event("file:///tmp/a.png", ThumbnailSize::Normal, "/c/x.png");
    assert!(matches!(ready, ThumbnailEvent::ThumbnailReady { uri, size, path } if uri == "file:///tmp/a.png" && size == ThumbnailSize::Normal && path == "/c/x.png"));
    let error = NpioError::new(IOErrorEnum::NotFound, "File not found");
    let failed = ThumbnailService::failed_event("file:///tmp/a.png", ThumbnailSize::Large, &error);
    assert!(matches!(
        failed,
        ThumbnailEvent::ThumbnailFailed { uri, size, error_kind, error_message }
            if uri == "file:///tmp/a.png" && size == ThumbnailSize::Large && error_kind == IOErrorEnum::NotFound && error_message == "NotFound: File not found"
    ));
}

fn cache_entry(path: &str, is_file: bool, age_secs: Option<u64>) -> CacheEntry {
    CacheEntry { path: path.to_string(), is_file, age_secs }
}

#[test]
fn test_cleanup() {
    assert_eq!(THUMBNAIL_MAX_AGE_SECS, 7 * 24 * 60 * 60);
    let entries = vec![
        cache_entry("/c/old.png", true, Some(604801)),
        cache_entry("/c/edge.png", true, Some(604800)),
        cache_entry("/c/new.png", true, Some(10)),
        cache_entry("/c/old.jpg", true, Some(9_000_000)),
        cache_entry("/c/dir.png", false, Some(9_000_000)),
        cache_entry("/c/unknown.png", true, None),
        cache_entry("/c/png", true, Some(9_000_000)),
        cache_entry("/c/.png", true, Some(9_000_000)),
        cache_entry("/c/older.tmp.png", true, Some(u64::MAX)),
        cache_entry("/c/upper.PNG", true, Some(9_000_000)),
    ];
    let service = ThumbnailService::new();
    assert_eq!(service.cleanup_thumbnails(&entries, None).ok(), Some(vec![0, 8]));
    assert!(ThumbnailService::is_stale(&entries[0]));
    assert!(!ThumbnailService::is_stale(&entries[1]));
    assert_eq!(service.cleanup_thumbnails(&Vec::new(), None).ok(), Some(Vec::new()));
    let e = service.cleanup_thumbnails(&entries, Some(&cancelled())).err().expect("cancelled");
    assert_eq!(*e.kind(), IOErrorEnum::Cancelled);
}
