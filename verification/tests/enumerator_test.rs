use npio::cancellable::Cancellable;
use npio::error::IOErrorEnum;
use npio::file::local::LocalFile;
use npio::file_enumerator::{entry_info, DirectoryEntry, EntryKind, LocalFileEnumerator};
use npio::file_info::FileType;
use npio::File;

fn entries() -> Vec<DirectoryEntry> {
    vec![
        DirectoryEntry { name: b"sub".to_vec(), kind: Some(EntryKind::Directory) },
        DirectoryEntry { name: b"link".to_vec(), kind: Some(EntryKind::SymbolicLink) },
        DirectoryEntry { name: b"a b.txt".to_vec(), kind: Some(EntryKind::Other) },
        DirectoryEntry { name: b"odd".to_vec(), kind: None },
    ]
}

#[test]
fn test_entry_info() {
    let info = entry_info("sub", Some(EntryKind::Directory));
    assert_eq!(info.get_name(), Some("sub"));
    assert_eq!(info.get_file_type(), FileType::Directory);
    assert_eq!(info.attribute_count(), 2);
    assert_eq!(entry_info("l", Some(EntryKind::SymbolicLink)).get_file_type(), FileType::SymbolicLink);
    assert_eq!(entry_info("f", Some(EntryKind::Other)).get_file_type(), FileType::Regular);
    let bare = entry_info("odd", None);
    assert_eq!(bare.attribute_count(), 1);
    assert!(!bare.has_attribute("standard::type"));
}

#[test]
fn test_enumeration() {
    let enumerator = LocalFileEnumerator::new(LocalFile::new("/tmp/dir"));
    let listing = entries();
    let mut read = listing.iter();
    let mut seen = Vec::new();
    loop {
        assert!(enumerator.check(None).is_ok());
        match enumerator.next_file(None, read.next()).expect("the enumerator is open") {
            Some((info, child)) => {
                seen.push((info.get_name().unwrap().to_string(), info.get_file_type(), child.uri()));
            }
            None => break,
        }
    }
    assert_eq!(
        seen,
        vec![
            ("sub".to_string(), FileType::Directory, "file:///tmp/dir/sub".to_string()),
            ("link".to_string(), FileType::SymbolicLink, "file:///tmp/dir/link".to_string()),
            ("a b.txt".to_string(), FileType::Regular, "file:///tmp/dir/a b.txt".to_string()),
            ("odd".to_string(), FileType::Unknown, "file:///tmp/dir/odd".to_string()),
        ]
    );
    // At the end of the listing nothing is handed out, again and again.
    assert!(enumerator.next_file(None, None).expect("open").is_none());
}

#[test]
fn test_enumerator_after_close() {
    let mut enumerator = LocalFileEnumerator::new(LocalFile::new("/tmp/dir"));
    let listing = entries();
    assert!(enumerator.next_file(None, listing.first()).expect("open").is_some());
    assert!(enumerator.close());
    let e = enumerator.check(None).err().expect("the enumerator is closed");
    assert_eq!(*e.kind(), IOErrorEnum::Closed);
    let e = enumerator.next_file(None, listing.first()).err().expect("the enumerator is closed");
    assert_eq!(*e.kind(), IOErrorEnum::Closed);
    let e = enumerator.next_file(None, None).err().expect("the enumerator is closed");
    assert_eq!(*e.kind(), IOErrorEnum::Closed);
    // Closing twice changes nothing.
    assert!(!enumerator.close());
}

#[test]
fn test_enumerator_under_a_cancelled_token() {
    let mut token = Cancellable::new();
    let mut enumerator = LocalFileEnumerator::new(LocalFile::new("/"));
    let listing = entries();
    token.cancel();
    let e = enumerator.check(Some(&token)).err().expect("the token is cancelled");
    assert_eq!(*e.kind(), IOErrorEnum::Cancelled);
    let e = enumerator.next_file(Some(&token), listing.first()).err().expect("the token is cancelled");
    assert_eq!(*e.kind(), IOErrorEnum::Cancelled);
    // Without the token the entry is handed out.
    let (info, child) = enumerator.next_file(None, listing.first()).expect("open").expect("the first entry");
    assert_eq!(info.get_name(), Some("sub"));
    assert_eq!(child.path(), "/sub");
    // On a closed enumerator under a cancelled token, the token is told first.
    enumerator.close();
    let e = enumerator.next_file(Some(&token), None).err().expect("cancelled and closed");
    assert_eq!(*e.kind(), IOErrorEnum::Cancelled);
}

#[test]
fn test_entry_whose_name_is_not_utf8() {
    let enumerator = LocalFileEnumerator::new(LocalFile::new("/tmp/dir"));
    let entry = DirectoryEntry { name: vec![b'a', 0xFF, b'b'], kind: Some(EntryKind::Other) };
    let (info, child) = enumerator.next_file(None, Some(&entry)).expect("open").expect("an entry");
    // The name is shown as far as it can be read; the handle keeps the bytes.
    assert_eq!(info.get_name(), Some("a\u{FFFD}b"));
    assert_eq!(child.path(), "/tmp/dir/a\u{FFFD}b");
    assert_eq!(child.raw_path(), &b"/tmp/dir/a\xFFb".to_vec());
}
