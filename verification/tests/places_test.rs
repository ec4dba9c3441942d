use npio::backend::local::LocalBackend;
use npio::backend::BackendRegistry;
use npio::error::IOErrorEnum;
use npio::service::places::{
    get_directory_icon_name, get_home_file, get_home_icon_name, get_user_dirs_file_path,
    get_user_special_file, load_user_special_dirs, parse_user_dirs_file, UserDirectory, UserDirs,
};
use npio::File;

const ALL: [UserDirectory; 8] = [
    UserDirectory::Desktop,
    UserDirectory::Documents,
    UserDirectory::Download,
    UserDirectory::Music,
    UserDirectory::Pictures,
    UserDirectory::PublicShare,
    UserDirectory::Templates,
    UserDirectory::Videos,
];

#[test]
fn test_parse_user_dirs() {
    let content = "\
# This file is written by xdg-user-dirs-update
XDG_DESKTOP_DIR=\"$HOME/Desktop\"
XDG_DOWNLOAD_DIR=\"$HOME/Downloads\"
XDG_TEMPLATES_DIR=\"$HOME/Templates\"
XDG_PUBLICSHARE_DIR=\"$HOME/Public\"
XDG_DOCUMENTS_DIR=\"$HOME/Documents\"
XDG_MUSIC_DIR=\"/mnt/big/Music\"
XDG_PICTURES_DIR=\"$HOME/Pictures\"
XDG_VIDEOS_DIR=\"$HOME/Videos\"
";
    let dirs = parse_user_dirs_file(content, "/home/u");
    assert_eq!(dirs.get(UserDirectory::Desktop), Some("/home/u/Desktop"));
    assert_eq!(dirs.get(UserDirectory::Documents), Some("/home/u/Documents"));
    assert_eq!(dirs.get(UserDirectory::Download), Some("/home/u/Downloads"));
    assert_eq!(dirs.get(UserDirectory::Music), Some("/mnt/big/Music"));
    assert_eq!(dirs.get(UserDirectory::Pictures), Some("/home/u/Pictures"));
    assert_eq!(dirs.get(UserDirectory::PublicShare), Some("/home/u/Public"));
    assert_eq!(dirs.get(UserDirectory::Templates), Some("/home/u/Templates"));
    assert_eq!(dirs.get(UserDirectory::Videos), Some("/home/u/Videos"));
}

fn one(line: &str, directory: UserDirectory) -> Option<String> {
    parse_user_dirs_file(line, "/home/u").get(directory).map(|p| p.to_string())
}

#[test]
fn test_parse_line_forms() {
    assert_eq!(one("  XDG_MUSIC_DIR  =  \"$HOME/Music\"  ", UserDirectory::Music), Some("/home/u/Music".to_string()));
    assert_eq!(one("XDG_MUSIC_DIR=\"$HOME/Music/\"", UserDirectory::Music), Some("/home/u/Music".to_string()));
    assert_eq!(one("XDG_MUSIC_DIR=\"$HOME//a/b//\"", UserDirectory::Music), Some("/home/u/a/b".to_string()));
    assert_eq!(one("XDG_MUSIC_DIR=\"$HOME\"", UserDirectory::Music), Some("/home/u".to_string()));
    assert_eq!(one("XDG_MUSIC_DIR=\"$HOME/\"", UserDirectory::Music), Some("/home/u".to_string()));
    assert_eq!(one("XDG_MUSIC_DIR=\"/\"", UserDirectory::Music), Some("/".to_string()));
    assert_eq!(one("XDG_MUSIC_DIR=\"///\"", UserDirectory::Music), Some("/".to_string()));
    assert_eq!(one("XDG_MUSIC_DIR=\"/srv/music//\"", UserDirectory::Music), Some("/srv/music".to_string()));
    // The closing quote may be missing, and what follows it is not read.
    assert_eq!(one("XDG_MUSIC_DIR=\"/srv/music", UserDirectory::Music), Some("/srv/music".to_string()));
    assert_eq!(one("XDG_MUSIC_DIR=\"/srv/music\" # mine", UserDirectory::Music), Some("/srv/music".to_string()));
    assert_eq!(one("XDG_MUSIC_DIR=\"$HOME/a b/ü\"\r", UserDirectory::Music), Some("/home/u/a b/ü".to_string()));
}

#[test]
fn test_lines_that_say_nothing() {
    for line in [
        "",
        "   ",
        "# XDG_MUSIC_DIR=\"/x\"",
        "XDG_MUSIC_DIR",
        "XDG_MUSIC_DIR \"/x\"",
        "XDG_MUSIC_DIR=/x",
        "XDG_MUSIC_DIR='/x'",
        "XDG_MUSIC_DIR=\"x\"",
        "XDG_MUSIC_DIR=\"\"",
        "XDG_MUSIC_DIR=\"$HOMEx\"",
        "XDG_MUSIC_DIR=\"$HOME",
        "XDG_MUSIC_DIR=\" /x\"",
        "XDG_SONGS_DIR=\"/x\"",
        "xdg_music_dir=\"/x\"",
        "export XDG_MUSIC_DIR=\"/x\"",
    ] {
        let dirs = parse_user_dirs_file(line, "/home/u");
        for directory in ALL {
            assert_eq!(dirs.get(directory), None, "for {:?}", line);
        }
    }
}

#[test]
fn test_last_line_counts() {
    let content = "XDG_MUSIC_DIR=\"/a\"\nXDG_VIDEOS_DIR=\"/v\"\nXDG_MUSIC_DIR=\"/b\"\nXDG_MUSIC_DIR=broken\n";
    let dirs = parse_user_dirs_file(content, "/home/u");
    assert_eq!(dirs.get(UserDirectory::Music), Some("/b"));
    assert_eq!(dirs.get(UserDirectory::Videos), Some("/v"));
    assert!(dirs.contains_key(UserDirectory::Music));
    assert!(!dirs.contains_key(UserDirectory::Desktop));
}

#[test]
fn test_home_with_trailing_slash_and_empty_home() {
    assert_eq!(parse_user_dirs_file("XDG_MUSIC_DIR=\"$HOME/Music\"", "/home/u/").get(UserDirectory::Music), Some("/home/u/Music"));
    assert_eq!(parse_user_dirs_file("XDG_MUSIC_DIR=\"$HOME/Music\"", "").get(UserDirectory::Music), Some("Music"));
    assert_eq!(parse_user_dirs_file("XDG_MUSIC_DIR=\"$HOME\"", "/").get(UserDirectory::Music), Some("/"));
}

#[test]
fn test_user_dirs_file_path() {
    assert_eq!(get_user_dirs_file_path(Some("/cfg"), Some("/home/u"), None), Some("/cfg/user-dirs.dirs".to_string()));
    assert_eq!(get_user_dirs_file_path(Some("relative"), Some("/home/u"), None), Some("/home/u/.config/user-dirs.dirs".to_string()));
    assert_eq!(get_user_dirs_file_path(None, Some("/home/u"), Some("/home/other")), Some("/home/u/.config/user-dirs.dirs".to_string()));
    assert_eq!(get_user_dirs_file_path(None, None, Some("/home/other")), Some("/home/other/.config/user-dirs.dirs".to_string()));
    assert_eq!(get_user_dirs_file_path(Some(""), None, None), None);
    assert_eq!(get_user_dirs_file_path(None, None, None), None);
}

#[test]
fn test_load_user_special_dirs() {
    let mut account = UserDirs::new();
    account.insert(UserDirectory::Documents, "/home/u/Docs");
    account.insert(UserDirectory::Music, "/home/u/Tunes");
    account.insert(UserDirectory::Desktop, "/home/u/Schreibtisch");

    let content = "XDG_MUSIC_DIR=\"$HOME/Music\"\n";
    let dirs = load_user_special_dirs(Some("/home/u"), Some(content), &account);
    assert_eq!(dirs.get(UserDirectory::Music), Some("/home/u/Music"));
    assert_eq!(dirs.get(UserDirectory::Documents), Some("/home/u/Docs"));
    // The desktop is not asked of the account.
    assert_eq!(dirs.get(UserDirectory::Desktop), Some("/home/u/Desktop"));
    assert_eq!(dirs.get(UserDirectory::Videos), None);

    let dirs = load_user_special_dirs(Some("/home/u"), None, &UserDirs::default());
    assert_eq!(dirs.get(UserDirectory::Desktop), Some("/home/u/Desktop"));
    for directory in &ALL[1..] {
        assert_eq!(dirs.get(*directory), None);
    }

    let dirs = load_user_special_dirs(Some("/home/u"), Some("XDG_DESKTOP_DIR=\"/d\""), &account);
    assert_eq!(dirs.get(UserDirectory::Desktop), Some("/d"));

    let dirs = load_user_special_dirs(None, Some(content), &account);
    for directory in ALL {
        assert_eq!(dirs.get(directory), None);
    }
}

#[test]
fn test_home_and_special_files() {
    let mut registry = BackendRegistry::new();
    registry.register(LocalBackend::new());
    let home = get_home_file(&registry, Some("/home/u")).ok().expect("the home directory");
    assert_eq!(home.uri(), "file:///home/u");
    let e = get_home_file(&registry, None).err().expect("no home directory");
    assert_eq!(*e.kind(), IOErrorEnum::NotFound);
    assert_eq!(e.message(), "Could not determine user home directory");

    let dirs = parse_user_dirs_file("XDG_DOCUMENTS_DIR=\"$HOME/Documents\"", "/home/u");
    let documents = get_user_special_file(&registry, &dirs, UserDirectory::Documents).ok().expect("found or not");
    assert_eq!(documents.map(|f| f.uri()), Some("file:///home/u/Documents".to_string()));
    assert!(get_user_special_file(&registry, &dirs, UserDirectory::Music).ok().expect("found or not").is_none());

    let empty: BackendRegistry<LocalBackend> = BackendRegistry::new();
    let e = get_home_file(&empty, Some("/home/u")).err().expect("no backend");
    assert_eq!(*e.kind(), IOErrorEnum::NotSupported);
    let e = get_user_special_file(&empty, &dirs, UserDirectory::Documents).err().expect("no backend");
    assert_eq!(*e.kind(), IOErrorEnum::NotSupported);
    assert!(get_user_special_file(&empty, &dirs, UserDirectory::Music).ok().expect("nothing to resolve").is_none());
}

#[test]
fn test_icon_names() {
    assert_eq!(get_directory_icon_name(UserDirectory::Desktop, false), "user-desktop");
    assert_eq!(get_directory_icon_name(UserDirectory::Desktop, true), "user-desktop-symbolic");
    assert_eq!(get_directory_icon_name(UserDirectory::Documents, false), "folder-documents");
    assert_eq!(get_directory_icon_name(UserDirectory::Documents, true), "folder-documents-symbolic");
    assert_eq!(get_directory_icon_name(UserDirectory::Download, false), "folder-download");
    assert_eq!(get_directory_icon_name(UserDirectory::Download, true), "folder-download-symbolic");
    assert_eq!(get_directory_icon_name(UserDirectory::Music, false), "folder-music");
    assert_eq!(get_directory_icon_name(UserDirectory::Music, true), "folder-music-symbolic");
    assert_eq!(get_directory_icon_name(UserDirectory::Pictures, false), "folder-pictures");
    assert_eq!(get_directory_icon_name(UserDirectory::Pictures, true), "folder-pictures-symbolic");
    assert_eq!(get_directory_icon_name(UserDirectory::PublicShare, false), "folder-publicshare");
    assert_eq!(get_directory_icon_name(UserDirectory::PublicShare, true), "folder-publicshare-symbolic");
    assert_eq!(get_directory_icon_name(UserDirectory::Templates, false), "folder-templates");
    assert_eq!(get_directory_icon_name(UserDirectory::Templates, true), "folder-templates-symbolic");
    assert_eq!(get_directory_icon_name(UserDirectory::Videos, false), "folder-videos");
    assert_eq!(get_directory_icon_name(UserDirectory::Videos, true), "folder-videos-symbolic");
    assert_eq!(get_home_icon_name(false), "user-home");
    assert_eq!(get_home_icon_name(true), "user-home-symbolic");
}
