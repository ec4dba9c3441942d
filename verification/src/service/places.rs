//! The user's directories: the home directory and the special directories
//! that the file `user-dirs.dirs` names.

use crate::backend::{normalized, scheme_of, Backend, BackendRegistry};
use crate::error::{IOErrorEnum, NpioError, NpioResult};
use crate::file::File;
use crate::path;
use crate::text::{
    append_str, before, before_char, from_chars, has_prefix, pieces, slice, split, starts_with,
    to_chars, trim, trim_end, trim_end_of, trim_start, trim_start_of, views, Sep,
};
use vstd::prelude::*;

verus! {

/// The special directories of a user.
#[derive(Debug, Clone, Copy, PartialEq, Eq, Hash, Structural)]
pub enum UserDirectory {
    /// The desktop.
    Desktop,
    /// Documents.
    Documents,
    /// Downloads.
    Download,
    /// Music.
    Music,
    /// Pictures.
    Pictures,
    /// What the user shares.
    PublicShare,
    /// Templates.
    Templates,
    /// Videos.
    Videos,
}

/// The key under which `user-dirs.dirs` names a directory.
pub open spec fn directory_key(directory: UserDirectory) -> Seq<char> {
    match directory {
        UserDirectory::Desktop => "XDG_DESKTOP_DIR"@,
        UserDirectory::Documents => "XDG_DOCUMENTS_DIR"@,
        UserDirectory::Download => "XDG_DOWNLOAD_DIR"@,
        UserDirectory::Music => "XDG_MUSIC_DIR"@,
        UserDirectory::Pictures => "XDG_PICTURES_DIR"@,
        UserDirectory::PublicShare => "XDG_PUBLICSHARE_DIR"@,
        UserDirectory::Templates => "XDG_TEMPLATES_DIR"@,
        UserDirectory::Videos => "XDG_VIDEOS_DIR"@,
    }
}

/// The directory that a line names: the first whose key opens the line.
pub open spec fn line_directory(line: Seq<char>) -> Option<UserDirectory> {
    if starts_with(line, directory_key(UserDirectory::Desktop)) {
        Some(UserDirectory::Desktop)
    } else if starts_with(line, directory_key(UserDirectory::Documents)) {
        Some(UserDirectory::Documents)
    } else if starts_with(line, directory_key(UserDirectory::Download)) {
        Some(UserDirectory::Download)
    } else if starts_with(line, directory_key(UserDirectory::Music)) {
        Some(UserDirectory::Music)
    } else if starts_with(line, directory_key(UserDirectory::Pictures)) {
        Some(UserDirectory::Pictures)
    } else if starts_with(line, directory_key(UserDirectory::PublicShare)) {
        Some(UserDirectory::PublicShare)
    } else if starts_with(line, directory_key(UserDirectory::Templates)) {
        Some(UserDirectory::Templates)
    } else if starts_with(line, directory_key(UserDirectory::Videos)) {
        Some(UserDirectory::Videos)
    } else {
        None
    }
}

/// The path that a value under the home directory stands for: the value
/// without its leading slashes, put under the home directory, without
/// trailing slashes.
pub open spec fn relative_value(value: Seq<char>, home: Seq<char>) -> Seq<char> {
    let joined = path::child(home, trim_start(value, Sep::Slash));
    let trimmed = trim_end(joined, Sep::Slash);
    if trimmed.len() == 0 {
        joined
    } else {
        trimmed
    }
}

/// The path that an absolute value stands for: the value without trailing
/// slashes, or `/` where nothing else is left.
pub open spec fn absolute_value(value: Seq<char>) -> Seq<char> {
    let trimmed = trim_end(value, Sep::Slash);
    if trimmed.len() == 0 {
        path::slash()
    } else {
        trimmed
    }
}

/// The path that stands after the opening quote of a line: up to the next
/// quote; after `$HOME` a path under the home directory, after `/` an
/// absolute one, and nothing else.
pub open spec fn quoted_value(rest: Seq<char>, home: Seq<char>) -> Option<Seq<char>> {
    if starts_with(rest, "$HOME"@) {
        let tail = rest.skip("$HOME"@.len() as int);
        if tail.len() > 0 && (tail[0] == '/' || tail[0] == '"') {
            Some(relative_value(before(tail, '"'), home))
        } else {
            None
        }
    } else if rest.len() > 0 && rest[0] == '/' {
        Some(absolute_value(before(rest, '"')))
    } else {
        None
    }
}

/// What follows the key of a line: after white space an `=`, after white
/// space a `"`, then the value.
pub open spec fn assigned_value(after_key: Seq<char>, home: Seq<char>) -> Option<Seq<char>> {
    let a = trim_start(after_key, Sep::Space);
    if a.len() > 0 && a[0] == '=' {
        let b = trim_start(a.skip(1), Sep::Space);
        if b.len() > 0 && b[0] == '"' {
            quoted_value(b.skip(1), home)
        } else {
            None
        }
    } else {
        None
    }
}

/// What a line of `user-dirs.dirs` says: nothing if it is empty, a comment,
/// or not of the form `KEY="value"`.
pub open spec fn user_dir_line(raw: Seq<char>, home: Seq<char>) -> Option<
    (UserDirectory, Seq<char>),
> {
    let line = trim(raw, Sep::Space);
    if line.len() == 0 || line[0] == '#' {
        None
    } else {
        match line_directory(line) {
            Some(directory) => match assigned_value(
                line.skip(directory_key(directory).len() as int),
                home,
            ) {
                Some(p) => Some((directory, p)),
                None => None,
            },
            None => None,
        }
    }
}

/// The path that the lines give for a directory: what the last line that
/// names it says.
pub open spec fn lines_lookup(lines: Seq<Seq<char>>, home: Seq<char>, directory: UserDirectory)
    -> Option<Seq<char>>
    decreases lines.len(),
{
    if lines.len() == 0 {
        None
    } else {
        match user_dir_line(lines.last(), home) {
            Some((d, p)) => if d == directory {
                Some(p)
            } else {
                lines_lookup(lines.drop_last(), home, directory)
            },
            None => lines_lookup(lines.drop_last(), home, directory),
        }
    }
}

/// The paths of the special directories of a user, as far as they are
/// known.
#[derive(Debug)]
pub struct UserDirs {
    desktop: Option<String>,
    documents: Option<String>,
    download: Option<String>,
    music: Option<String>,
    pictures: Option<String>,
    public_share: Option<String>,
    templates: Option<String>,
    videos: Option<String>,
}

impl UserDirs {
    /// The path of a directory, if it is known.
    pub closed spec fn spec_get(&self, directory: UserDirectory) -> Option<Seq<char>> {
        crate::text::opt_view(
            match directory {
                UserDirectory::Desktop => self.desktop,
                UserDirectory::Documents => self.documents,
                UserDirectory::Download => self.download,
                UserDirectory::Music => self.music,
                UserDirectory::Pictures => self.pictures,
                UserDirectory::PublicShare => self.public_share,
                UserDirectory::Templates => self.templates,
                UserDirectory::Videos => self.videos,
            },
        )
    }

    /// No directory is known.
    pub fn new() -> (r: Self)
        ensures
            forall|d: UserDirectory| r.spec_get(d).is_none(),
    {
        UserDirs {
            desktop: None,
            documents: None,
            download: None,
            music: None,
            pictures: None,
            public_share: None,
            templates: None,
            videos: None,
        }
    }

    /// The path of a directory, if it is known.
    pub fn get(&self, directory: UserDirectory) -> (r: Option<&str>)
        ensures
            match r {
                Some(p) => self.spec_get(directory) == Some(p@),
                None => self.spec_get(directory).is_none(),
            },
    {
        let slot = match directory {
            UserDirectory::Desktop => &self.desktop,
            UserDirectory::Documents => &self.documents,
            UserDirectory::Download => &self.download,
            UserDirectory::Music => &self.music,
            UserDirectory::Pictures => &self.pictures,
            UserDirectory::PublicShare => &self.public_share,
            UserDirectory::Templates => &self.templates,
            UserDirectory::Videos => &self.videos,
        };
        match slot {
            Some(p) => Some(p.as_str()),
            None => None,
        }
    }

    /// Whether the path of a directory is known.
    pub fn contains_key(&self, directory: UserDirectory) -> (r: bool)
        ensures
            r == self.spec_get(directory).is_some(),
    {
        self.get(directory).is_some()
    }

    /// Sets the path of a directory, in place of what was known of it.
    pub fn insert(&mut self, directory: UserDirectory, p: &str)
        ensures
            final(self).spec_get(directory) == Some(p@),
            forall|d: UserDirectory|
                d != directory ==> final(self).spec_get(d) == old(self).spec_get(d),
    {
        let value = Some(p.to_owned());
        match directory {
            UserDirectory::Desktop => {
                self.desktop = value;
            },
            UserDirectory::Documents => {
                self.documents = value;
            },
            UserDirectory::Download => {
                self.download = value;
            },
            UserDirectory::Music => {
                self.music = value;
            },
            UserDirectory::Pictures => {
                self.pictures = value;
            },
            UserDirectory::PublicShare => {
                self.public_share = value;
            },
            UserDirectory::Templates => {
                self.templates = value;
            },
            UserDirectory::Videos => {
                self.videos = value;
            },
        }
    }
}

impl Default for UserDirs {
    fn default() -> (r: Self)
        ensures
            forall|d: UserDirectory| r.spec_get(d).is_none(),
    {
        UserDirs::new()
    }
}

/// The directory that a line names.
fn find_directory(line: &Vec<char>) -> (r: Option<(UserDirectory, usize)>)
    ensures
        match r {
            Some((d, n)) => line_directory(line@) == Some(d) && n == directory_key(d).len() && n
                <= line@.len(),
            None => line_directory(line@).is_none(),
        },
{
    let k0 = to_chars("XDG_DESKTOP_DIR");
    let k1 = to_chars("XDG_DOCUMENTS_DIR");
    let k2 = to_chars("XDG_DOWNLOAD_DIR");
    let k3 = to_chars("XDG_MUSIC_DIR");
    let k4 = to_chars("XDG_PICTURES_DIR");
    let k5 = to_chars("XDG_PUBLICSHARE_DIR");
    let k6 = to_chars("XDG_TEMPLATES_DIR");
    let k7 = to_chars("XDG_VIDEOS_DIR");
    if has_prefix(line, &k0) {
        Some((UserDirectory::Desktop, k0.len()))
    } else if has_prefix(line, &k1) {
        Some((UserDirectory::Documents, k1.len()))
    } else if has_prefix(line, &k2) {
        Some((UserDirectory::Download, k2.len()))
    } else if has_prefix(line, &k3) {
        Some((UserDirectory::Music, k3.len()))
    } else if has_prefix(line, &k4) {
        Some((UserDirectory::Pictures, k4.len()))
    } else if has_prefix(line, &k5) {
        Some((UserDirectory::PublicShare, k5.len()))
    } else if has_prefix(line, &k6) {
        Some((UserDirectory::Templates, k6.len()))
    } else if has_prefix(line, &k7) {
        Some((UserDirectory::Videos, k7.len()))
    } else {
        None
    }
}

/// The path that stands after the opening quote of a line.
fn read_quoted(rest: &Vec<char>, home: &Vec<char>) -> (r: Option<Vec<char>>)
    ensures
        match r {
            Some(p) => quoted_value(rest@, home@) == Some(p@),
            None => quoted_value(rest@, home@).is_none(),
        },
{
    let marker = to_chars("$HOME");
    if has_prefix(rest, &marker) {
        let tail = slice(rest, marker.len(), rest.len());
        if tail.len() > 0 && (tail[0] == '/' || tail[0] == '"') {
            let value = before_char(&tail, '"');
            let relative = trim_start_of(&value, Sep::Slash);
            let joined = path::path_child(home, &relative);
            let trimmed = trim_end_of(&joined, Sep::Slash);
            if trimmed.len() == 0 {
                Some(joined)
            } else {
                Some(trimmed)
            }
        } else {
            None
        }
    } else if rest.len() > 0 && rest[0] == '/' {
        let value = before_char(rest, '"');
        let trimmed = trim_end_of(&value, Sep::Slash);
        if trimmed.len() == 0 {
            let mut root: Vec<char> = Vec::new();
            root.push('/');
            assert(root@ =~= path::slash());
            Some(root)
        } else {
            Some(trimmed)
        }
    } else {
        None
    }
}

/// What a line of `user-dirs.dirs` says.
fn parse_user_dir_line(raw: &Vec<char>, home: &Vec<char>) -> (r: Option<(UserDirectory, Vec<char>)>)
    ensures
        match r {
            Some((d, p)) => user_dir_line(raw@, home@) == Some((d, p@)),
            None => user_dir_line(raw@, home@).is_none(),
        },
{
    let line = trim_end_of(&trim_start_of(raw, Sep::Space), Sep::Space);
    if line.len() == 0 || line[0] == '#' {
        return None;
    }
    match find_directory(&line) {
        None => None,
        Some((directory, n)) => {
            let after_key = slice(&line, n, line.len());
            let a = trim_start_of(&after_key, Sep::Space);
            if !(a.len() > 0 && a[0] == '=') {
                return None;
            }
            let b = trim_start_of(&slice(&a, 1, a.len()), Sep::Space);
            if !(b.len() > 0 && b[0] == '"') {
                return None;
            }
            let rest = slice(&b, 1, b.len());
            match read_quoted(&rest, home) {
                Some(p) => Some((directory, p)),
                None => None,
            }
        },
    }
}

/// Reads the text of `user-dirs.dirs`. Each line of the form
/// `XDG_<NAME>_DIR="$HOME/<path>"` or `XDG_<NAME>_DIR="/<path>"` names a
/// directory; other lines say nothing. Where several lines name one
/// directory, the last one counts.
pub fn parse_user_dirs_file(content: &str, home_dir: &str) -> (r: UserDirs)
    ensures
        forall|d: UserDirectory|
            r.spec_get(d) == lines_lookup(pieces(content@, Sep::Line, true), home_dir@, d),
{
    let chars = to_chars(content);
    let home = to_chars(home_dir);
    let lines = split(&chars, Sep::Line, true);
    let ghost all = views(lines@);
    let mut dirs = UserDirs::new();
    let mut i: usize = 0;
    while i < lines.len()
        invariant
            i <= lines.len(),
            all == views(lines@),
            home@ == home_dir@,
            forall|d: UserDirectory|
                dirs.spec_get(d) == lines_lookup(all.take(i as int), home_dir@, d),
        decreases lines.len() - i,
    {
        proof {
            assert(all.take(i + 1).drop_last() == all.take(i as int));
            assert(all.take(i + 1).last() == lines@[i as int]@);
        }
        match parse_user_dir_line(&lines[i], &home) {
            Some((directory, p)) => {
                let text = from_chars(&p);
                dirs.insert(directory, text.as_str());
            },
            None => {},
        }
        i = i + 1;
    }
    assert(all.take(lines.len() as int) == all);
    dirs
}

/// Where `user-dirs.dirs` lies: under the configuration home if that is
/// set to an absolute path; else under `.config` in the home directory that
/// the environment names; else under `.config` in the home directory of the
/// user's account; else nowhere.
pub open spec fn user_dirs_file_of(
    config_home: Option<Seq<char>>,
    home: Option<Seq<char>>,
    account_home: Option<Seq<char>>,
) -> Option<Seq<char>> {
    if config_home is Some && path::is_absolute(config_home->Some_0) {
        Some(path::child(config_home->Some_0, "user-dirs.dirs"@))
    } else if home is Some {
        Some(path::child(path::child(home->Some_0, ".config"@), "user-dirs.dirs"@))
    } else if account_home is Some {
        Some(path::child(path::child(account_home->Some_0, ".config"@), "user-dirs.dirs"@))
    } else {
        None
    }
}

/// What an optional text holds.
pub open spec fn str_opt(o: Option<&str>) -> Option<Seq<char>> {
    match o {
        Some(s) => Some(s@),
        None => None,
    }
}

/// `.config/user-dirs.dirs` under `home`.
fn config_file_under(home: &str) -> (r: String)
    ensures
        r@ == path::child(path::child(home@, ".config"@), "user-dirs.dirs"@),
{
    let config = path::path_child(&to_chars(home), &to_chars(".config"));
    from_chars(&path::path_child(&config, &to_chars("user-dirs.dirs")))
}

/// Where `user-dirs.dirs` lies.
pub fn get_user_dirs_file_path(
    config_home: Option<&str>,
    home: Option<&str>,
    account_home: Option<&str>,
) -> (r: Option<String>)
    ensures
        crate::text::opt_view(r) == user_dirs_file_of(
            str_opt(config_home),
            str_opt(home),
            str_opt(account_home),
        ),
{
    match config_home {
        Some(c) => {
            let chars = to_chars(c);
            if path::path_is_absolute(&chars) {
                return Some(from_chars(&path::path_child(&chars, &to_chars("user-dirs.dirs"))));
            }
        },
        None => {},
    }
    match home {
        Some(h) => {
            return Some(config_file_under(h));
        },
        None => {},
    }
    match account_home {
        Some(h) => Some(config_file_under(h)),
        None => None,
    }
}

/// The path of a special directory: what `user-dirs.dirs` says; else, for
/// the desktop, `Desktop` under the home directory; else what the account
/// says.
pub open spec fn special_dir_of(
    home: Seq<char>,
    lines: Option<Seq<Seq<char>>>,
    account: UserDirs,
    directory: UserDirectory,
) -> Option<Seq<char>> {
    let read = match lines {
        Some(l) => lines_lookup(l, home, directory),
        None => None,
    };
    if read is Some {
        read
    } else if directory == UserDirectory::Desktop {
        Some(path::child(home, "Desktop"@))
    } else {
        account.spec_get(directory)
    }
}

/// Fills `dirs` with what `account` knows of `directory`, unless `dirs`
/// knows it already.
fn fill_from(dirs: &mut UserDirs, account: &UserDirs, directory: UserDirectory)
    ensures
        final(dirs).spec_get(directory) == if old(dirs).spec_get(directory) is Some {
            old(dirs).spec_get(directory)
        } else {
            account.spec_get(directory)
        },
        forall|d: UserDirectory| d != directory ==> final(dirs).spec_get(d) == old(dirs).spec_get(d),
{
    if !dirs.contains_key(directory) {
        match account.get(directory) {
            Some(p) => {
                dirs.insert(directory, p);
            },
            None => {},
        }
    }
}

/// The special directories of the user. Without a home directory none is
/// known. Else each directory is where `user-dirs.dirs` puts it, if its text
/// could be read and names it; the desktop is else `Desktop` under the home
/// directory; any other is else where the user's account puts it.
pub fn load_user_special_dirs(home: Option<&str>, content: Option<&str>, account: &UserDirs) -> (r:
    UserDirs)
    ensures
        home is None ==> forall|d: UserDirectory| r.spec_get(d).is_none(),
        home matches Some(h) ==> forall|d: UserDirectory|
            r.spec_get(d) == special_dir_of(
                h@,
                match content {
                    Some(c) => Some(pieces(c@, Sep::Line, true)),
                    None => None,
                },
                *account,
                d,
            ),
{
    let h = match home {
        Some(h) => h,
        None => {
            return UserDirs::new();
        },
    };
    let mut dirs = match content {
        Some(c) => parse_user_dirs_file(c, h),
        None => UserDirs::new(),
    };
    if !dirs.contains_key(UserDirectory::Desktop) {
        let desktop = path::path_child(&to_chars(h), &to_chars("Desktop"));
        dirs.insert(UserDirectory::Desktop, from_chars(&desktop).as_str());
    }
    fill_from(&mut dirs, account, UserDirectory::Documents);
    fill_from(&mut dirs, account, UserDirectory::Download);
    fill_from(&mut dirs, account, UserDirectory::Music);
    fill_from(&mut dirs, account, UserDirectory::Pictures);
    fill_from(&mut dirs, account, UserDirectory::PublicShare);
    fill_from(&mut dirs, account, UserDirectory::Templates);
    fill_from(&mut dirs, account, UserDirectory::Videos);
    dirs
}

/// The URI of a local path.
fn local_uri(p: &str) -> (r: String)
    ensures
        r@ == "file://"@ + p@,
{
    let mut out: Vec<char> = Vec::new();
    append_str(&mut out, "file://");
    append_str(&mut out, p);
    from_chars(&out)
}

/// The handle of the user's home directory. Fails with `NotFound` where no
/// home directory is known, and else as the registry does for the URI of
/// the directory.
pub fn get_home_file<B: Backend>(registry: &BackendRegistry<B>, home: Option<&str>) -> (r:
    NpioResult<B::Handle>)
    ensures
        home is None ==> (r matches Err(e) && e.spec_kind() == IOErrorEnum::NotFound),
        home matches Some(h) ==> {
            let uri = "file://"@ + h@;
            &&& r is Ok <==> (registry.backend_for(scheme_of(uri)) matches Some(b) && b.accepts(
                normalized(uri),
            ))
            &&& r matches Ok(handle) ==> handle.spec_uri() == normalized(uri)
        },
{
    match home {
        None => Err(
            NpioError::new(IOErrorEnum::NotFound, "Could not determine user home directory"),
        ),
        Some(h) => {
            let uri = local_uri(h);
            registry.get_file_for_uri(uri.as_str())
        },
    }
}

/// The handle of a special directory of the user: none where the
/// directory is not known; else what the registry gives for the URI of the
/// directory.
pub fn get_user_special_file<B: Backend>(
    registry: &BackendRegistry<B>,
    dirs: &UserDirs,
    directory: UserDirectory,
) -> (r: NpioResult<Option<B::Handle>>)
    ensures
        dirs.spec_get(directory) is None ==> r matches Ok(None),
        dirs.spec_get(directory) matches Some(p) ==> {
            let uri = "file://"@ + p;
            &&& r is Ok <==> (registry.backend_for(scheme_of(uri)) matches Some(b) && b.accepts(
                normalized(uri),
            ))
            &&& r matches Ok(found) ==> found matches Some(handle) && handle.spec_uri()
                == normalized(uri)
        },
{
    match dirs.get(directory) {
        Some(p) => {
            let uri = local_uri(p);
            match registry.get_file_for_uri(uri.as_str()) {
                Ok(handle) => Ok(Some(handle)),
                Err(e) => Err(e),
            }
        },
        None => Ok(None),
    }
}

/// The name of the icon of a special directory.
pub open spec fn directory_icon(directory: UserDirectory, use_symbolic: bool) -> Seq<char> {
    let plain = match directory {
        UserDirectory::Desktop => "user-desktop"@,
        UserDirectory::Documents => "folder-documents"@,
        UserDirectory::Download => "folder-download"@,
        UserDirectory::Music => "folder-music"@,
        UserDirectory::Pictures => "folder-pictures"@,
        UserDirectory::PublicShare => "folder-publicshare"@,
        UserDirectory::Templates => "folder-templates"@,
        UserDirectory::Videos => "folder-videos"@,
    };
    if use_symbolic {
        plain + "-symbolic"@
    } else {
        plain
    }
}

/// The name of the icon of a special directory; with `use_symbolic`, of
/// its symbolic icon.
pub fn get_directory_icon_name(directory: UserDirectory, use_symbolic: bool) -> (r: &'static str)
    ensures
        r@ == directory_icon(directory, use_symbolic),
{
    proof {
        reveal_strlit("-symbolic");
        reveal_strlit("user-desktop");
        reveal_strlit("folder-documents");
        reveal_strlit("folder-download");
        reveal_strlit("folder-music");
        reveal_strlit("folder-pictures");
        reveal_strlit("folder-publicshare");
        reveal_strlit("folder-templates");
        reveal_strlit("folder-videos");
        reveal_strlit("user-desktop-symbolic");
        reveal_strlit("folder-documents-symbolic");
        reveal_strlit("folder-download-symbolic");
        reveal_strlit("folder-music-symbolic");
        reveal_strlit("folder-pictures-symbolic");
        reveal_strlit("folder-publicshare-symbolic");
        reveal_strlit("folder-templates-symbolic");
        reveal_strlit("folder-videos-symbolic");
    }
    let r = match directory {
        UserDirectory::Desktop => {
            if use_symbolic {
                "user-desktop-symbolic"
            } else {
                "user-desktop"
            }
        },
        UserDirectory::Documents => {
            if use_symbolic {
                "folder-documents-symbolic"
            } else {
                "folder-documents"
            }
        },
        UserDirectory::Download => {
            if use_symbolic {
                "folder-download-symbolic"
            } else {
                "folder-download"
            }
        },
        UserDirectory::Music => {
            if use_symbolic {
                "folder-music-symbolic"
            } else {
                "folder-music"
            }
        },
        UserDirectory::Pictures => {
            if use_symbolic {
                "folder-pictures-symbolic"
            } else {
                "folder-pictures"
            }
        },
        UserDirectory::PublicShare => {
            if use_symbolic {
                "folder-publicshare-symbolic"
            } else {
                "folder-publicshare"
            }
        },
        UserDirectory::Templates => {
            if use_symbolic {
                "folder-templates-symbolic"
            } else {
                "folder-templates"
            }
        },
        UserDirectory::Videos => {
            if use_symbolic {
                "folder-videos-symbolic"
            } else {
                "folder-videos"
            }
        },
    };
    assert(r@ =~= directory_icon(directory, use_symbolic));
    r
}

/// The name of the icon of the home directory; with `use_symbolic`, of its
/// symbolic icon.
pub fn get_home_icon_name(use_symbolic: bool) -> (r: &'static str)
    ensures
        r@ == if use_symbolic {
            "user-home-symbolic"@
        } else {
            "user-home"@
        },
{
    if use_symbolic {
        "user-home-symbolic"
    } else {
        "user-home"
    }
}

} // verus!
