//! The cache of thumbnails: where a thumbnail lies, what it is called, and
//! when it still counts.

use crate::error::{IOErrorEnum, NpioError, NpioResult};
use crate::path;
use crate::text::{append_str, from_chars, to_chars};
use vstd::prelude::*;
use vstd::string::StringSliceAdditionalSpecFns;

verus! {

/// The sizes in which thumbnails are kept.
#[derive(Debug, Clone, Copy, PartialEq, Eq, Structural)]
pub enum ThumbnailSize {
    /// 128 by 128.
    Normal,
    /// 256 by 256.
    Large,
    /// 512 by 512.
    XLarge,
    /// 1024 by 1024.
    XXLarge,
}

impl ThumbnailSize {
    /// The edge of the size, in pixels.
    pub open spec fn edge(self) -> u32 {
        match self {
            ThumbnailSize::Normal => 128,
            ThumbnailSize::Large => 256,
            ThumbnailSize::XLarge => 512,
            ThumbnailSize::XXLarge => 1024,
        }
    }

    /// The name of the directory of the size.
    pub open spec fn spec_directory_name(self) -> Seq<char> {
        match self {
            ThumbnailSize::Normal => "normal"@,
            ThumbnailSize::Large => "large"@,
            ThumbnailSize::XLarge => "x-large"@,
            ThumbnailSize::XXLarge => "xx-large"@,
        }
    }

    /// The name of the size, as it is written in the keys of caches.
    pub open spec fn spec_name(self) -> Seq<char> {
        match self {
            ThumbnailSize::Normal => "Normal"@,
            ThumbnailSize::Large => "Large"@,
            ThumbnailSize::XLarge => "XLarge"@,
            ThumbnailSize::XXLarge => "XXLarge"@,
        }
    }

    /// Width and height of the size, in pixels.
    pub fn dimensions(&self) -> (r: (u32, u32))
        ensures
            r == (self.edge(), self.edge()),
    {
        match self {
            ThumbnailSize::Normal => (128, 128),
            ThumbnailSize::Large => (256, 256),
            ThumbnailSize::XLarge => (512, 512),
            ThumbnailSize::XXLarge => (1024, 1024),
        }
    }

    /// The name of the directory of the size.
    pub fn directory_name(&self) -> (r: &'static str)
        ensures
            r@ == self.spec_directory_name(),
    {
        match self {
            ThumbnailSize::Normal => "normal",
            ThumbnailSize::Large => "large",
            ThumbnailSize::XLarge => "x-large",
            ThumbnailSize::XXLarge => "xx-large",
        }
    }

    /// The name of the size.
    pub fn name(&self) -> (r: &'static str)
        ensures
            r@ == self.spec_name(),
    {
        match self {
            ThumbnailSize::Normal => "Normal",
            ThumbnailSize::Large => "Large",
            ThumbnailSize::XLarge => "XLarge",
            ThumbnailSize::XXLarge => "XXLarge",
        }
    }
}

/// The MD5 digest of a run of bytes.
pub uninterp spec fn md5_of(data: Seq<u8>) -> Seq<u8>;

/// `md5::compute` returns the MD5 digest of the data: sixteen bytes that
/// depend on the data alone.
#[verifier::external_body]
fn md5_digest(data: &Vec<u8>) -> (r: Vec<u8>)
    ensures
        r@ == md5_of(data@),
        r@.len() == 16,
{
    md5::compute(data).0.to_vec()
}

/// The character that writes the hexadecimal digit `d` in lower case.
pub open spec fn hex_lower(d: int) -> char {
    if d < 10 {
        (0x30 + d) as char
    } else {
        (0x57 + d) as char
    }
}

/// The bytes in hexadecimal, two digits in lower case for each.
pub open spec fn hex_text(bytes: Seq<u8>) -> Seq<char>
    decreases bytes.len(),
{
    if bytes.len() == 0 {
        Seq::empty()
    } else {
        hex_text(bytes.drop_last()).push(hex_lower(bytes.last() as int / 16)).push(
            hex_lower(bytes.last() as int % 16),
        )
    }
}

/// The hexadecimal text of `n` bytes has `2 * n` characters.
pub proof fn lemma_hex_text_len(bytes: Seq<u8>)
    ensures
        hex_text(bytes).len() == 2 * bytes.len(),
    decreases bytes.len(),
{
    if bytes.len() > 0 {
        lemma_hex_text_len(bytes.drop_last());
    }
}

/// The character that writes the hexadecimal digit `d` in lower case.
fn hex_digit(d: u8) -> (r: char)
    requires
        d < 16,
    ensures
        r == hex_lower(d as int),
{
    if d < 10 {
        (0x30 + d) as char
    } else {
        (0x57 + d) as char
    }
}

/// The bytes in hexadecimal.
pub fn to_hex(bytes: &Vec<u8>) -> (r: Vec<char>)
    ensures
        r@ == hex_text(bytes@),
{
    let mut out: Vec<char> = Vec::new();
    let mut i: usize = 0;
    while i < bytes.len()
        invariant
            i <= bytes.len(),
            out@ == hex_text(bytes@.take(i as int)),
        decreases bytes.len() - i,
    {
        let b = bytes[i];
        proof {
            assert(bytes@.take(i + 1).drop_last() == bytes@.take(i as int));
            assert(bytes@.take(i + 1).last() == b);
        }
        out.push(hex_digit(b / 16));
        out.push(hex_digit(b % 16));
        i = i + 1;
    }
    assert(bytes@.take(bytes.len() as int) == bytes@);
    out
}

/// The name of the thumbnail of a URI: the MD5 digest of the bytes of the
/// URI in hexadecimal, and `.png`.
pub open spec fn thumbnail_name(uri: Seq<char>) -> Seq<char> {
    hex_text(md5_of(vstd::utf8::encode_utf8(uri))) + ".png"@
}

/// The directory of the thumbnails of a size under a cache home.
pub open spec fn cache_dir_under(cache_home: Seq<char>, size: ThumbnailSize) -> Seq<char> {
    path::child(path::child(cache_home, "thumbnails"@), size.spec_directory_name())
}

/// The cache home: what the environment names; else what the platform
/// gives; else `.cache` under the home directory; else none.
pub open spec fn cache_home_of(
    xdg_cache_home: Option<Seq<char>>,
    platform_cache: Option<Seq<char>>,
    home: Option<Seq<char>>,
) -> Option<Seq<char>> {
    match xdg_cache_home {
        Some(c) => Some(c),
        None => match platform_cache {
            Some(c) => Some(c),
            None => match home {
                Some(h) => Some(path::child(h, ".cache"@)),
                None => None,
            },
        },
    }
}

/// Where the cache of thumbnails is looked for.
#[derive(Debug)]
pub struct CacheRoots {
    /// The cache home that the environment names.
    pub xdg_cache_home: Option<String>,
    /// The cache directory that the platform gives.
    pub platform_cache: Option<String>,
    /// The home directory.
    pub home: Option<String>,
}

impl CacheRoots {
    /// The cache home that these roots lead to.
    pub open spec fn cache_home(&self) -> Option<Seq<char>> {
        cache_home_of(
            crate::text::opt_view(self.xdg_cache_home),
            crate::text::opt_view(self.platform_cache),
            crate::text::opt_view(self.home),
        )
    }
}

/// A thumbnail counts when it is there and was changed no earlier than its
/// source.
pub open spec fn still_valid(thumbnail_mtime: Option<u64>, file_mtime: u64) -> bool {
    match thumbnail_mtime {
        Some(t) => t >= file_mtime,
        None => false,
    }
}

/// The cache of thumbnails.
#[derive(Debug, Clone, Copy, PartialEq, Eq, Structural)]
pub struct ThumbnailBackend {}

impl ThumbnailBackend {
    /// The cache of thumbnails.
    pub fn new() -> (r: Self) {
        ThumbnailBackend {  }
    }

    /// The directory of the thumbnails of a size. Fails with `Failed`
    /// exactly when no cache home can be told.
    pub fn get_cache_dir(roots: &CacheRoots, size: ThumbnailSize) -> (r: NpioResult<String>)
        ensures
            match r {
                Ok(dir) => roots.cache_home() matches Some(home) && dir@ == cache_dir_under(
                    home,
                    size,
                ),
                Err(e) => roots.cache_home() is None && e.spec_kind() == IOErrorEnum::Failed,
            },
    {
        let home: Vec<char> = match &roots.xdg_cache_home {
            Some(c) => to_chars(c.as_str()),
            None => match &roots.platform_cache {
                Some(c) => to_chars(c.as_str()),
                None => match &roots.home {
                    Some(h) => path::path_child(&to_chars(h.as_str()), &to_chars(".cache")),
                    None => {
                        return Err(
                            NpioError::new(
                                IOErrorEnum::Failed,
                                "Could not determine XDG_CACHE_HOME",
                            ),
                        );
                    },
                },
            },
        };
        let thumbnails = path::path_child(&home, &to_chars("thumbnails"));
        let dir = path::path_child(&thumbnails, &to_chars(size.directory_name()));
        Ok(from_chars(&dir))
    }

    /// The name of the thumbnail of a URI: the MD5 digest of the bytes of
    /// the URI as they stand, in lower-case hexadecimal, and `.png`.
    pub fn uri_to_thumbnail_name(uri: &str) -> (r: String)
        ensures
            r@ == thumbnail_name(uri@),
            r@.len() == 36,
    {
        let bytes = uri.as_bytes_vec();
        let digest = md5_digest(&bytes);
        let mut out = to_hex(&digest);
        proof {
            lemma_hex_text_len(digest@);
            reveal_strlit(".png");
        }
        append_str(&mut out, ".png");
        from_chars(&out)
    }

    /// Where the thumbnail of a URI lies, in a size. Fails with `Failed`
    /// exactly when no cache home can be told.
    pub fn get_thumbnail_path(roots: &CacheRoots, uri: &str, size: ThumbnailSize) -> (r: NpioResult<
        String,
    >)
        ensures
            match r {
                Ok(p) => roots.cache_home() matches Some(home) && p@ == path::child(
                    cache_dir_under(home, size),
                    thumbnail_name(uri@),
                ),
                Err(e) => roots.cache_home() is None && e.spec_kind() == IOErrorEnum::Failed,
            },
    {
        match ThumbnailBackend::get_cache_dir(roots, size) {
            Ok(dir) => {
                let name = ThumbnailBackend::uri_to_thumbnail_name(uri);
                let joined = path::path_child(&to_chars(dir.as_str()), &to_chars(name.as_str()));
                Ok(from_chars(&joined))
            },
            Err(e) => Err(e),
        }
    }

    /// Whether a thumbnail still counts: it is there, and it was changed no
    /// earlier than its source. `thumbnail_mtime` is the time of the last
    /// change of the thumbnail, if the thumbnail is there.
    pub fn has_valid_thumbnail(thumbnail_mtime: Option<u64>, file_mtime: u64) -> (r: bool)
        ensures
            r == still_valid(thumbnail_mtime, file_mtime),
    {
        match thumbnail_mtime {
            Some(t) => t >= file_mtime,
            None => false,
        }
    }
}

impl Default for ThumbnailBackend {
    fn default() -> (r: Self) {
        ThumbnailBackend::new()
    }
}

/// A thumbnail made at or after the last change of its source counts, and
/// it counts no longer once the source is changed after it.
pub proof fn lemma_thumbnail_validity(made_at: u64, source_mtime: u64, touched_at: u64)
    requires
        made_at >= source_mtime,
        touched_at > made_at,
    ensures
        still_valid(Some(made_at), source_mtime),
        !still_valid(Some(made_at), touched_at),
{
}

} // verus!
