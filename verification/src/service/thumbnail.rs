//! The thumbnail service: which files get thumbnails, which thumbnails are
//! kept, and what is said of a thumbnail once it is made or has failed.

use crate::backend::thumbnail::{
    cache_dir_under, still_valid, thumbnail_name, CacheRoots, ThumbnailBackend, ThumbnailSize,
};
use crate::cancellable::{checkpoint, Cancellable};
use crate::error::{IOErrorEnum, NpioError, NpioResult};
use crate::file::local::{path_of_uri, uri_path};
use crate::file_info::{key_modified, AttributeValue, FileAttributeType, FileInfo};
use crate::metadata::{mime_guess_of, MimeResolver};
use crate::path;
use crate::text::{append_str, chars_eq, from_chars, str_eq, to_chars};
use vstd::prelude::*;

verus! {

/// What is said once a thumbnail is made or has failed.
#[derive(Debug)]
pub enum ThumbnailEvent {
    /// The thumbnail of `uri` in `size` lies at `path`.
    ThumbnailReady { uri: String, size: ThumbnailSize, path: String },
    /// No thumbnail of `uri` in `size` could be made.
    ThumbnailFailed { uri: String, size: ThumbnailSize, error_kind: IOErrorEnum, error_message: String },
}

/// A decoded image: `width * height` pixels of four bytes each, red, green,
/// blue and alpha.
#[derive(Debug, PartialEq, Eq)]
pub struct ThumbnailImage {
    pub width: u32,
    pub height: u32,
    pub data: Vec<u8>,
}

/// What an image holds.
pub struct ImageView {
    pub width: u32,
    pub height: u32,
    pub data: Seq<u8>,
}

impl View for ThumbnailImage {
    type V = ImageView;

    open spec fn view(&self) -> ImageView {
        ImageView { width: self.width, height: self.height, data: self.data@ }
    }
}

impl Clone for ThumbnailImage {
    fn clone(&self) -> (r: Self)
        ensures
            r@ == self@,
    {
        let mut data: Vec<u8> = Vec::new();
        let mut i: usize = 0;
        while i < self.data.len()
            invariant
                i <= self.data.len(),
                data@ == self.data@.take(i as int),
            decreases self.data.len() - i,
        {
            data.push(self.data[i]);
            i = i + 1;
        }
        assert(self.data@.take(self.data.len() as int) == self.data@);
        ThumbnailImage { width: self.width, height: self.height, data }
    }
}

/// The key of an image in the cache: the URI, a colon, and the name of the
/// size.
pub open spec fn image_key(uri: Seq<char>, size: ThumbnailSize) -> Seq<char> {
    uri + ":"@ + size.spec_name()
}

/// The key of an image in the cache.
pub fn cache_key(uri: &str, size: ThumbnailSize) -> (r: String)
    ensures
        r@ == image_key(uri@, size),
{
    let mut out: Vec<char> = Vec::new();
    append_str(&mut out, uri);
    append_str(&mut out, ":");
    append_str(&mut out, size.name());
    from_chars(&out)
}

/// The position at which `key` stands among the entries, searched from the
/// end; -1 where it stands nowhere.
pub open spec fn image_position(entries: Seq<(String, ThumbnailImage)>, key: Seq<char>) -> int
    decreases entries.len(),
{
    if entries.len() == 0 {
        -1
    } else if entries.last().0@ == key {
        entries.len() - 1
    } else {
        image_position(entries.drop_last(), key)
    }
}

/// What `image_position` finds holds the key.
pub proof fn lemma_image_position(entries: Seq<(String, ThumbnailImage)>, key: Seq<char>)
    ensures
        -1 <= image_position(entries, key) < entries.len(),
        image_position(entries, key) >= 0 ==> entries[image_position(entries, key)].0@ == key,
    decreases entries.len(),
{
    if entries.len() > 0 && entries.last().0@ != key {
        lemma_image_position(entries.drop_last(), key);
    }
}

/// Where two lists hold the same keys at the same positions, a key stands
/// at the same position in both.
pub proof fn lemma_same_keys(
    a: Seq<(String, ThumbnailImage)>,
    b: Seq<(String, ThumbnailImage)>,
    key: Seq<char>,
)
    requires
        a.len() == b.len(),
        forall|i: int| 0 <= i < a.len() ==> (#[trigger] b[i]).0@ == a[i].0@,
    ensures
        image_position(a, key) == image_position(b, key),
    decreases a.len(),
{
    if a.len() > 0 {
        assert(b.last().0@ == a.last().0@);
        if a.last().0@ != key {
            assert forall|i: int| 0 <= i < a.len() - 1 implies (#[trigger] b.drop_last()[i]).0@
                == a.drop_last()[i].0@ by {
                assert(b.drop_last()[i] == b[i]);
                assert(a.drop_last()[i] == a[i]);
            }
            lemma_same_keys(a.drop_last(), b.drop_last(), key);
        }
    }
}

/// The cache of decoded images, by key. An image stored under a key takes
/// the place of the one stored under it before.
pub struct ThumbnailImageCache {
    cache: Vec<(String, ThumbnailImage)>,
}

impl ThumbnailImageCache {
    /// The image stored under `key`, if any.
    pub closed spec fn spec_get(&self, key: Seq<char>) -> Option<ImageView> {
        let at = image_position(self.cache@, key);
        if at >= 0 {
            Some(self.cache@[at].1@)
        } else {
            None
        }
    }

    /// An empty cache.
    pub fn new() -> (r: Self)
        ensures
            forall|key: Seq<char>| r.spec_get(key).is_none(),
    {
        ThumbnailImageCache { cache: Vec::new() }
    }

    /// The image stored under `key`.
    pub fn get_image(&self, key: &str) -> (r: Option<ThumbnailImage>)
        ensures
            match r {
                Some(image) => self.spec_get(key@) == Some(image@),
                None => self.spec_get(key@).is_none(),
            },
    {
        match self.locate(key) {
            Some(at) => Some(self.cache[at].1.clone()),
            None => None,
        }
    }

    /// The position at which `key` stands among the entries.
    fn locate(&self, key: &str) -> (r: Option<usize>)
        ensures
            match r {
                Some(at) => at == image_position(self.cache@, key@) && at < self.cache@.len(),
                None => image_position(self.cache@, key@) < 0,
            },
    {
        let mut i: usize = self.cache.len();
        assert(self.cache@.take(i as int) == self.cache@);
        while i > 0
            invariant
                i <= self.cache.len(),
                image_position(self.cache@, key@) == image_position(
                    self.cache@.take(i as int),
                    key@,
                ),
            decreases i,
        {
            proof {
                assert(self.cache@.take(i as int).last() == self.cache@[i - 1]);
                assert(self.cache@.take(i as int).drop_last() == self.cache@.take(i - 1));
            }
            if str_eq(self.cache[i - 1].0.as_str(), key) {
                return Some(i - 1);
            }
            i = i - 1;
        }
        None
    }

    /// Stores `image` under `key`, in place of the image stored under it
    /// before. Other keys keep their images.
    pub fn store_image(&mut self, key: String, image: ThumbnailImage)
        ensures
            final(self).spec_get(key@) == Some(image@),
            forall|other: Seq<char>|
                other != key@ ==> final(self).spec_get(other) == old(self).spec_get(other),
    {
        let ghost before = self.cache@;
        match self.locate(key.as_str()) {
            Some(at) => {
                self.cache.set(at, (key, image));
                proof {
                    let after = self.cache@;
                    assert forall|i: int| 0 <= i < after.len() implies (#[trigger] after[i]).0@
                        == before[i].0@ by {
                        lemma_image_position(before, key@);
                    }
                    assert forall|k: Seq<char>| image_position(after, k) == image_position(
                        before,
                        k,
                    ) by {
                        lemma_same_keys(before, after, k);
                    }
                    assert forall|other: Seq<char>| other != key@ implies self.spec_get(other)
                        == old(self).spec_get(other) by {
                        lemma_image_position(before, other);
                        let p = image_position(before, other);
                        if p >= 0 {
                            assert(after[p] == before[p]);
                        }
                    }
                }
            },
            None => {
                self.cache.push((key, image));
                proof {
                    let after = self.cache@;
                    assert(after.drop_last() == before);
                    assert forall|other: Seq<char>| other != key@ implies self.spec_get(other)
                        == old(self).spec_get(other) by {
                        lemma_image_position(before, other);
                        let p = image_position(before, other);
                        if p >= 0 {
                            assert(after[p] == before[p]);
                        }
                    }
                }
            },
        }
    }

    /// Empties the cache.
    pub fn clear(&mut self)
        ensures
            forall|key: Seq<char>| final(self).spec_get(key).is_none(),
    {
        self.cache.clear();
    }
}

impl Default for ThumbnailImageCache {
    fn default() -> (r: Self)
        ensures
            forall|key: Seq<char>| r.spec_get(key).is_none(),
    {
        ThumbnailImageCache::new()
    }
}

/// The media types of which thumbnails are made: the common image types,
/// PDF, and the common video types.
pub open spec fn supported_mime(mime: Seq<char>) -> bool {
    ||| mime == "image/jpeg"@
    ||| mime == "image/jpg"@
    ||| mime == "image/png"@
    ||| mime == "image/gif"@
    ||| mime == "image/webp"@
    ||| mime == "image/bmp"@
    ||| mime == "image/tiff"@
    ||| mime == "image/tif"@
    ||| mime == "application/pdf"@
    ||| mime == "video/mp4"@
    ||| mime == "video/avi"@
    ||| mime == "video/quicktime"@
    ||| mime == "video/x-msvideo"@
    ||| mime == "video/webm"@
}

/// Whether thumbnails are made of a media type.
pub fn is_supported_mime(mime: &str) -> (r: bool)
    ensures
        r == supported_mime(mime@),
{
    str_eq(mime, "image/jpeg") || str_eq(mime, "image/jpg") || str_eq(mime, "image/png") || str_eq(
        mime,
        "image/gif",
    ) || str_eq(mime, "image/webp") || str_eq(mime, "image/bmp") || str_eq(mime, "image/tiff")
        || str_eq(mime, "image/tif") || str_eq(mime, "application/pdf") || str_eq(
        mime,
        "video/mp4",
    ) || str_eq(mime, "video/avi") || str_eq(mime, "video/quicktime") || str_eq(
        mime,
        "video/x-msvideo",
    ) || str_eq(mime, "video/webm")
}

/// The time of the last change that a bag states; 0 where it states none.
pub open spec fn modified_of(bag: Map<Seq<char>, AttributeValue>) -> u64 {
    if bag.contains_key(key_modified()) && bag[key_modified()] is Uint64 {
        bag[key_modified()]->Uint64_0
    } else {
        0
    }
}

/// The time of the last change that a bag states.
pub fn modification_time(info: &FileInfo) -> (r: u64)
    ensures
        r == modified_of(info@),
{
    match info.get_attribute("time::modified") {
        Some(FileAttributeType::Uint64(t)) => *t,
        _ => 0,
    }
}

/// A thumbnail older than this many seconds is cleaned up: seven days.
pub const THUMBNAIL_MAX_AGE_SECS: u64 = 604800;

/// An entry of a directory of thumbnails.
#[derive(Debug)]
pub struct CacheEntry {
    /// The path of the entry.
    pub path: String,
    /// Whether the entry is a regular file.
    pub is_file: bool,
    /// How many seconds ago the entry was last changed, where that is
    /// known.
    pub age_secs: Option<u64>,
}

/// Whether an entry is cleaned up: a regular file with the extension
/// `png` that was last changed more than seven days ago.
pub open spec fn stale(entry: CacheEntry) -> bool {
    &&& entry.is_file
    &&& path::file_name(entry.path@) matches Some(name)
    &&& path::extension(name) == Some("png"@)
    &&& entry.age_secs matches Some(age)
    &&& age > THUMBNAIL_MAX_AGE_SECS
}

/// The positions of the entries that are cleaned up, in order.
pub open spec fn stale_positions(entries: Seq<CacheEntry>) -> Seq<usize>
    decreases entries.len(),
{
    if entries.len() == 0 {
        Seq::empty()
    } else {
        let init = stale_positions(entries.drop_last());
        if stale(entries.last()) {
            init.push((entries.len() - 1) as usize)
        } else {
            init
        }
    }
}

/// What is to be done to make a thumbnail.
#[derive(Debug)]
pub struct GenerationPlan {
    /// The path of the source file.
    pub source_path: String,
    /// The directory of the cache, which is to be made if it is not there.
    pub cache_dir: String,
    /// Where the thumbnail goes.
    pub thumbnail_path: String,
}

/// The thumbnail service.
#[derive(Debug, Clone, Copy, PartialEq, Eq, Structural)]
pub struct ThumbnailService {}

impl ThumbnailService {
    /// The thumbnail service.
    pub fn new() -> (r: Self) {
        ThumbnailService {  }
    }

    /// Whether thumbnails are made of the file at `uri`, by the media type
    /// that its name suggests. Fails with `Cancelled` exactly under a
    /// cancelled token.
    pub fn is_supported(&self, uri: &str, cancellable: Option<&Cancellable>) -> (r: NpioResult<
        bool,
    >)
        ensures
            r is Err <==> (cancellable matches Some(c) && c@),
            r matches Err(e) ==> e.spec_kind() == IOErrorEnum::Cancelled,
            r matches Ok(b) ==> b == supported_mime(mime_guess_of(uri_path(uri@))),
    {
        match checkpoint(cancellable) {
            Err(e) => Err(e),
            Ok(()) => {
                let p = path_of_uri(uri);
                let mime = MimeResolver::guess_mime_type(p.as_str());
                Ok(is_supported_mime(mime.as_str()))
            },
        }
    }

    /// Where the thumbnail of `uri` lies, if it still counts: if it is
    /// there and was changed no earlier than the source, by the time that
    /// the source's metadata states. Fails with `Cancelled` under a
    /// cancelled token, and with `Failed` where no cache home can be told.
    pub fn get_thumbnail_path(
        &self,
        roots: &CacheRoots,
        uri: &str,
        size: ThumbnailSize,
        info: &FileInfo,
        thumbnail_mtime: Option<u64>,
        cancellable: Option<&Cancellable>,
    ) -> (r: NpioResult<Option<String>>)
        ensures
            (cancellable matches Some(c) && c@) ==> (r matches Err(e) && e.spec_kind()
                == IOErrorEnum::Cancelled),
            !(cancellable matches Some(c) && c@) ==> {
                if !still_valid(thumbnail_mtime, modified_of(info@)) {
                    r matches Ok(None)
                } else {
                    match roots.cache_home() {
                        Some(home) => r matches Ok(Some(p)) && p@ == path::child(
                            cache_dir_under(home, size),
                            thumbnail_name(uri@),
                        ),
                        None => r matches Err(e) && e.spec_kind() == IOErrorEnum::Failed,
                    }
                }
            },
    {
        match checkpoint(cancellable) {
            Err(e) => Err(e),
            Ok(()) => {
                let file_mtime = modification_time(info);
                if ThumbnailBackend::has_valid_thumbnail(thumbnail_mtime, file_mtime) {
                    match ThumbnailBackend::get_thumbnail_path(roots, uri, size) {
                        Ok(p) => Ok(Some(p)),
                        Err(e) => Err(e),
                    }
                } else {
                    Ok(None)
                }
            },
        }
    }

    /// What is to be done to make the thumbnail of `uri`. Fails with
    /// `Cancelled` under a cancelled token; else with `NotFound` where the
    /// source is not there; else with `Failed` where no cache home can be
    /// told.
    pub fn generate_thumbnail(
        &self,
        roots: &CacheRoots,
        uri: &str,
        size: ThumbnailSize,
        source_exists: bool,
        cancellable: Option<&Cancellable>,
    ) -> (r: NpioResult<GenerationPlan>)
        ensures
            (cancellable matches Some(c) && c@) ==> (r matches Err(e) && e.spec_kind()
                == IOErrorEnum::Cancelled),
            !(cancellable matches Some(c) && c@) && !source_exists ==> (r matches Err(e)
                && e.spec_kind() == IOErrorEnum::NotFound),
            !(cancellable matches Some(c) && c@) && source_exists ==> match roots.cache_home() {
                Some(home) => r matches Ok(plan) && plan.source_path@ == uri_path(uri@)
                    && plan.cache_dir@ == cache_dir_under(home, size) && plan.thumbnail_path@
                    == path::child(cache_dir_under(home, size), thumbnail_name(uri@)),
                None => r matches Err(e) && e.spec_kind() == IOErrorEnum::Failed,
            },
    {
        match checkpoint(cancellable) {
            Err(e) => Err(e),
            Ok(()) => {
                if !source_exists {
                    return Err(NpioError::new(IOErrorEnum::NotFound, "File not found"));
                }
                let cache_dir = match ThumbnailBackend::get_cache_dir(roots, size) {
                    Ok(d) => d,
                    Err(e) => {
                        return Err(e);
                    },
                };
                let thumbnail_path = match ThumbnailBackend::get_thumbnail_path(roots, uri, size) {
                    Ok(p) => p,
                    Err(e) => {
                        return Err(e);
                    },
                };
                Ok(GenerationPlan { source_path: path_of_uri(uri), cache_dir, thumbnail_path })
            },
        }
    }

    /// What is said once the thumbnail of `uri` lies at `path`.
    pub fn ready_event(uri: &str, size: ThumbnailSize, path: &str) -> (r: ThumbnailEvent)
        ensures
            r matches ThumbnailEvent::ThumbnailReady { uri: u, size: s, path: p } && u@ == uri@
                && s == size && p@ == path@,
    {
        ThumbnailEvent::ThumbnailReady { uri: uri.to_owned(), size, path: path.to_owned() }
    }

    /// What is said once no thumbnail of `uri` could be made: the kind of
    /// the failure, and the failure as one line.
    pub fn failed_event(uri: &str, size: ThumbnailSize, error: &NpioError) -> (r: ThumbnailEvent)
        ensures
            r matches ThumbnailEvent::ThumbnailFailed {
                uri: u,
                size: s,
                error_kind: k,
                error_message: m,
            } && u@ == uri@ && s == size && k == error.spec_kind() && m@
                == error.spec_kind().spec_name() + ": "@ + error.spec_message(),
    {
        ThumbnailEvent::ThumbnailFailed {
            uri: uri.to_owned(),
            size,
            error_kind: *error.kind(),
            error_message: error.to_string(),
        }
    }

    /// Whether an entry of a directory of thumbnails is cleaned up.
    pub fn is_stale(entry: &CacheEntry) -> (r: bool)
        ensures
            r == stale(*entry),
    {
        if !entry.is_file {
            return false;
        }
        let old = match entry.age_secs {
            Some(age) => age > THUMBNAIL_MAX_AGE_SECS,
            None => false,
        };
        if !old {
            return false;
        }
        match path::path_file_name(&to_chars(entry.path.as_str())) {
            Some(name) => {
                match path::find_extension_dot(&name) {
                    Some(i) => {
                        let ext = crate::text::slice(&name, i + 1, name.len());
                        chars_eq(&ext, &to_chars("png"))
                    },
                    None => false,
                }
            },
            None => false,
        }
    }

    /// The positions of the entries of a directory of thumbnails that are
    /// to be deleted: the regular files with the extension `png` that were
    /// last changed more than seven days ago. Fails with `Cancelled`
    /// exactly under a cancelled token.
    pub fn cleanup_thumbnails(&self, entries: &Vec<CacheEntry>, cancellable: Option<&Cancellable>)
        -> (r: NpioResult<Vec<usize>>)
        ensures
            r is Err <==> (cancellable matches Some(c) && c@),
            r matches Err(e) ==> e.spec_kind() == IOErrorEnum::Cancelled,
            r matches Ok(positions) ==> positions@ == stale_positions(entries@),
    {
        match checkpoint(cancellable) {
            Err(e) => Err(e),
            Ok(()) => {
                let mut out: Vec<usize> = Vec::new();
                let mut i: usize = 0;
                while i < entries.len()
                    invariant
                        i <= entries.len(),
                        out@ == stale_positions(entries@.take(i as int)),
                    decreases entries.len() - i,
                {
                    proof {
                        assert(entries@.take(i + 1).drop_last() == entries@.take(i as int));
                        assert(entries@.take(i + 1).last() == entries@[i as int]);
                    }
                    if ThumbnailService::is_stale(&entries[i]) {
                        out.push(i);
                    }
                    i = i + 1;
                }
                assert(entries@.take(entries.len() as int) == entries@);
                Ok(out)
            },
        }
    }
}

impl Default for ThumbnailService {
    fn default() -> (r: Self) {
        ThumbnailService::new()
    }
}

} // verus!
