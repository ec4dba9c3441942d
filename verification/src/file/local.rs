//! Handles of the local filesystem.

use crate::cancellable::{checkpoint, tripped, Cancellable};
use crate::error::{IOErrorEnum, NpioError, NpioResult};
use crate::file::File;
use crate::file_info::{AttributeValue, FileAttributeType, FileInfo};
use crate::path;
use crate::text::{append_str, from_chars, has_prefix, slice, str_eq, to_chars};
use vstd::prelude::*;
use vstd::string::StringSliceAdditionalSpecFns;

verus! {

/// The scheme prefix of local URIs.
pub open spec fn file_prefix() -> Seq<char> {
    "file://"@
}

/// A handle of the local filesystem: a path. The handle holds the path
/// twice: as text, by which it is shown, compared and taken apart, and as
/// the bytes by which the operating system knows it. For a path that is
/// UTF-8 the bytes are those of the text; for another the text shows what
/// can be read of the bytes, and the bytes are kept as they came.
#[derive(Debug)]
pub struct LocalFile {
    path: String,
    raw: Vec<u8>,
}

impl View for LocalFile {
    type V = Seq<char>;

    /// The path of the handle, as text.
    closed spec fn view(&self) -> Seq<char> {
        self.path@
    }
}

impl Clone for LocalFile {
    fn clone(&self) -> (r: Self)
        ensures
            r@ == self@,
            r.spec_raw() == self.spec_raw(),
    {
        LocalFile { path: self.path.clone(), raw: copy_bytes(&self.raw) }
    }
}

impl LocalFile {
    /// The path of the handle, in the bytes of the operating system.
    pub closed spec fn spec_raw(&self) -> Seq<u8> {
        self.raw@
    }

    /// The handle was made of a text: its bytes are those of its text.
    pub open spec fn is_text(&self) -> bool {
        self.spec_raw() == vstd::utf8::encode_utf8(self@)
    }

    /// The handle was made of bytes: its text is what can be read of them.
    pub open spec fn is_of_bytes(&self, bytes: Seq<u8>) -> bool {
        self.spec_raw() == bytes && self@ == crate::text::lossy_text(bytes)
    }

    /// The handle of the path that the text writes.
    pub fn new(path: &str) -> (r: Self)
        ensures
            r@ == path@,
            r.is_text(),
    {
        LocalFile { path: path.to_owned(), raw: path.as_bytes_vec() }
    }

    /// The handle of the path that the operating system gave in bytes. The
    /// bytes are kept; the text is what can be read of them.
    pub fn from_bytes(bytes: &Vec<u8>) -> (r: Self)
        ensures
            r.is_of_bytes(bytes@),
    {
        LocalFile { path: crate::text::utf8_lossy(bytes), raw: copy_bytes(bytes) }
    }

    /// The path of the handle, as text.
    pub fn path(&self) -> (r: &str)
        ensures
            r@ == self@,
    {
        self.path.as_str()
    }

    /// The path of the handle, in the bytes by which the operating system
    /// is asked for the file.
    pub fn raw_path(&self) -> (r: &Vec<u8>)
        ensures
            r@ == self.spec_raw(),
    {
        &self.raw
    }

    /// The handle of the entry under this one whose name the operating
    /// system gave in bytes.
    pub fn child_of_bytes(&self, name: &Vec<u8>) -> (r: Self)
        ensures
            r@ == path::child(self@, crate::text::lossy_text(name@)),
            r.spec_raw() == path::child_bytes(self.spec_raw(), name@),
    {
        let text = crate::text::utf8_lossy(name);
        let joined = path::path_child(&to_chars(self.path.as_str()), &to_chars(text.as_str()));
        LocalFile { path: from_chars(&joined), raw: path::bytes_child(&self.raw, name) }
    }
}

/// The path that a local URI names: what follows `file://`; a text
/// without that prefix is taken for a path as it stands.
pub open spec fn uri_path(uri: Seq<char>) -> Seq<char> {
    if crate::text::starts_with(uri, file_prefix()) {
        uri.skip(file_prefix().len() as int)
    } else {
        uri
    }
}

/// The path that a local URI names.
pub fn path_of_uri(uri: &str) -> (r: String)
    ensures
        r@ == uri_path(uri@),
{
    let chars = to_chars(uri);
    let prefix = to_chars("file://");
    if has_prefix(&chars, &prefix) {
        from_chars(&slice(&chars, prefix.len(), chars.len()))
    } else {
        uri.to_owned()
    }
}

/// The basename of a path: its file name, or `/` where it has none.
pub open spec fn basename_of(p: Seq<char>) -> Seq<char> {
    match path::file_name(p) {
        Some(name) => name,
        None => path::slash(),
    }
}

impl File for LocalFile {
    open spec fn spec_uri(&self) -> Seq<char> {
        file_prefix() + self@
    }

    fn uri(&self) -> (r: String) {
        let mut out = "file://".to_owned();
        out.append(self.path.as_str());
        out
    }

    fn basename(&self) -> (r: String)
        ensures
            r@ == basename_of(self@),
    {
        let p = to_chars(self.path.as_str());
        match path::path_file_name(&p) {
            Some(name) => from_chars(&name),
            None => {
                proof {
                    reveal_strlit("/");
                    assert("/"@ =~= path::slash());
                }
                "/".to_owned()
            },
        }
    }

    /// The parent, in text and in bytes. Where the bytes have no parent
    /// though the text has one, the bytes of the parent are those of its
    /// text.
    fn parent(&self) -> (r: Option<Self>)
        ensures
            match r {
                Some(p) => path::parent(self@) == Some(p@) && p.spec_raw() == (
                match path::parent_bytes(self.spec_raw()) {
                    Some(bytes) => bytes,
                    None => vstd::utf8::encode_utf8(p@),
                }),
                None => path::parent(self@).is_none(),
            },
    {
        let p = to_chars(self.path.as_str());
        match path::path_parent(&p) {
            Some(up) => {
                let text = from_chars(&up);
                let raw = match path::bytes_parent(&self.raw) {
                    Some(bytes) => bytes,
                    None => text.as_str().as_bytes_vec(),
                };
                Some(LocalFile { path: text, raw })
            },
            None => None,
        }
    }

    /// The child, in text and in bytes.
    fn child(&self, name: &str) -> (r: Self)
        ensures
            r@ == path::child(self@, name@),
            r.spec_raw() == path::child_bytes(self.spec_raw(), vstd::utf8::encode_utf8(name@)),
    {
        let p = to_chars(self.path.as_str());
        let n = to_chars(name);
        let joined = path::path_child(&p, &n);
        LocalFile { path: from_chars(&joined), raw: path::bytes_child(&self.raw, &name.as_bytes_vec()) }
    }
}

/// The parent of a child is the handle itself: for a handle whose path ends
/// with its last component (it is the root, or ends neither with `/` nor
/// with `/.`), and a name without separators that is neither empty nor
/// `.`.
pub proof fn lemma_child_then_parent(file: LocalFile, name: Seq<char>)
    requires
        path::ends_with_component(file@),
        name.len() > 0,
        name != path::dot(),
        forall|i: int| 0 <= i < name.len() ==> name[i] != '/',
    ensures
        path::parent(path::child(file@, name)) == Some(file@),
        file_prefix() + path::parent(path::child(file@, name))->Some_0 == file.spec_uri(),
{
    path::lemma_child_parent(file@, name);
}

/// A change to make to a file so that an attribute takes a value.
#[derive(Debug, Clone, PartialEq, Eq)]
pub enum AttributeChange {
    /// Set the permission bits.
    SetMode(u32),
    /// Set the owning user, and keep the group.
    SetOwner(u32),
    /// Set the owning group, and keep the user.
    SetGroup(u32),
    /// Set the time of the last change, in seconds since the epoch, and keep
    /// the time of the last access.
    SetModified(u64),
    /// Set the time of the last access, in seconds since the epoch, and keep
    /// the time of the last change.
    SetAccessed(u64),
    /// Rename the file to this path, unless another file is there.
    Rename(String),
    /// Set the extended attribute of this name to these bytes.
    SetXattr(String, Vec<u8>),
    /// The key is known but the value has another type than the key takes:
    /// nothing is changed.
    Nothing,
}

/// What an `AttributeChange` holds.
pub enum AttributeChangeView {
    SetMode(u32),
    SetOwner(u32),
    SetGroup(u32),
    SetModified(u64),
    SetAccessed(u64),
    Rename(Seq<char>),
    SetXattr(Seq<char>, Seq<u8>),
    Nothing,
}

impl View for AttributeChange {
    type V = AttributeChangeView;

    open spec fn view(&self) -> AttributeChangeView {
        match self {
            AttributeChange::SetMode(m) => AttributeChangeView::SetMode(*m),
            AttributeChange::SetOwner(u) => AttributeChangeView::SetOwner(*u),
            AttributeChange::SetGroup(g) => AttributeChangeView::SetGroup(*g),
            AttributeChange::SetModified(t) => AttributeChangeView::SetModified(*t),
            AttributeChange::SetAccessed(t) => AttributeChangeView::SetAccessed(*t),
            AttributeChange::Rename(p) => AttributeChangeView::Rename(p@),
            AttributeChange::SetXattr(n, b) => AttributeChangeView::SetXattr(n@, b@),
            AttributeChange::Nothing => AttributeChangeView::Nothing,
        }
    }
}

/// The prefix of the keys of extended attributes.
pub open spec fn xattr_prefix() -> Seq<char> {
    "xattr::"@
}

/// The change that sets `attribute` to `value` on the file at `p`, or the
/// kind of the failure. Keys that can be set are the permission bits, owner
/// and group, the two times, the display name, and extended attributes; any
/// other key is not supported. The display name renames the file within
/// its directory, which a path without a parent cannot have.
pub open spec fn attribute_change(p: Seq<char>, attribute: Seq<char>, value: AttributeValue)
    -> Result<AttributeChangeView, IOErrorEnum> {
    if attribute == "unix::mode"@ {
        Ok(
            match value {
                AttributeValue::Uint32(m) => AttributeChangeView::SetMode(m),
                _ => AttributeChangeView::Nothing,
            },
        )
    } else if attribute == "unix::uid"@ {
        Ok(
            match value {
                AttributeValue::Uint32(u) => AttributeChangeView::SetOwner(u),
                _ => AttributeChangeView::Nothing,
            },
        )
    } else if attribute == "unix::gid"@ {
        Ok(
            match value {
                AttributeValue::Uint32(g) => AttributeChangeView::SetGroup(g),
                _ => AttributeChangeView::Nothing,
            },
        )
    } else if attribute == "time::modified"@ {
        Ok(
            match value {
                AttributeValue::Uint64(t) => AttributeChangeView::SetModified(t),
                _ => AttributeChangeView::Nothing,
            },
        )
    } else if attribute == "time::accessed"@ {
        Ok(
            match value {
                AttributeValue::Uint64(t) => AttributeChangeView::SetAccessed(t),
                _ => AttributeChangeView::Nothing,
            },
        )
    } else if attribute == "standard::display-name"@ {
        match value {
            AttributeValue::String(name) => match path::parent(p) {
                Some(dir) => Ok(AttributeChangeView::Rename(path::child(dir, name))),
                None => Err(IOErrorEnum::Failed),
            },
            _ => Ok(AttributeChangeView::Nothing),
        }
    } else if crate::text::starts_with(attribute, xattr_prefix()) {
        Ok(
            match value {
                AttributeValue::ByteString(bytes) => AttributeChangeView::SetXattr(
                    attribute.skip(xattr_prefix().len() as int),
                    bytes,
                ),
                _ => AttributeChangeView::Nothing,
            },
        )
    } else {
        Err(IOErrorEnum::NotSupported)
    }
}

/// The change that sets `attribute` to `value` on the file at `p` under a
/// token: nothing but the failure `Cancelled` under a tripped token.
pub open spec fn planned(cancelled: bool, p: Seq<char>, attribute: Seq<char>, value: AttributeValue)
    -> Result<AttributeChangeView, IOErrorEnum> {
    if cancelled {
        Err(IOErrorEnum::Cancelled)
    } else {
        attribute_change(p, attribute, value)
    }
}

/// What a planned change holds, or the kind of the failure.
pub open spec fn plan_view(r: NpioResult<AttributeChange>) -> Result<
    AttributeChangeView,
    IOErrorEnum,
> {
    match r {
        Ok(c) => Ok(c@),
        Err(e) => Err(e.spec_kind()),
    }
}

/// A copy of the bytes.
fn copy_bytes(b: &Vec<u8>) -> (r: Vec<u8>)
    ensures
        r@ == b@,
{
    let mut out: Vec<u8> = Vec::new();
    let mut i: usize = 0;
    while i < b.len()
        invariant
            i <= b.len(),
            out@ == b@.take(i as int),
        decreases b.len() - i,
    {
        out.push(b[i]);
        i = i + 1;
    }
    assert(b@.take(b.len() as int) == b@);
    out
}

impl LocalFile {
    /// The change that sets `attribute` to `value` on this file. Under a
    /// tripped token the call fails with `Cancelled` before anything is
    /// looked at.
    pub fn set_attribute(
        &self,
        attribute: &str,
        value: &FileAttributeType,
        cancellable: Option<&Cancellable>,
    ) -> (r: NpioResult<AttributeChange>)
        ensures
            plan_view(r) == planned(tripped(cancellable), self@, attribute@, value@),
            r matches Err(e) ==> e.spec_kind() == IOErrorEnum::NotSupported ==> e.spec_message()
                == "Attribute '"@ + attribute@ + "' is not supported for setting"@,
    {
        match checkpoint(cancellable) {
            Err(e) => Err(e),
            Ok(()) => self.plan_change(attribute, value),
        }
    }

    /// The change that sets `attribute` to `value` on this file.
    fn plan_change(&self, attribute: &str, value: &FileAttributeType) -> (r: NpioResult<
        AttributeChange,
    >)
        ensures
            plan_view(r) == attribute_change(self@, attribute@, value@),
            r matches Err(e) ==> e.spec_kind() == IOErrorEnum::NotSupported ==> e.spec_message()
                == "Attribute '"@ + attribute@ + "' is not supported for setting"@,
    {
        if str_eq(attribute, "unix::mode") {
            match value {
                FileAttributeType::Uint32(m) => Ok(AttributeChange::SetMode(*m)),
                _ => Ok(AttributeChange::Nothing),
            }
        } else if str_eq(attribute, "unix::uid") {
            match value {
                FileAttributeType::Uint32(u) => Ok(AttributeChange::SetOwner(*u)),
                _ => Ok(AttributeChange::Nothing),
            }
        } else if str_eq(attribute, "unix::gid") {
            match value {
                FileAttributeType::Uint32(g) => Ok(AttributeChange::SetGroup(*g)),
                _ => Ok(AttributeChange::Nothing),
            }
        } else if str_eq(attribute, "time::modified") {
            match value {
                FileAttributeType::Uint64(t) => Ok(AttributeChange::SetModified(*t)),
                _ => Ok(AttributeChange::Nothing),
            }
        } else if str_eq(attribute, "time::accessed") {
            match value {
                FileAttributeType::Uint64(t) => Ok(AttributeChange::SetAccessed(*t)),
                _ => Ok(AttributeChange::Nothing),
            }
        } else if str_eq(attribute, "standard::display-name") {
            match value {
                FileAttributeType::String(name) => {
                    let p = to_chars(self.path.as_str());
                    match path::path_parent(&p) {
                        Some(dir) => {
                            let n = to_chars(name.as_str());
                            let target = path::path_child(&dir, &n);
                            Ok(AttributeChange::Rename(from_chars(&target)))
                        },
                        None => Err(
                            NpioError::new(IOErrorEnum::Failed, "File has no parent directory"),
                        ),
                    }
                },
                _ => Ok(AttributeChange::Nothing),
            }
        } else {
            let a = to_chars(attribute);
            let prefix = to_chars("xattr::");
            if has_prefix(&a, &prefix) {
                match value {
                    FileAttributeType::ByteString(bytes) => {
                        let name = slice(&a, prefix.len(), a.len());
                        assert(name@ == attribute@.skip(xattr_prefix().len() as int));
                        Ok(AttributeChange::SetXattr(from_chars(&name), copy_bytes(bytes)))
                    },
                    _ => Ok(AttributeChange::Nothing),
                }
            } else {
                let mut message: Vec<char> = Vec::new();
                append_str(&mut message, "Attribute '");
                append_str(&mut message, attribute);
                append_str(&mut message, "' is not supported for setting");
                let text = from_chars(&message);
                Err(NpioError::new(IOErrorEnum::NotSupported, text.as_str()))
            }
        }
    }

    /// Whether a rename of this file to `target` may go on: it fails with
    /// `Exists` exactly when a file stands at `target` and `target` is
    /// another path than this one, by its components.
    pub fn rename_target_check(&self, target: &str, target_exists: bool) -> (r: NpioResult<()>)
        ensures
            r is Err <==> (target_exists && path::components(target@) != path::components(self@)),
            r matches Err(e) ==> e.spec_kind() == IOErrorEnum::Exists && e.spec_message()
                == "Target file already exists: "@ + target@,
    {
        if target_exists && !path::same_components(
            &to_chars(target),
            &to_chars(self.path.as_str()),
        ) {
            let mut message: Vec<char> = Vec::new();
            append_str(&mut message, "Target file already exists: ");
            append_str(&mut message, target);
            let text = from_chars(&message);
            Err(NpioError::new(IOErrorEnum::Exists, text.as_str()))
        } else {
            Ok(())
        }
    }

    /// The change that sets `attribute` to the string `value`.
    pub fn set_attribute_string(&self, attribute: &str, value: &str, cancellable: Option<&Cancellable>) -> (r:
        NpioResult<AttributeChange>)
        ensures
            plan_view(r) == planned(tripped(cancellable), self@, attribute@, AttributeValue::String(value@)),
    {
        self.set_attribute(attribute, &FileAttributeType::String(value.to_owned()), cancellable)
    }

    /// The change that sets `attribute` to the bytes of the text `value`.
    pub fn set_attribute_byte_string(&self, attribute: &str, value: &str, cancellable: Option<&Cancellable>) -> (r:
        NpioResult<AttributeChange>)
        ensures
            plan_view(r) == planned(tripped(cancellable), self@, attribute@, AttributeValue::ByteString(value.spec_bytes())),
    {
        self.set_attribute(attribute, &FileAttributeType::ByteString(value.as_bytes_vec()), cancellable)
    }

    /// The change that sets `attribute` to the truth value `value`.
    pub fn set_attribute_boolean(&self, attribute: &str, value: bool, cancellable: Option<&Cancellable>) -> (r:
        NpioResult<AttributeChange>)
        ensures
            plan_view(r) == planned(tripped(cancellable), self@, attribute@, AttributeValue::Boolean(value)),
    {
        self.set_attribute(attribute, &FileAttributeType::Boolean(value), cancellable)
    }

    /// The change that sets `attribute` to the number `value`.
    pub fn set_attribute_uint32(&self, attribute: &str, value: u32, cancellable: Option<&Cancellable>) -> (r:
        NpioResult<AttributeChange>)
        ensures
            plan_view(r) == planned(tripped(cancellable), self@, attribute@, AttributeValue::Uint32(value)),
    {
        self.set_attribute(attribute, &FileAttributeType::Uint32(value), cancellable)
    }

    /// The change that sets `attribute` to the number `value`.
    pub fn set_attribute_int32(&self, attribute: &str, value: i32, cancellable: Option<&Cancellable>) -> (r:
        NpioResult<AttributeChange>)
        ensures
            plan_view(r) == planned(tripped(cancellable), self@, attribute@, AttributeValue::Int32(value)),
    {
        self.set_attribute(attribute, &FileAttributeType::Int32(value), cancellable)
    }

    /// The change that sets `attribute` to the number `value`.
    pub fn set_attribute_uint64(&self, attribute: &str, value: u64, cancellable: Option<&Cancellable>) -> (r:
        NpioResult<AttributeChange>)
        ensures
            plan_view(r) == planned(tripped(cancellable), self@, attribute@, AttributeValue::Uint64(value)),
    {
        self.set_attribute(attribute, &FileAttributeType::Uint64(value), cancellable)
    }

    /// The change that sets `attribute` to the number `value`.
    pub fn set_attribute_int64(&self, attribute: &str, value: i64, cancellable: Option<&Cancellable>) -> (r:
        NpioResult<AttributeChange>)
        ensures
            plan_view(r) == planned(tripped(cancellable), self@, attribute@, AttributeValue::Int64(value)),
    {
        self.set_attribute(attribute, &FileAttributeType::Int64(value), cancellable)
    }

    /// The changes that set every attribute of `info` on this file, in the
    /// order of the bag. Under a tripped token the call fails with
    /// `Cancelled`. Else the first attribute that cannot be set fails the
    /// whole call.
    pub fn set_attributes_from_info(&self, info: &FileInfo, cancellable: Option<&Cancellable>) -> (r:
        NpioResult<Vec<AttributeChange>>)
        ensures
            tripped(cancellable) ==> (r matches Err(e) && e.spec_kind() == IOErrorEnum::Cancelled),
            !tripped(cancellable) ==> match r {
                Ok(changes) => changes@.len() == info@.dom().len() && forall|i: int|
                    0 <= i < changes@.len() ==> Ok::<AttributeChangeView, IOErrorEnum>(
                        (#[trigger] changes@[i])@,
                    ) == attribute_change(
                        self@,
                        info.spec_key_at(i),
                        info@[info.spec_key_at(i)],
                    ),
                Err(e) => exists|i: int|
                    0 <= i < info@.dom().len() && #[trigger] attribute_change(
                        self@,
                        info.spec_key_at(i),
                        info@[info.spec_key_at(i)],
                    ) == Err::<AttributeChangeView, IOErrorEnum>(e.spec_kind()),
            },
    {
        match checkpoint(cancellable) {
            Err(e) => {
                return Err(e);
            },
            Ok(()) => {},
        }
        let n: usize = info.attribute_count();
        let mut changes: Vec<AttributeChange> = Vec::new();
        let mut i: usize = 0;
        while i < n
            invariant
                i <= n,
                n == info@.dom().len(),
                !tripped(cancellable),
                changes@.len() == i,
                forall|j: int|
                    0 <= j < i ==> Ok::<AttributeChangeView, IOErrorEnum>(
                        (#[trigger] changes@[j])@,
                    ) == attribute_change(
                        self@,
                        info.spec_key_at(j),
                        info@[info.spec_key_at(j)],
                    ),
            decreases n - i,
        {
            let key = info.attribute_key(i);
            match info.get_attribute(key) {
                Some(value) => {
                    match self.plan_change(key, value) {
                        Ok(change) => {
                            changes.push(change);
                        },
                        Err(e) => {
                            return Err(e);
                        },
                    }
                },
                None => {
                    assert(false);
                },
            }
            i = i + 1;
        }
        Ok(changes)
    }
}

} // verus!
