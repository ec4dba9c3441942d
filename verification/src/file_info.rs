//! The metadata bag: a sparse map from attribute keys to typed values.

use vstd::prelude::*;

verus! {

/// A typed attribute value.
#[derive(Debug, PartialEq)]
pub enum FileAttributeType {
    String(String),
    Stringv(Vec<String>),
    ByteString(Vec<u8>),
    Boolean(bool),
    Uint32(u32),
    Int32(i32),
    Uint64(u64),
    Int64(i64),
    Object(Box<FileAttributeType>),
    Invalid,
}

/// What an attribute value holds, as mathematics.
pub enum AttributeValue {
    String(Seq<char>),
    Stringv(Seq<Seq<char>>),
    ByteString(Seq<u8>),
    Boolean(bool),
    Uint32(u32),
    Int32(i32),
    Uint64(u64),
    Int64(i64),
    Object(Box<AttributeValue>),
    Invalid,
}

impl FileAttributeType {
    /// What the value holds.
    pub open spec fn value(&self) -> AttributeValue
        decreases self,
    {
        match self {
            FileAttributeType::String(s) => AttributeValue::String(s@),
            FileAttributeType::Stringv(v) => AttributeValue::Stringv(
                Seq::new(v@.len(), |i: int| v@[i]@),
            ),
            FileAttributeType::ByteString(b) => AttributeValue::ByteString(b@),
            FileAttributeType::Boolean(b) => AttributeValue::Boolean(*b),
            FileAttributeType::Uint32(n) => AttributeValue::Uint32(*n),
            FileAttributeType::Int32(n) => AttributeValue::Int32(*n),
            FileAttributeType::Uint64(n) => AttributeValue::Uint64(*n),
            FileAttributeType::Int64(n) => AttributeValue::Int64(*n),
            FileAttributeType::Object(b) => AttributeValue::Object(Box::new((**b).value())),
            FileAttributeType::Invalid => AttributeValue::Invalid,
        }
    }
}

impl View for FileAttributeType {
    type V = AttributeValue;

    open spec fn view(&self) -> AttributeValue {
        self.value()
    }
}

impl FileAttributeType {
    /// A value with the same contents.
    pub fn duplicate(&self) -> (r: FileAttributeType)
        ensures
            r@ == self@,
        decreases self,
    {
        match self {
            FileAttributeType::String(s) => FileAttributeType::String(s.clone()),
            FileAttributeType::Stringv(v) => {
                let mut out: Vec<String> = Vec::new();
                let mut i: usize = 0;
                while i < v.len()
                    invariant
                        i <= v.len(),
                        out@.len() == i,
                        forall|j: int| 0 <= j < i ==> out@[j]@ == v@[j]@,
                    decreases v.len() - i,
                {
                    out.push(v[i].clone());
                    i = i + 1;
                }
                let r = FileAttributeType::Stringv(out);
                assert(r@->Stringv_0 =~= self@->Stringv_0);
                r
            },
            FileAttributeType::ByteString(b) => {
                let mut out: Vec<u8> = Vec::new();
                let mut i: usize = 0;
                while i < b.len()
                    invariant
                        i <= b.len(),
                        out@ == b@.take(i as int),
                    decreases b.len() - i,
                {
                    out.push(b[i]);
                    i = i + 1;
                }
                assert(b@.take(b.len() as int) == b@);
                FileAttributeType::ByteString(out)
            },
            FileAttributeType::Boolean(b) => FileAttributeType::Boolean(*b),
            FileAttributeType::Uint32(n) => FileAttributeType::Uint32(*n),
            FileAttributeType::Int32(n) => FileAttributeType::Int32(*n),
            FileAttributeType::Uint64(n) => FileAttributeType::Uint64(*n),
            FileAttributeType::Int64(n) => FileAttributeType::Int64(*n),
            FileAttributeType::Object(b) => FileAttributeType::Object(Box::new(b.duplicate())),
            FileAttributeType::Invalid => FileAttributeType::Invalid,
        }
    }
}

impl Clone for FileAttributeType {
    fn clone(&self) -> (r: Self)
        ensures
            r@ == self@,
    {
        self.duplicate()
    }
}

/// The type of a file.
#[derive(Debug, Clone, Copy, PartialEq, Eq, Structural)]
pub enum FileType {
    Unknown,
    Regular,
    Directory,
    SymbolicLink,
    Special,
    Shortcut,
    Mountable,
}

impl FileType {
    /// The number under which the type is stored in a metadata bag.
    pub open spec fn code(self) -> u32 {
        match self {
            FileType::Unknown => 0,
            FileType::Regular => 1,
            FileType::Directory => 2,
            FileType::SymbolicLink => 3,
            FileType::Special => 4,
            FileType::Shortcut => 5,
            FileType::Mountable => 6,
        }
    }

    /// The type stored under a number; `Unknown` for a number that stands
    /// for none.
    pub open spec fn from_code(code: u32) -> FileType {
        if code == 1 {
            FileType::Regular
        } else if code == 2 {
            FileType::Directory
        } else if code == 3 {
            FileType::SymbolicLink
        } else if code == 4 {
            FileType::Special
        } else if code == 5 {
            FileType::Shortcut
        } else if code == 6 {
            FileType::Mountable
        } else {
            FileType::Unknown
        }
    }
}

/// Reading back the number of a type gives the type.
pub proof fn lemma_file_type_code_round_trip(t: FileType)
    ensures
        FileType::from_code(t.code()) == t,
{
}

pub open spec fn key_name() -> Seq<char> {
    "standard::name"@
}

pub open spec fn key_display_name() -> Seq<char> {
    "standard::display-name"@
}

pub open spec fn key_type() -> Seq<char> {
    "standard::type"@
}

pub open spec fn key_size() -> Seq<char> {
    "standard::size"@
}

pub open spec fn key_content_type() -> Seq<char> {
    "standard::content-type"@
}

pub open spec fn key_modified() -> Seq<char> {
    "time::modified"@
}

/// The text stored under `key`, if a string is stored there.
pub open spec fn text_at(m: Map<Seq<char>, AttributeValue>, key: Seq<char>) -> Option<Seq<char>> {
    if m.contains_key(key) && m[key] is String {
        Some(m[key]->String_0)
    } else {
        None
    }
}

/// The file type that a bag states.
pub open spec fn file_type_of(m: Map<Seq<char>, AttributeValue>) -> FileType {
    if m.contains_key(key_type()) && m[key_type()] is Uint32 {
        FileType::from_code(m[key_type()]->Uint32_0)
    } else {
        FileType::Unknown
    }
}

/// The size that a bag states: an unsigned value is reinterpreted as signed,
/// and a bag without a size states 0.
pub open spec fn size_of(m: Map<Seq<char>, AttributeValue>) -> i64 {
    if m.contains_key(key_size()) && m[key_size()] is Uint64 {
        m[key_size()]->Uint64_0 as i64
    } else if m.contains_key(key_size()) && m[key_size()] is Int64 {
        m[key_size()]->Int64_0
    } else {
        0
    }
}

/// No key stands twice among the entries.
pub open spec fn distinct_keys(entries: Seq<(String, FileAttributeType)>) -> bool {
    forall|i: int, j: int|
        0 <= i < j < entries.len() ==> (#[trigger] entries[i]).0@ != (#[trigger] entries[j]).0@
}

/// `key` stands among the entries.
pub open spec fn has_key(entries: Seq<(String, FileAttributeType)>, key: Seq<char>) -> bool {
    exists|i: int| 0 <= i < entries.len() && (#[trigger] entries[i]).0@ == key
}

/// A position at which `key` stands among the entries.
pub open spec fn position_of(entries: Seq<(String, FileAttributeType)>, key: Seq<char>) -> int {
    choose|i: int| 0 <= i < entries.len() && (#[trigger] entries[i]).0@ == key
}

/// The map that the entries stand for.
pub open spec fn entries_map(entries: Seq<(String, FileAttributeType)>) -> Map<
    Seq<char>,
    AttributeValue,
> {
    Map::new(|k: Seq<char>| has_key(entries, k), |k: Seq<char>| entries[position_of(entries, k)].1@)
}

/// Among entries with distinct keys, a key stands at one position only.
pub proof fn lemma_position_unique(
    entries: Seq<(String, FileAttributeType)>,
    key: Seq<char>,
    i: int,
)
    requires
        distinct_keys(entries),
        0 <= i < entries.len(),
        entries[i].0@ == key,
    ensures
        has_key(entries, key),
        position_of(entries, key) == i,
        entries_map(entries).contains_key(key),
        entries_map(entries)[key] == entries[i].1@,
{
    let j = position_of(entries, key);
    assert(0 <= j < entries.len() && entries[j].0@ == key);
    if j < i {
        assert(entries[j].0@ != entries[i].0@);
    } else if i < j {
        assert(entries[i].0@ != entries[j].0@);
    }
}

/// The position of `key` among the entries.
fn locate(entries: &Vec<(String, FileAttributeType)>, key: &str) -> (r: Option<usize>)
    ensures
        match r {
            Some(i) => i < entries@.len() && entries@[i as int].0@ == key@,
            None => !has_key(entries@, key@),
        },
{
    let mut i: usize = 0;
    while i < entries.len()
        invariant
            i <= entries.len(),
            forall|j: int| 0 <= j < i ==> (#[trigger] entries@[j]).0@ != key@,
        decreases entries.len() - i,
    {
        if crate::text::str_eq(entries[i].0.as_str(), key) {
            return Some(i);
        }
        i = i + 1;
    }
    None
}

/// Entries that agree, position by position, in what their keys and values
/// hold stand for the same map.
pub proof fn lemma_same_entries(
    a: Seq<(String, FileAttributeType)>,
    b: Seq<(String, FileAttributeType)>,
)
    requires
        distinct_keys(a),
        a.len() == b.len(),
        forall|i: int| 0 <= i < a.len() ==> (#[trigger] a[i]).0@ == b[i].0@ && a[i].1@ == b[i].1@,
    ensures
        distinct_keys(b),
        entries_map(a) == entries_map(b),
{
    assert forall|i: int, j: int| 0 <= i < j < b.len() implies (#[trigger] b[i]).0@ != (
    #[trigger] b[j]).0@ by {
        assert(a[i].0@ != a[j].0@);
    }
    assert forall|k: Seq<char>| has_key(a, k) == has_key(b, k) by {
        if has_key(a, k) {
            let p = position_of(a, k);
            assert(a[p].0@ == b[p].0@);
            assert(b[p].0@ == k);
        }
        if has_key(b, k) {
            let p = position_of(b, k);
            assert(a[p].0@ == b[p].0@);
        }
    }
    assert forall|k: Seq<char>| has_key(a, k) implies #[trigger] entries_map(a)[k] == entries_map(
        b,
    )[k] by {
        let p = position_of(a, k);
        assert(a[p].0@ == b[p].0@);
        lemma_position_unique(a, k, p);
        lemma_position_unique(b, k, p);
    }
    assert(entries_map(a) =~= entries_map(b));
}

/// A metadata bag.
#[derive(Debug)]
pub struct FileInfo {
    attributes: Vec<(String, FileAttributeType)>,
}

impl View for FileInfo {
    type V = Map<Seq<char>, AttributeValue>;

    closed spec fn view(&self) -> Map<Seq<char>, AttributeValue> {
        entries_map(self.attributes@)
    }
}

impl FileInfo {
    #[verifier::type_invariant]
    spec fn keys_are_distinct(&self) -> bool {
        distinct_keys(self.attributes@)
    }

    /// The empty bag.
    pub fn new() -> (r: Self)
        ensures
            r@ == Map::<Seq<char>, AttributeValue>::empty(),
    {
        let r = FileInfo { attributes: Vec::new() };
        assert(r@ =~= Map::<Seq<char>, AttributeValue>::empty());
        r
    }

    /// Stores `value` under `key`, in place of what was stored there.
    pub fn set_attribute(&mut self, key: &str, value: FileAttributeType)
        ensures
            final(self)@ == old(self)@.insert(key@, value@),
    {
        proof {
            use_type_invariant(&*self);
        }
        let ghost before = self.attributes@;
        let mut entries: Vec<(String, FileAttributeType)> = Vec::new();
        std::mem::swap(&mut self.attributes, &mut entries);
        match locate(&entries, key) {
            Some(i) => {
                entries.set(i, (key.to_owned(), value));
                proof {
                    let after = entries@;
                    assert(distinct_keys(after)) by {
                        assert forall|a: int, b: int| 0 <= a < b < after.len() implies (
                        #[trigger] after[a]).0@ != (#[trigger] after[b]).0@ by {
                            assert(after[a].0@ == before[a].0@);
                            assert(after[b].0@ == before[b].0@);
                        }
                    }
                    assert forall|k: Seq<char>| has_key(after, k) == has_key(before, k) by {
                        if has_key(after, k) {
                            let p = position_of(after, k);
                            assert(before[p].0@ == k);
                        }
                        if has_key(before, k) {
                            let p = position_of(before, k);
                            assert(after[p].0@ == k);
                        }
                    }
                    lemma_position_unique(before, key@, i as int);
                    assert forall|k: Seq<char>| has_key(after, k) implies entries_map(after)[k]
                        == #[trigger] entries_map(before).insert(key@, value@)[k] by {
                        let p = position_of(after, k);
                        lemma_position_unique(after, k, p);
                        if k != key@ {
                            assert(before[p].0@ == k);
                            lemma_position_unique(before, k, p);
                        } else {
                            lemma_position_unique(after, k, i as int);
                        }
                    }
                    assert(entries_map(after) =~= entries_map(before).insert(key@, value@));
                }
            },
            None => {
                entries.push((key.to_owned(), value));
                proof {
                    let after = entries@;
                    let n = before.len() as int;
                    assert(distinct_keys(after)) by {
                        assert forall|a: int, b: int| 0 <= a < b < after.len() implies (
                        #[trigger] after[a]).0@ != (#[trigger] after[b]).0@ by {
                            assert(after[a] == before[a]);
                            if b < n {
                                assert(after[b] == before[b]);
                            }
                        }
                    }
                    assert forall|k: Seq<char>| has_key(after, k) == (has_key(before, k) || k
                        == key@) by {
                        if has_key(after, k) {
                            let p = position_of(after, k);
                            if p < n {
                                assert(before[p].0@ == k);
                            }
                        }
                        if has_key(before, k) {
                            let p = position_of(before, k);
                            assert(after[p].0@ == k);
                        }
                        if k == key@ {
                            assert(after[n].0@ == k);
                        }
                    }
                    assert forall|k: Seq<char>| has_key(after, k) implies entries_map(after)[k]
                        == #[trigger] entries_map(before).insert(key@, value@)[k] by {
                        let p = position_of(after, k);
                        lemma_position_unique(after, k, p);
                        if k != key@ {
                            assert(before[p].0@ == k);
                            lemma_position_unique(before, k, p);
                        } else {
                            lemma_position_unique(after, k, n);
                        }
                    }
                    assert(entries_map(after) =~= entries_map(before).insert(key@, value@));
                }
            },
        }
        self.attributes = entries;
    }

    /// What is stored under `key`.
    pub fn get_attribute(&self, key: &str) -> (r: Option<&FileAttributeType>)
        ensures
            match r {
                Some(v) => self@.contains_key(key@) && self@[key@] == v@,
                None => !self@.contains_key(key@),
            },
    {
        proof {
            use_type_invariant(self);
        }
        match locate(&self.attributes, key) {
            Some(i) => {
                proof {
                    lemma_position_unique(self.attributes@, key@, i as int);
                }
                Some(&self.attributes[i].1)
            },
            None => None,
        }
    }

    /// Whether anything is stored under `key`.
    pub fn has_attribute(&self, key: &str) -> (r: bool)
        ensures
            r == self@.contains_key(key@),
    {
        self.get_attribute(key).is_some()
    }

    /// Removes what is stored under `key`, if anything.
    pub fn remove_attribute(&mut self, key: &str)
        ensures
            final(self)@ == old(self)@.remove(key@),
    {
        proof {
            use_type_invariant(&*self);
        }
        let ghost before = self.attributes@;
        let mut entries: Vec<(String, FileAttributeType)> = Vec::new();
        std::mem::swap(&mut self.attributes, &mut entries);
        match locate(&entries, key) {
            Some(i) => {
                let _gone = entries.remove(i);
                proof {
                    let after = entries@;
                    let n = i as int;
                    assert forall|a: int| 0 <= a < after.len() implies #[trigger] after[a] == (if a
                        < n {
                        before[a]
                    } else {
                        before[a + 1]
                    }) by {}
                    assert(distinct_keys(after)) by {
                        assert forall|a: int, b: int| 0 <= a < b < after.len() implies (
                        #[trigger] after[a]).0@ != (#[trigger] after[b]).0@ by {
                            let a0 = if a < n { a } else { a + 1 };
                            let b0 = if b < n { b } else { b + 1 };
                            assert(after[a] == before[a0]);
                            assert(after[b] == before[b0]);
                            assert(before[a0].0@ != before[b0].0@);
                        }
                    }
                    lemma_position_unique(before, key@, n);
                    assert forall|k: Seq<char>| has_key(after, k) == (has_key(before, k) && k
                        != key@) by {
                        if has_key(after, k) {
                            let p = position_of(after, k);
                            let p0 = if p < n { p } else { p + 1 };
                            assert(after[p] == before[p0]);
                            assert(before[p0].0@ == k);
                            if k == key@ {
                                lemma_position_unique(before, k, p0);
                            }
                        }
                        if has_key(before, k) && k != key@ {
                            let p0 = position_of(before, k);
                            let p = if p0 < n { p0 } else { p0 - 1 };
                            assert(after[p] == before[p0]);
                            assert(after[p].0@ == k);
                        }
                    }
                    assert forall|k: Seq<char>| has_key(after, k) implies entries_map(after)[k]
                        == #[trigger] entries_map(before)[k] by {
                        let p = position_of(after, k);
                        let p0 = if p < n { p } else { p + 1 };
                        assert(after[p] == before[p0]);
                        lemma_position_unique(after, k, p);
                        lemma_position_unique(before, k, p0);
                    }
                    assert(entries_map(after) =~= entries_map(before).remove(key@));
                }
            },
            None => {
                assert(entries_map(before) =~= entries_map(before).remove(key@));
            },
        }
        self.attributes = entries;
    }

    /// The number of attributes in the bag.
    pub fn attribute_count(&self) -> (r: usize)
        ensures
            self@.dom().finite(),
            r == self@.dom().len(),
    {
        proof {
            use_type_invariant(self);
            lemma_entries_len(self.attributes@);
        }
        self.attributes.len()
    }

    /// The key of the attribute at `index`.
    pub closed spec fn spec_key_at(&self, index: int) -> Seq<char> {
        self.attributes@[index].0@
    }

    /// The key of the attribute at `index`, in an order that stays the same
    /// while the bag is not changed.
    pub fn attribute_key(&self, index: usize) -> (r: &str)
        requires
            index < self@.dom().len(),
        ensures
            r@ == self.spec_key_at(index as int),
            self@.contains_key(r@),
    {
        proof {
            use_type_invariant(self);
            lemma_entries_len(self.attributes@);
            lemma_position_unique(self.attributes@, self.attributes@[index as int].0@, index as int);
        }
        self.attributes[index].0.as_str()
    }

    // Common attributes

    /// Stores the file's name.
    pub fn set_name(&mut self, name: &str)
        ensures
            final(self)@ == old(self)@.insert(key_name(), AttributeValue::String(name@)),
    {
        self.set_attribute("standard::name", FileAttributeType::String(name.to_owned()));
    }

    /// The file's name, if the bag holds one as a string.
    pub fn get_name(&self) -> (r: Option<&str>)
        ensures
            match r {
                Some(s) => text_at(self@, key_name()) == Some(s@),
                None => text_at(self@, key_name()).is_none(),
            },
    {
        match self.get_attribute("standard::name") {
            Some(FileAttributeType::String(s)) => Some(s.as_str()),
            _ => None,
        }
    }

    /// Stores the name to show to people.
    pub fn set_display_name(&mut self, name: &str)
        ensures
            final(self)@ == old(self)@.insert(
                key_display_name(),
                AttributeValue::String(name@),
            ),
    {
        self.set_attribute("standard::display-name", FileAttributeType::String(name.to_owned()));
    }

    /// The name to show to people, if the bag holds one as a string.
    pub fn get_display_name(&self) -> (r: Option<&str>)
        ensures
            match r {
                Some(s) => text_at(self@, key_display_name()) == Some(s@),
                None => text_at(self@, key_display_name()).is_none(),
            },
    {
        match self.get_attribute("standard::display-name") {
            Some(FileAttributeType::String(s)) => Some(s.as_str()),
            _ => None,
        }
    }

    /// Stores the file's type, as its number.
    pub fn set_file_type(&mut self, file_type: FileType)
        ensures
            final(self)@ == old(self)@.insert(key_type(), AttributeValue::Uint32(file_type.code())),
    {
        let val: u32 = match file_type {
            FileType::Unknown => 0,
            FileType::Regular => 1,
            FileType::Directory => 2,
            FileType::SymbolicLink => 3,
            FileType::Special => 4,
            FileType::Shortcut => 5,
            FileType::Mountable => 6,
        };
        self.set_attribute("standard::type", FileAttributeType::Uint32(val));
    }

    /// The file's type; `Unknown` where the bag states none.
    pub fn get_file_type(&self) -> (r: FileType)
        ensures
            r == file_type_of(self@),
    {
        match self.get_attribute("standard::type") {
            Some(FileAttributeType::Uint32(val)) => {
                let v: u32 = *val;
                if v == 1 {
                    FileType::Regular
                } else if v == 2 {
                    FileType::Directory
                } else if v == 3 {
                    FileType::SymbolicLink
                } else if v == 4 {
                    FileType::Special
                } else if v == 5 {
                    FileType::Shortcut
                } else if v == 6 {
                    FileType::Mountable
                } else {
                    FileType::Unknown
                }
            },
            _ => FileType::Unknown,
        }
    }

    /// Stores the file's size in bytes.
    pub fn set_size(&mut self, size: u64)
        ensures
            final(self)@ == old(self)@.insert(key_size(), AttributeValue::Uint64(size)),
    {
        self.set_attribute("standard::size", FileAttributeType::Uint64(size));
    }

    /// The file's size in bytes; 0 where the bag states none.
    pub fn get_size(&self) -> (r: i64)
        ensures
            r == size_of(self@),
    {
        match self.get_attribute("standard::size") {
            Some(FileAttributeType::Uint64(s)) => {
                #[verifier::truncate]
                (*s as i64)
            },
            Some(FileAttributeType::Int64(s)) => *s,
            _ => 0,
        }
    }

    /// Stores the file's content type.
    pub fn set_content_type(&mut self, content_type: &str)
        ensures
            final(self)@ == old(self)@.insert(
                key_content_type(),
                AttributeValue::String(content_type@),
            ),
    {
        self.set_attribute(
            "standard::content-type",
            FileAttributeType::String(content_type.to_owned()),
        );
    }

    /// The file's content type, if the bag holds one as a string.
    pub fn get_content_type(&self) -> (r: Option<&str>)
        ensures
            match r {
                Some(s) => text_at(self@, key_content_type()) == Some(s@),
                None => text_at(self@, key_content_type()).is_none(),
            },
    {
        match self.get_attribute("standard::content-type") {
            Some(FileAttributeType::String(s)) => Some(s.as_str()),
            _ => None,
        }
    }

    /// Stores the time of the last change, in seconds since the epoch.
    pub fn set_modification_time(&mut self, time: u64)
        ensures
            final(self)@ == old(self)@.insert(key_modified(), AttributeValue::Uint64(time)),
    {
        self.set_attribute("time::modified", FileAttributeType::Uint64(time));
    }
}

impl Clone for FileInfo {
    fn clone(&self) -> (r: Self)
        ensures
            r@ == self@,
    {
        proof {
            use_type_invariant(self);
        }
        let mut entries: Vec<(String, FileAttributeType)> = Vec::new();
        let mut i: usize = 0;
        while i < self.attributes.len()
            invariant
                i <= self.attributes.len(),
                entries@.len() == i,
                forall|j: int|
                    0 <= j < i ==> (#[trigger] self.attributes@[j]).0@ == entries@[j].0@
                        && self.attributes@[j].1@ == entries@[j].1@,
            decreases self.attributes.len() - i,
        {
            let key = self.attributes[i].0.clone();
            let value = self.attributes[i].1.duplicate();
            entries.push((key, value));
            i = i + 1;
        }
        proof {
            lemma_same_entries(self.attributes@, entries@);
        }
        FileInfo { attributes: entries }
    }
}

impl Default for FileInfo {
    fn default() -> (r: Self)
        ensures
            r@ == Map::<Seq<char>, AttributeValue>::empty(),
    {
        FileInfo::new()
    }
}

/// Entries with distinct keys stand for a map with as many keys.
pub proof fn lemma_entries_len(entries: Seq<(String, FileAttributeType)>)
    requires
        distinct_keys(entries),
    ensures
        entries_map(entries).dom().finite(),
        entries_map(entries).dom().len() == entries.len(),
    decreases entries.len(),
{
    if entries.len() == 0 {
        assert(entries_map(entries).dom() =~= Set::<Seq<char>>::empty());
    } else {
        let init = entries.drop_last();
        let k = entries.last().0@;
        assert(distinct_keys(init)) by {
            assert forall|a: int, b: int| 0 <= a < b < init.len() implies (#[trigger] init[a]).0@
                != (#[trigger] init[b]).0@ by {
                assert(init[a] == entries[a]);
                assert(init[b] == entries[b]);
            }
        }
        lemma_entries_len(init);
        assert(!has_key(init, k)) by {
            if has_key(init, k) {
                let p = position_of(init, k);
                assert(init[p] == entries[p]);
                assert(entries[p].0@ != entries[entries.len() - 1].0@);
            }
        }
        assert(entries_map(entries).dom() =~= entries_map(init).dom().insert(k)) by {
            assert forall|x: Seq<char>| has_key(entries, x) == (has_key(init, x) || x == k) by {
                if has_key(entries, x) {
                    let p = position_of(entries, x);
                    if p < init.len() {
                        assert(init[p].0@ == x);
                    }
                }
                if has_key(init, x) {
                    let p = position_of(init, x);
                    assert(entries[p].0@ == x);
                }
                if x == k {
                    assert(entries[entries.len() - 1].0@ == x);
                }
            }
        }
    }
}

} // verus!
