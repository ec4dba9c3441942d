//! Moving a file to the trash: where the trash lies, how a name that is
//! taken gives way to the next, and what the record of a trashed file says.

use crate::cancellable::{checkpoint, tripped, Cancellable};
use crate::error::{IOErrorEnum, NpioError, NpioResult};
use crate::file::local::{basename_of, LocalFile};
use crate::file::File;
use crate::path;
use crate::text::{append, append_str, decimal, from_chars, push_decimal, to_chars};
use vstd::prelude::*;
use vstd::string::StringSliceAdditionalSpecFns;

verus! {

/// The character that writes the hexadecimal digit `d` in upper case.
pub open spec fn hex_upper(d: int) -> char {
    if d < 10 {
        (0x30 + d) as char
    } else {
        (0x37 + d) as char
    }
}

/// What stands for an escaped byte: `%` and the two hexadecimal digits of
/// the byte, in upper case.
pub open spec fn escape_of(byte: u8) -> Seq<char> {
    seq!['%', hex_upper(byte as int / 16), hex_upper(byte as int % 16)]
}

/// `percent_encoding::percent_encode_byte` returns `%` followed by the two
/// hexadecimal digits of the byte, in upper case.
pub assume_specification[ percent_encoding::percent_encode_byte ](byte: u8) -> (r: &'static str)
    ensures
        r@ == escape_of(byte),
;

/// Whether a byte of a path is escaped in a record of the trash: every byte
/// outside ASCII, every control byte, and the space and the characters
/// `"`, `<`, `>`, `` ` ``, `#`, `?`, `{`, `}`, `[`, `]`, `|`, `\`, `^`, `&`,
/// `*`, `%`.
pub open spec fn is_escaped(b: u8) -> bool {
    ||| b >= 0x80
    ||| b < 0x20
    ||| b == 0x7F
    ||| b == 0x20
    ||| b == 0x22
    ||| b == 0x3C
    ||| b == 0x3E
    ||| b == 0x60
    ||| b == 0x23
    ||| b == 0x3F
    ||| b == 0x7B
    ||| b == 0x7D
    ||| b == 0x5B
    ||| b == 0x5D
    ||| b == 0x7C
    ||| b == 0x5C
    ||| b == 0x5E
    ||| b == 0x26
    ||| b == 0x2A
    ||| b == 0x25
}

/// What one byte of a path becomes: itself, or its escape. The separator
/// `/` is never escaped.
pub open spec fn encoded_byte(b: u8) -> Seq<char> {
    if is_escaped(b) {
        escape_of(b)
    } else {
        seq![b as char]
    }
}

/// The percent-encoding of the bytes of a path.
pub open spec fn percent_encoded(bytes: Seq<u8>) -> Seq<char>
    decreases bytes.len(),
{
    if bytes.len() == 0 {
        Seq::empty()
    } else {
        encoded_byte(bytes[0]) + percent_encoded(bytes.skip(1))
    }
}

/// The value of a hexadecimal digit in upper case; 0 for another
/// character.
pub open spec fn hex_value(c: char) -> int {
    let n = c as int;
    if 0x30 <= n <= 0x39 {
        n - 0x30
    } else if 0x41 <= n <= 0x46 {
        n - 0x37
    } else {
        0
    }
}

/// The bytes that a percent-encoded text stands for.
pub open spec fn percent_decoded(text: Seq<char>) -> Seq<u8>
    decreases text.len(),
{
    if text.len() == 0 {
        Seq::empty()
    } else if text[0] == '%' && text.len() >= 3 {
        seq![(hex_value(text[1]) * 16 + hex_value(text[2])) as u8] + percent_decoded(text.skip(3))
    } else {
        seq![text[0] as u8] + percent_decoded(text.skip(1))
    }
}

/// Decoding what was encoded gives back the bytes.
pub proof fn lemma_percent_round_trip(bytes: Seq<u8>)
    ensures
        percent_decoded(percent_encoded(bytes)) == bytes,
    decreases bytes.len(),
{
    if bytes.len() > 0 {
        let b = bytes[0];
        let rest = percent_encoded(bytes.skip(1));
        let whole = percent_encoded(bytes);
        lemma_percent_round_trip(bytes.skip(1));
        if is_escaped(b) {
            assert(whole == escape_of(b) + rest);
            assert(whole.skip(3) =~= rest);
            assert(whole[0] == '%');
            let hi = b as int / 16;
            let lo = b as int % 16;
            assert(whole[1] == hex_upper(hi));
            assert(whole[2] == hex_upper(lo));
            assert(hex_value(hex_upper(hi)) == hi);
            assert(hex_value(hex_upper(lo)) == lo);
            assert((hi * 16 + lo) as u8 == b);
        } else {
            assert(whole == seq![b as char] + rest);
            assert(whole.skip(1) =~= rest);
            assert(whole[0] == b as char);
            assert(whole[0] != '%');
            assert((b as char) as u8 == b);
        }
        assert(seq![b] + bytes.skip(1) =~= bytes);
    }
}

/// The path as a record of the trash writes it: a `/`, then the
/// percent-encoding of the path without the `/` that may open it.
pub open spec fn encoded_trash_path(p: Seq<char>) -> Seq<char> {
    let bytes = vstd::utf8::encode_utf8(p);
    if bytes.len() > 0 && bytes[0] == 0x2F {
        seq!['/'] + percent_encoded(bytes.skip(1))
    } else {
        seq!['/'] + percent_encoded(bytes)
    }
}

/// For an absolute path, decoding what the record writes gives back the
/// bytes of the path.
pub proof fn lemma_trash_path_round_trip(p: Seq<char>)
    requires
        path::is_absolute(p),
    ensures
        percent_decoded(encoded_trash_path(p)) == vstd::utf8::encode_utf8(p),
{
    let bytes = vstd::utf8::encode_utf8(p);
    assert(bytes.len() > 0 && bytes[0] == 0x2F) by {
        assert(p[0] as u32 == 0x2F);
        assert((0x2Fu32 & 0x7F) as u8 == 0x2Fu8) by (bit_vector);
        assert(vstd::utf8::encode_scalar(0x2F) == seq![0x2Fu8]);
        assert(bytes == vstd::utf8::encode_scalar(p[0] as u32) + vstd::utf8::encode_utf8(
            p.drop_first(),
        ));
    }
    let text = encoded_trash_path(p);
    let rest = percent_encoded(bytes.skip(1));
    assert(text == seq!['/'] + rest);
    assert(text.skip(1) =~= rest);
    assert(text[0] == '/');
    lemma_percent_round_trip(bytes.skip(1));
    assert(seq![0x2Fu8] + bytes.skip(1) =~= bytes);
}

/// The percent-encoding of the bytes from position `from` on.
fn percent_encode_from(bytes: &Vec<u8>, from: usize) -> (r: Vec<char>)
    requires
        from <= bytes.len(),
    ensures
        r@ == percent_encoded(bytes@.skip(from as int)),
{
    let mut out: Vec<char> = Vec::new();
    let mut i: usize = from;
    while i < bytes.len()
        invariant
            from <= i <= bytes.len(),
            out@ + percent_encoded(bytes@.skip(i as int)) == percent_encoded(
                bytes@.skip(from as int),
            ),
        decreases bytes.len() - i,
    {
        let b = bytes[i];
        proof {
            assert(bytes@.skip(i as int)[0] == b);
            assert(bytes@.skip(i as int).skip(1) == bytes@.skip(i + 1));
        }
        let ghost before = out@;
        if b >= 0x80 || b < 0x20 || b == 0x7F || b == 0x20 || b == 0x22 || b == 0x3C || b == 0x3E
            || b == 0x60 || b == 0x23 || b == 0x3F || b == 0x7B || b == 0x7D || b == 0x5B || b
            == 0x5D || b == 0x7C || b == 0x5C || b == 0x5E || b == 0x26 || b == 0x2A || b == 0x25 {
            append_str(&mut out, percent_encoding::percent_encode_byte(b));
        } else {
            out.push(b as char);
            assert(out@ == before + seq![b as char]);
        }
        assert(out@ == before + encoded_byte(b));
        assert((before + encoded_byte(b)) + percent_encoded(bytes@.skip(i + 1)) == before + (
        encoded_byte(b) + percent_encoded(bytes@.skip(i + 1))));
        i = i + 1;
    }
    assert(percent_encoded(bytes@.skip(bytes.len() as int)) == Seq::<char>::empty());
    out
}

/// The path as a record of the trash writes it.
pub fn encode_trash_path(original_path: &str) -> (r: String)
    ensures
        r@ == encoded_trash_path(original_path@),
{
    let bytes = original_path.as_bytes_vec();
    let from: usize = if bytes.len() > 0 && bytes[0] == 0x2F {
        1
    } else {
        0
    };
    let mut out: Vec<char> = Vec::new();
    out.push('/');
    let tail = percent_encode_from(&bytes, from);
    append(&mut out, &tail);
    assert(bytes@.skip(0) == bytes@);
    from_chars(&out)
}

/// The text of the record of a trashed file.
pub open spec fn trashinfo_text(encoded_path: Seq<char>, deletion_date: Seq<char>) -> Seq<char> {
    "[Trash Info]\nPath="@ + encoded_path + "\nDeletionDate="@ + deletion_date + "\n"@
}

/// The text of the record of a trashed file: a header line, the path, and
/// the date of deletion, each line ended by a line feed.
pub fn trashinfo_content(encoded_path: &str, deletion_date: &str) -> (r: String)
    ensures
        r@ == trashinfo_text(encoded_path@, deletion_date@),
{
    let mut out: Vec<char> = Vec::new();
    append_str(&mut out, "[Trash Info]\nPath=");
    append_str(&mut out, encoded_path);
    append_str(&mut out, "\nDeletionDate=");
    append_str(&mut out, deletion_date);
    append_str(&mut out, "\n");
    assert(out@ =~= trashinfo_text(encoded_path@, deletion_date@));
    from_chars(&out)
}

/// `chrono::Local::now` reads the clock and the time zone of the machine,
/// and `format` writes the moment as year, month, day, `T`, hour, minute
/// and second. Nothing is claimed of the text.
#[verifier::external_body]
fn deletion_date_now() -> String {
    chrono::Local::now().format("%Y-%m-%dT%H:%M:%S").to_string()
}

/// The name under which the file is put in the trash at the given attempt:
/// its own name at first; then its stem, a `.`, the number of the attempt,
/// and its extension.
pub open spec fn trash_name(basename: Seq<char>, attempt: nat) -> Seq<char> {
    if attempt == 0 {
        basename
    } else {
        path::file_stem(basename) + seq!['.'] + decimal(attempt) + match path::extension(basename) {
            Some(ext) => seq!['.'] + ext,
            None => Seq::empty(),
        }
    }
}

/// The name under which the file is put in the trash at the given attempt.
pub fn trash_candidate_name(basename: &str, attempt: u32) -> (r: String)
    ensures
        r@ == trash_name(basename@, attempt as nat),
{
    if attempt == 0 {
        return basename.to_owned();
    }
    let name = to_chars(basename);
    let mut out: Vec<char> = Vec::new();
    match path::find_extension_dot(&name) {
        Some(i) => {
            let stem = crate::text::slice(&name, 0, i);
            let ext = crate::text::slice(&name, i + 1, name.len());
            append(&mut out, &stem);
            out.push('.');
            push_decimal(&mut out, attempt as u64);
            out.push('.');
            append(&mut out, &ext);
            assert(out@ =~= trash_name(basename@, attempt as nat));
        },
        None => {
            append(&mut out, &name);
            out.push('.');
            push_decimal(&mut out, attempt as u64);
            assert(out@ =~= trash_name(basename@, attempt as nat));
        },
    }
    from_chars(&out)
}

/// The two directories of the trash under the data home: where the files
/// go, and where their records go.
pub fn trash_directories(data_home: &str) -> (r: (String, String))
    ensures
        r.0@ == path::child(path::child(data_home@, "Trash"@), "files"@),
        r.1@ == path::child(path::child(data_home@, "Trash"@), "info"@),
{
    let home = to_chars(data_home);
    let trash = path::path_child(&home, &to_chars("Trash"));
    let files = path::path_child(&trash, &to_chars("files"));
    let info = path::path_child(&trash, &to_chars("info"));
    (from_chars(&files), from_chars(&info))
}

/// How the rename into the trash ended.
#[derive(Debug, Clone, Copy, PartialEq, Eq, Structural)]
pub enum TrashRename {
    /// The file is in the trash.
    Done,
    /// The name is taken in the trash.
    AlreadyExists,
    /// The rename failed for another reason.
    Failed,
}

/// What follows a rename into the trash.
#[derive(Debug, Clone, Copy, PartialEq, Eq, Structural)]
pub enum TrashNext {
    /// Write the record of the file.
    WriteInfo,
    /// Try the next name.
    Retry,
    /// Give up, with the failure of the rename.
    Fail,
}

/// What follows a rename into the trash: the record once the file is
/// there, the next name where this one is taken, the failure else.
pub fn trash_after_rename(outcome: TrashRename) -> (r: TrashNext)
    ensures
        r == match outcome {
            TrashRename::Done => TrashNext::WriteInfo,
            TrashRename::AlreadyExists => TrashNext::Retry,
            TrashRename::Failed => TrashNext::Fail,
        },
{
    match outcome {
        TrashRename::Done => TrashNext::WriteInfo,
        TrashRename::AlreadyExists => TrashNext::Retry,
        TrashRename::Failed => TrashNext::Fail,
    }
}

/// An attempt to put a file into the trash.
#[derive(Debug)]
pub struct TrashAttempt {
    pub files_dir: String,
    pub info_dir: String,
    pub original_path: String,
    pub basename: String,
    pub attempt: u32,
}

/// The absolute path of a file, for its record: the canonical path where
/// there is one; else the path itself if it is absolute; else the path
/// under the current directory, which must be known.
pub open spec fn absolute_of(p: Seq<char>, canonical: Option<Seq<char>>, current: Option<Seq<char>>)
    -> Option<Seq<char>> {
    match canonical {
        Some(c) => Some(c),
        None => if path::is_absolute(p) {
            Some(p)
        } else {
            match current {
                Some(dir) => Some(path::child(dir, p)),
                None => None,
            }
        },
    }
}

impl LocalFile {
    /// The absolute path of the file, for its record in the trash. Fails
    /// exactly when there is no canonical path, the path is relative, and
    /// the current directory is not known.
    pub fn absolute_path(&self, canonical: Option<&str>, current_dir: Option<&str>) -> (r:
        NpioResult<String>)
        ensures
            match r {
                Ok(p) => Some(p@) == absolute_of(
                    self@,
                    match canonical {
                        Some(c) => Some(c@),
                        None => None,
                    },
                    match current_dir {
                        Some(d) => Some(d@),
                        None => None,
                    },
                ),
                Err(e) => e.spec_kind() == IOErrorEnum::Failed && canonical is None
                    && !path::is_absolute(self@) && current_dir is None,
            },
    {
        match canonical {
            Some(c) => Ok(c.to_owned()),
            None => {
                let p = to_chars(self.path());
                if path::path_is_absolute(&p) {
                    Ok(self.path().to_owned())
                } else {
                    match current_dir {
                        Some(dir) => {
                            let joined = path::path_child(&to_chars(dir), &p);
                            Ok(from_chars(&joined))
                        },
                        None => Err(
                            NpioError::new(
                                IOErrorEnum::Failed,
                                "Could not get current directory",
                            ),
                        ),
                    }
                }
            },
        }
    }

    /// The first attempt to put the file into the trash under `data_home`:
    /// under its own name. Under a tripped token the call fails with
    /// `Cancelled`, and nothing is to be touched.
    pub fn trash(&self, data_home: &str, absolute_path: &str, cancellable: Option<&Cancellable>) -> (r:
        NpioResult<TrashAttempt>)
        ensures
            r is Err <==> tripped(cancellable),
            r matches Err(e) ==> e.spec_kind() == IOErrorEnum::Cancelled,
            r matches Ok(attempt) ==> {
                &&& attempt.files_dir@ == path::child(path::child(data_home@, "Trash"@), "files"@)
                &&& attempt.info_dir@ == path::child(path::child(data_home@, "Trash"@), "info"@)
                &&& attempt.original_path@ == absolute_path@
                &&& attempt.basename@ == basename_of(self@)
                &&& attempt.attempt == 0
            },
    {
        match checkpoint(cancellable) {
            Err(e) => Err(e),
            Ok(()) => {
                let dirs = trash_directories(data_home);
                Ok(
                    TrashAttempt {
                        files_dir: dirs.0,
                        info_dir: dirs.1,
                        original_path: absolute_path.to_owned(),
                        basename: self.basename(),
                        attempt: 0,
                    },
                )
            },
        }
    }
}

impl TrashAttempt {
    /// The path in the trash that this attempt renames the file to.
    pub open spec fn spec_target(&self) -> Seq<char> {
        path::child(self.files_dir@, trash_name(self.basename@, self.attempt as nat))
    }

    /// The path in the trash that this attempt renames the file to.
    pub fn target(&self) -> (r: String)
        ensures
            r@ == self.spec_target(),
    {
        let name = trash_candidate_name(self.basename.as_str(), self.attempt);
        let joined = path::path_child(
            &to_chars(self.files_dir.as_str()),
            &to_chars(name.as_str()),
        );
        from_chars(&joined)
    }

    /// The attempt that follows this one, under the next name.
    pub fn retry(self) -> (r: Self)
        requires
            self.attempt < u32::MAX,
        ensures
            r.attempt == self.attempt + 1,
            r.files_dir@ == self.files_dir@,
            r.info_dir@ == self.info_dir@,
            r.original_path@ == self.original_path@,
            r.basename@ == self.basename@,
    {
        TrashAttempt {
            files_dir: self.files_dir,
            info_dir: self.info_dir,
            original_path: self.original_path,
            basename: self.basename,
            attempt: self.attempt + 1,
        }
    }

    /// Where the record of the file goes once the file is in the trash:
    /// into the directory of records, under the name that the file has in
    /// the trash followed by `.trashinfo`. Fails exactly when the target
    /// has no file name.
    pub fn info_path(&self) -> (r: NpioResult<String>)
        ensures
            match r {
                Ok(p) => path::file_name(self.spec_target()) matches Some(name) && p@
                    == path::child(self.info_dir@, name + ".trashinfo"@),
                Err(e) => e.spec_kind() == IOErrorEnum::Failed && path::file_name(
                    self.spec_target(),
                ) is None,
            },
    {
        let target = self.target();
        match path::path_file_name(&to_chars(target.as_str())) {
            Some(name) => {
                let mut record: Vec<char> = Vec::new();
                append(&mut record, &name);
                append_str(&mut record, ".trashinfo");
                let joined = path::path_child(&to_chars(self.info_dir.as_str()), &record);
                Ok(from_chars(&joined))
            },
            None => Err(NpioError::new(IOErrorEnum::Failed, "Invalid filename")),
        }
    }

    /// The text of the record, for a file deleted at `deletion_date`.
    pub fn info_content(&self, deletion_date: &str) -> (r: String)
        ensures
            r@ == trashinfo_text(encoded_trash_path(self.original_path@), deletion_date@),
    {
        let encoded = encode_trash_path(self.original_path.as_str());
        trashinfo_content(encoded.as_str(), deletion_date)
    }

    /// The text of the record, for a file deleted now: the date is the
    /// local time of this machine.
    pub fn info_content_now(&self) -> (r: String)
        ensures
            exists|date: Seq<char>|
                r@ == trashinfo_text(encoded_trash_path(self.original_path@), date),
    {
        let date = deletion_date_now();
        self.info_content(date.as_str())
    }
}

} // verus!
