//! Content types: the guess by a file's name, and the icon of a type.

use crate::text::{from_chars, to_chars};
use vstd::prelude::*;

verus! {

/// The media type that `mime_guess` guesses for a path.
pub uninterp spec fn mime_guess_of(path: Seq<char>) -> Seq<char>;

/// `mime_guess::MimeGuess::from_path` looks up the extension of the path in
/// a fixed table, without access to the disk, and `first_or_octet_stream`
/// takes the first media type found there, or `application/octet-stream`:
/// the result depends on the path alone.
#[verifier::external_body]
fn guess_by_extension(path: &str) -> (r: String)
    ensures
        r@ == mime_guess_of(path@),
{
    mime_guess::MimeGuess::from_path(path).first_or_octet_stream().to_string()
}

/// The icon of a media type: the type with `-` in place of each `/`.
pub open spec fn icon_of(mime_type: Seq<char>) -> Seq<char> {
    Seq::new(
        mime_type.len(),
        |i: int|
            if mime_type[i] == '/' {
                '-'
            } else {
                mime_type[i]
            },
    )
}

/// The resolver of content types.
#[derive(Debug, Clone, Copy, PartialEq, Eq, Structural)]
pub struct MimeResolver {}

impl MimeResolver {
    /// The media type guessed for a path, by its extension alone.
    pub fn guess_mime_type(path: &str) -> (r: String)
        ensures
            r@ == mime_guess_of(path@),
    {
        guess_by_extension(path)
    }

    /// The name of the icon of a media type: `text/plain` has the icon
    /// `text-plain`.
    pub fn get_icon_name(mime_type: &str) -> (r: String)
        ensures
            r@ == icon_of(mime_type@),
    {
        let chars = to_chars(mime_type);
        let mut out: Vec<char> = Vec::new();
        let mut i: usize = 0;
        while i < chars.len()
            invariant
                i <= chars.len(),
                out@ == icon_of(chars@).take(i as int),
            decreases chars.len() - i,
        {
            let c = if chars[i] == '/' {
                '-'
            } else {
                chars[i]
            };
            out.push(c);
            assert(icon_of(chars@).take(i + 1) == icon_of(chars@).take(i as int).push(c));
            i = i + 1;
        }
        assert(icon_of(chars@).take(chars.len() as int) == icon_of(chars@));
        from_chars(&out)
    }
}

} // verus!
