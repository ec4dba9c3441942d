//! Backends, and the registry that finds the backend of a URI.

pub mod local;
pub mod mount;
pub mod thumbnail;
pub mod udisks2;

use crate::error::{IOErrorEnum, NpioError, NpioResult};
use crate::file::File;
use crate::text::{
    append_str, contains, find, from_chars, occurs_at, slice, str_eq, to_chars,
};
use vstd::prelude::*;

verus! {

/// A backend: what realizes the file contract for one URI scheme.
pub trait Backend {
    /// The handles of this backend.
    type Handle: File;

    /// The scheme that the backend serves. A backend that does not say
    /// leaves it open.
    open spec fn spec_scheme(&self) -> Seq<char> {
        arbitrary()
    }

    /// Whether the backend gives a handle for `uri`. A backend that does
    /// not say leaves it open.
    open spec fn accepts(&self, uri: Seq<char>) -> bool {
        arbitrary()
    }

    /// The scheme that the backend serves.
    fn scheme(&self) -> (r: &'static str)
        ensures
            r@ == self.spec_scheme(),
    ;

    /// The handle of `uri`. The handle names the resource by that URI.
    fn get_file_for_uri(&self, uri: &str) -> (r: NpioResult<Self::Handle>)
        ensures
            r is Ok <==> self.accepts(uri@),
            r matches Ok(handle) ==> handle.spec_uri() == uri@,
    ;
}

/// The mark that parts a scheme from the rest of a URI.
pub open spec fn scheme_mark() -> Seq<char> {
    "://"@
}

/// The scheme of the local filesystem.
pub open spec fn local_scheme() -> Seq<char> {
    "file"@
}

/// Where the scheme of `uri` ends: at the first `://`, if there is one.
pub open spec fn scheme_end(uri: Seq<char>) -> Option<int> {
    if contains(uri, scheme_mark()) {
        Some(
            choose|i: int|
                occurs_at(uri, scheme_mark(), i) && forall|j: int|
                    0 <= j < i ==> !occurs_at(uri, scheme_mark(), j),
        )
    } else {
        None
    }
}

/// The scheme of `uri`: what stands before the first `://`, or the local
/// scheme where there is no `://`.
pub open spec fn scheme_of(uri: Seq<char>) -> Seq<char> {
    match scheme_end(uri) {
        Some(i) => uri.take(i),
        None => local_scheme(),
    }
}

/// The URI with its scheme written out: itself, or the local scheme, `://`
/// and the URI where it names no scheme.
pub open spec fn normalized(uri: Seq<char>) -> Seq<char> {
    match scheme_end(uri) {
        Some(_) => uri,
        None => local_scheme() + scheme_mark() + uri,
    }
}

/// Where the first `://` of `uri` stands.
fn find_scheme_end(uri: &Vec<char>) -> (r: Option<usize>)
    ensures
        match r {
            Some(i) => scheme_end(uri@) == Some(i as int) && i <= uri@.len(),
            None => scheme_end(uri@).is_none(),
        },
{
    let mark = to_chars("://");
    let r = find(uri, &mark);
    proof {
        match r {
            Some(i) => {
                let at = i as int;
                let chosen = scheme_end(uri@)->Some_0;
                assert(occurs_at(uri@, scheme_mark(), at));
                assert(occurs_at(uri@, scheme_mark(), chosen));
                if chosen < at {
                    assert(!occurs_at(uri@, scheme_mark(), chosen));
                }
                if at < chosen {
                    assert(!occurs_at(uri@, scheme_mark(), at));
                }
            },
            None => {},
        }
    }
    r
}

/// The scheme of `uri`.
pub fn uri_scheme(uri: &str) -> (r: String)
    ensures
        r@ == scheme_of(uri@),
{
    let chars = to_chars(uri);
    match find_scheme_end(&chars) {
        Some(i) => from_chars(&slice(&chars, 0, i)),
        None => "file".to_owned(),
    }
}

/// The URI with its scheme written out.
pub fn normalize_uri(uri: &str) -> (r: String)
    ensures
        r@ == normalized(uri@),
{
    let chars = to_chars(uri);
    match find_scheme_end(&chars) {
        Some(_) => uri.to_owned(),
        None => {
            let mut out: Vec<char> = Vec::new();
            append_str(&mut out, "file");
            append_str(&mut out, "://");
            append_str(&mut out, uri);
            from_chars(&out)
        },
    }
}

/// The position of the backend that serves `scheme`: the one registered
/// last, if several serve it.
pub open spec fn serving<B: Backend>(backends: Seq<B>, scheme: Seq<char>) -> Option<int>
    decreases backends.len(),
{
    if backends.len() == 0 {
        None
    } else if backends.last().spec_scheme() == scheme {
        Some(backends.len() - 1)
    } else {
        serving(backends.drop_last(), scheme)
    }
}

/// What `serving` finds serves the scheme, and nothing after it does.
pub proof fn lemma_serving<B: Backend>(backends: Seq<B>, scheme: Seq<char>)
    ensures
        match serving(backends, scheme) {
            Some(i) => 0 <= i < backends.len() && backends[i].spec_scheme() == scheme && forall|
                j: int,
            |
                i < j < backends.len() ==> (#[trigger] backends[j]).spec_scheme() != scheme,
            None => forall|j: int|
                0 <= j < backends.len() ==> (#[trigger] backends[j]).spec_scheme() != scheme,
        },
    decreases backends.len(),
{
    if backends.len() > 0 && backends.last().spec_scheme() != scheme {
        lemma_serving(backends.drop_last(), scheme);
        assert forall|j: int| 0 <= j < backends.len() - 1 implies backends.drop_last()[j]
            == backends[j] by {}
    }
}

/// The registry of backends, by scheme.
pub struct BackendRegistry<B: Backend> {
    backends: Vec<B>,
}

impl<B: Backend> View for BackendRegistry<B> {
    type V = Seq<B>;

    /// The backends in the order of their registration.
    closed spec fn view(&self) -> Seq<B> {
        self.backends@
    }
}

impl<B: Backend> BackendRegistry<B> {
    /// The backend that serves `scheme`, if one is registered.
    pub open spec fn backend_for(&self, scheme: Seq<char>) -> Option<B> {
        match serving(self@, scheme) {
            Some(i) => Some(self@[i]),
            None => None,
        }
    }

    /// A registry without backends.
    pub fn new() -> (r: Self)
        ensures
            r@ == Seq::<B>::empty(),
    {
        BackendRegistry { backends: Vec::new() }
    }

    /// Registers `backend` for its scheme, in place of the backend that
    /// served the scheme before. Other schemes are served as before.
    pub fn register(&mut self, backend: B)
        ensures
            final(self)@ == old(self)@.push(backend),
            final(self).backend_for(backend.spec_scheme()) == Some(backend),
            forall|scheme: Seq<char>|
                scheme != backend.spec_scheme() ==> final(self).backend_for(scheme) == old(
                    self,
                ).backend_for(scheme),
    {
        let ghost before = self.backends@;
        self.backends.push(backend);
        proof {
            let after = self.backends@;
            assert(after.drop_last() == before);
            assert forall|scheme: Seq<char>| scheme != backend.spec_scheme() implies serving(
                after,
                scheme,
            ) == serving(before, scheme) by {}
            assert forall|scheme: Seq<char>|
                scheme != backend.spec_scheme() implies self.backend_for(scheme) == old(
                self,
            ).backend_for(scheme) by {
                lemma_serving(before, scheme);
                match serving(before, scheme) {
                    Some(i) => {
                        assert(after[i] == before[i]);
                    },
                    None => {},
                }
            }
        }
    }

    /// The backend that serves `scheme`.
    pub fn get_backend(&self, scheme: &str) -> (r: Option<&B>)
        ensures
            match r {
                Some(b) => self.backend_for(scheme@) == Some(*b),
                None => self.backend_for(scheme@).is_none(),
            },
    {
        let mut i: usize = self.backends.len();
        assert(self.backends@.take(i as int) == self.backends@);
        while i > 0
            invariant
                i <= self.backends.len(),
                serving(self.backends@, scheme@) == serving(
                    self.backends@.take(i as int),
                    scheme@,
                ),
            decreases i,
        {
            proof {
                assert(self.backends@.take(i as int).last() == self.backends@[i - 1]);
                assert(self.backends@.take(i as int).drop_last() == self.backends@.take(i - 1));
            }
            if str_eq(self.backends[i - 1].scheme(), scheme) {
                return Some(&self.backends[i - 1]);
            }
            i = i - 1;
        }
        None
    }

    /// The handle of `uri`, from the backend that serves its scheme. A URI
    /// without a scheme is taken for a local one. The call fails with
    /// `NotSupported` where no backend serves the scheme, and else exactly
    /// when the backend gives no handle. The handle names the resource by
    /// the URI, with its scheme written out.
    pub fn get_file_for_uri(&self, uri: &str) -> (r: NpioResult<B::Handle>)
        ensures
            r is Ok <==> (self.backend_for(scheme_of(uri@)) matches Some(b) && b.accepts(
                normalized(uri@),
            )),
            r matches Ok(handle) ==> handle.spec_uri() == normalized(uri@),
            self.backend_for(scheme_of(uri@)) is None ==> (r matches Err(e) && e.spec_kind()
                == IOErrorEnum::NotSupported && e.spec_message()
                == "No backend found for scheme: "@ + scheme_of(uri@)),
    {
        let scheme = uri_scheme(uri);
        match self.get_backend(scheme.as_str()) {
            Some(backend) => {
                let full = normalize_uri(uri);
                backend.get_file_for_uri(full.as_str())
            },
            None => {
                let mut message: Vec<char> = Vec::new();
                append_str(&mut message, "No backend found for scheme: ");
                append_str(&mut message, scheme.as_str());
                let text = from_chars(&message);
                Err(NpioError::new(IOErrorEnum::NotSupported, text.as_str()))
            },
        }
    }
}

} // verus!
