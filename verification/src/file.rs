//! The file contract: what every handle offers, whatever backend owns it.

pub mod local;
pub mod query;
pub mod trash;

use vstd::prelude::*;

verus! {

/// Flags for metadata queries.
#[derive(Debug, Clone, Copy, PartialEq, Eq, Structural)]
pub struct FileQueryInfoFlags {
    bits: u32,
}

impl FileQueryInfoFlags {
    /// The bits of the flags.
    pub closed spec fn spec_bits(&self) -> u32 {
        self.bits
    }

    /// No flag.
    pub fn none() -> (r: Self)
        ensures
            r.spec_bits() == 0,
    {
        FileQueryInfoFlags { bits: 0 }
    }

    /// Symbolic links are not followed.
    pub fn nofollow_symlinks() -> (r: Self)
        ensures
            r.spec_bits() == 1,
    {
        FileQueryInfoFlags { bits: 1 }
    }

    /// The bits of the flags.
    pub fn bits(&self) -> (r: u32)
        ensures
            r == self.spec_bits(),
    {
        self.bits
    }
}

/// A handle that names a resource by URI. A handle does not imply that the
/// resource exists.
pub trait File: Sized {
    /// The URI of the handle. A handle that does not say leaves it open.
    open spec fn spec_uri(&self) -> Seq<char> {
        arbitrary()
    }

    /// The URI of the handle.
    fn uri(&self) -> (r: String)
        ensures
            r@ == self.spec_uri(),
    ;

    /// The last name of the handle's path.
    fn basename(&self) -> String;

    /// The handle of the directory that holds this one, if there is one.
    fn parent(&self) -> Option<Self>;

    /// The handle of `name` under this one.
    fn child(&self, name: &str) -> Self;
}

} // verus!
