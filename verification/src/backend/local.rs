//! The backend of the local filesystem.

use crate::backend::Backend;
use crate::error::{IOErrorEnum, NpioError, NpioResult};
use crate::file::local::{file_prefix, LocalFile};
use crate::file::File;
use crate::text::{from_chars, has_prefix, slice, starts_with, to_chars};
use vstd::prelude::*;

verus! {

/// The backend of the scheme `file`.
#[derive(Debug, Clone, Copy, PartialEq, Eq, Structural)]
pub struct LocalBackend {}

impl LocalBackend {
    /// The backend of the local filesystem.
    pub fn new() -> (r: Self) {
        LocalBackend {  }
    }
}

impl Default for LocalBackend {
    fn default() -> (r: Self) {
        LocalBackend::new()
    }
}

impl Backend for LocalBackend {
    type Handle = LocalFile;

    open spec fn spec_scheme(&self) -> Seq<char> {
        "file"@
    }

    /// The backend takes the URIs that start with `file://`.
    open spec fn accepts(&self, uri: Seq<char>) -> bool {
        starts_with(uri, file_prefix())
    }

    fn scheme(&self) -> (r: &'static str) {
        "file"
    }

    /// The handle of the path that follows `file://`. A URI of another
    /// scheme fails with `InvalidArg`.
    fn get_file_for_uri(&self, uri: &str) -> (r: NpioResult<LocalFile>)
        ensures
            r matches Ok(handle) ==> handle@ == uri@.skip(file_prefix().len() as int)
                && handle.is_text(),
            r matches Err(e) ==> e.spec_kind() == IOErrorEnum::InvalidArg,
    {
        let chars = to_chars(uri);
        let prefix = to_chars("file://");
        if !has_prefix(&chars, &prefix) {
            return Err(
                NpioError::new(IOErrorEnum::InvalidArg, "Invalid URI scheme for LocalBackend"),
            );
        }
        let rest = slice(&chars, prefix.len(), chars.len());
        let handle = LocalFile::new(from_chars(&rest).as_str());
        assert(handle.spec_uri() =~= uri@);
        Ok(handle)
    }
}

} // verus!
