//! The file that holds the version text.
use vstd::prelude::*;

verus! {

/// The path of the file that holds the version; reading and writing it is
/// left to the caller.
#[derive(Debug)]
pub struct VersionFile {
    pub path: String,
}

impl VersionFile {
    pub fn new(path: String) -> (r: VersionFile)
        ensures
            r.path@ == path@,
    {
        VersionFile { path }
    }
}

} // verus!
