//! The two ways a run can fail: the file could not be read or written, or
//! its text is no semantic version.
use vstd::prelude::*;

verus! {

/// The error that `std::fs` and `std::io` report; carried through unchanged.
#[verifier::external_type_specification]
#[verifier::external_body]
pub struct ExIoError(std::io::Error);

/// The error that semver's parser reports; carried through unchanged.
#[verifier::external_type_specification]
#[verifier::external_body]
pub struct ExSemVerError(semver::SemVerError);

/// Why a command failed.
#[derive(Debug)]
pub enum BumpError {
    /// The version file could not be opened, read or written.
    Io(std::io::Error),
    /// The text is not a semantic version.
    SemVer(semver::SemVerError),
}

impl BumpError {
    /// The name of the kind of failure, shown before the underlying message.
    pub fn kind_label(&self) -> (r: &'static str)
        ensures
            self is Io ==> r@ == "IO Error"@,
            self is SemVer ==> r@ == "SemVer Error"@,
    {
        match self {
            BumpError::Io(_) => "IO Error",
            BumpError::SemVer(_) => "SemVer Error",
        }
    }
}

/// Relies on `semver::SemVerError::ParseError`, the error semver's parser
/// reports; it carries `message` as the description of the invalid input.
#[verifier::external_body]
pub(crate) fn semver_error(message: String) -> (r: semver::SemVerError) {
    semver::SemVerError::ParseError(message)
}

impl From<std::io::Error> for BumpError {
    fn from(e: std::io::Error) -> (r: BumpError) {
        BumpError::Io(e)
    }
}

impl vstd::std_specs::convert::FromSpecImpl<std::io::Error> for BumpError {
    open spec fn obeys_from_spec() -> bool {
        true
    }

    open spec fn from_spec(e: std::io::Error) -> BumpError {
        BumpError::Io(e)
    }
}

impl From<semver::SemVerError> for BumpError {
    fn from(e: semver::SemVerError) -> (r: BumpError) {
        BumpError::SemVer(e)
    }
}

impl vstd::std_specs::convert::FromSpecImpl<semver::SemVerError> for BumpError {
    open spec fn obeys_from_spec() -> bool {
        true
    }

    open spec fn from_spec(e: semver::SemVerError) -> BumpError {
        BumpError::SemVer(e)
    }
}

} // verus!
