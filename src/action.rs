//! What each action computes. Reading and writing the file is left to the
//! caller, which hands over the file's text and stores the text returned.
use vstd::prelude::*;
use vstd::string::StringExecFns;

use crate::error::{semver_error, BumpError};
use crate::version::{
    core_text, core_version, printable, semver_parse, starts_with_letter, version_text, Version,
    VersionView,
};
use crate::version_increment::{
    increment_fits, incremented, label_conforms, lemma_increment_same_text, VersionIncrement,
};

verus! {

/// The version a new file starts at: `0.0.0`.
pub fn init_version() -> (r: Version)
    ensures
        r@ == core_version(0, 0, 0),
        version_text(r@) == "0.0.0"@,
{
    proof {
        reveal_strlit("0.0.0");
        assert("0.0.0"@ =~= core_text(0, 0, 0));
    }
    match Version::parse("0.0.0") {
        Ok(v) => v,
        Err(_) => {
            assert(false);
            Version { major: 0, minor: 0, patch: 0, pre: Vec::new(), build: Vec::new() }
        },
    }
}

/// The text an initialised file holds, whatever it held before: `0.0.0`.
pub fn init_text() -> (r: String)
    ensures
        r@ == "0.0.0"@,
{
    init_version().to_text()
}

/// The text to print for a file that holds `contents`.
///
/// A file that holds the text of a version whose identifiers are numbers or
/// valid labels, a bare `major.minor.patch` triple among them, prints as it
/// stands.
pub fn print_text(contents: &str) -> (r: Result<String, BumpError>)
    ensures
        match semver_parse(contents@) {
            Some(v) => r is Ok && r->Ok_0@ == version_text(v),
            None => r is Err && r->Err_0 is SemVer,
        },
        forall|major: u64, minor: u64, patch: u64|
            #[trigger] core_text(major, minor, patch) == contents@ ==> r is Ok && r->Ok_0@
                == contents@,
        forall|v: VersionView|
            #[trigger] version_text(v) == contents@ && printable(v) ==> r is Ok && r->Ok_0@
                == contents@,
        starts_with_letter(contents@) ==> r is Err && r->Err_0 is SemVer,
{
    let version = Version::parse(contents)?;
    Ok(version.to_text())
}

/// What bumping the version `v` by `inc` gives: a parse error when the label
/// breaks the grammar, `Ok(None)` when the counter to raise is already at its
/// largest value, else the text of the new version.
pub open spec fn bumped_as(
    inc: VersionIncrement,
    v: VersionView,
    r: Result<Option<String>, BumpError>,
) -> bool {
    if !label_conforms(inc) {
        r is Err && r->Err_0 is SemVer
    } else if !increment_fits(inc, v) {
        r is Ok && r->Ok_0 is None
    } else {
        r is Ok && r->Ok_0 is Some && r->Ok_0->Some_0@ == version_text(incremented(inc, v))
    }
}

/// The text that bumping `version` by `inc` stores and prints.
pub fn bumped_text(inc: VersionIncrement, version: Version) -> (r: Result<
    Option<String>,
    BumpError,
>)
    ensures
        bumped_as(inc, version@, r),
{
    if !inc.label_is_valid() {
        let message = String::from_str("invalid pre-release or build label");
        return Err(BumpError::SemVer(semver_error(message)));
    }
    if !inc.fits(&version) {
        return Ok(None);
    }
    let mut version = version;
    version.apply(inc);
    Ok(Some(version.to_text()))
}

/// The text that bumping a file that holds `contents` by `inc` stores and
/// prints; `Ok(None)` when the counter to raise is already at its largest
/// value, so that nothing is to be written. The file is parsed before the
/// label is checked. For a file that holds the text of a version whose
/// identifiers are numbers or valid labels, the result is that of bumping
/// that version.
pub fn bump_text(inc: VersionIncrement, contents: &str) -> (r: Result<Option<String>, BumpError>)
    ensures
        match semver_parse(contents@) {
            Some(v) => bumped_as(inc, v, r),
            None => r is Err && r->Err_0 is SemVer,
        },
        forall|major: u64, minor: u64, patch: u64|
            #[trigger] core_text(major, minor, patch) == contents@ ==> bumped_as(
                inc,
                core_version(major, minor, patch),
                r,
            ),
        forall|v: VersionView|
            #[trigger] version_text(v) == contents@ && printable(v) ==> bumped_as(inc, v, r),
        starts_with_letter(contents@) ==> r is Err && r->Err_0 is SemVer,
{
    let version = Version::parse(contents)?;
    let ghost parsed = version@;
    let ghost change = inc;
    let r = bumped_text(inc, version);
    proof {
        assert forall|v: VersionView|
            #[trigger] version_text(v) == contents@ && printable(v) implies bumped_as(
            change,
            v,
            r,
        ) by {
            lemma_increment_same_text(change, parsed, v);
        }
    }
    r
}

} // verus!
