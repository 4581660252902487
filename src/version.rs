//! The version value: its text form, its parse, and the five changes a bump
//! can make to it.
use vstd::prelude::*;
use vstd::string::StringExecFns;

use crate::error::BumpError;

verus! {

/// The character for a decimal digit `d < 10`.
pub open spec fn digit_char(d: nat) -> char {
    seq!['0', '1', '2', '3', '4', '5', '6', '7', '8', '9'][d as int]
}

/// The decimal text of `n`, without leading zeros.
pub open spec fn decimal(n: nat) -> Seq<char>
    decreases n,
{
    if n < 10 {
        seq![digit_char(n)]
    } else {
        decimal(n / 10) + seq![digit_char(n % 10)]
    }
}

/// The text of one digit.
fn digit_text(d: u64) -> (r: &'static str)
    requires
        d < 10,
    ensures
        r@ == seq![digit_char(d as nat)],
{
    let digits = "0123456789";
    proof {
        reveal_strlit("0123456789");
    }
    let r = digits.substring_char(d as usize, d as usize + 1);
    assert(r@ =~= seq![digit_char(d as nat)]);
    r
}

/// Appends the decimal text of `n` to `out`.
pub fn push_decimal(out: &mut String, n: u64)
    ensures
        final(out)@ == old(out)@ + decimal(n as nat),
{
    let mut digits: Vec<u64> = Vec::new();
    let mut m: u64 = n;
    while m >= 10
        invariant
            decimal(n as nat) == decimal(m as nat) + digits@.map_values(|d: u64| digit_char(d as nat)),
            forall|i: int| 0 <= i < digits.len() ==> digits[i] < 10,
        decreases m,
    {
        let ghost before = digits@;
        digits.insert(0, m % 10);
        assert(digits@.map_values(|d: u64| digit_char(d as nat)) =~= seq![digit_char((m % 10) as nat)]
            + before.map_values(|d: u64| digit_char(d as nat)));
        m = m / 10;
    }
    digits.insert(0, m);
    let ghost start = out@;
    assert(decimal(n as nat) =~= digits@.map_values(|d: u64| digit_char(d as nat)));
    let mut i: usize = 0;
    while i < digits.len()
        invariant
            0 <= i <= digits.len(),
            forall|j: int| 0 <= j < digits.len() ==> digits[j] < 10,
            out@ == start + digits@.map_values(|d: u64| digit_char(d as nat)).take(i as int),
        decreases digits.len() - i,
    {
        out.append(digit_text(digits[i]));
        assert(digits@.map_values(|d: u64| digit_char(d as nat)).take(i + 1) =~= digits@.map_values(
            |d: u64| digit_char(d as nat),
        ).take(i as int) + seq![digit_char(digits[i as int] as nat)]);
        i = i + 1;
    }
    assert(digits@.map_values(|d: u64| digit_char(d as nat)).take(i as int) =~= digits@.map_values(
        |d: u64| digit_char(d as nat),
    ));
}

/// One dot-separated identifier of a pre-release or build section.
#[derive(Debug)]
pub enum Identifier {
    /// An identifier made of digits alone.
    Numeric(u64),
    /// Any other identifier, kept as written.
    AlphaNumeric(String),
}

/// What an identifier stands for.
pub enum IdentifierView {
    Numeric(u64),
    AlphaNumeric(Seq<char>),
}

impl View for Identifier {
    type V = IdentifierView;

    open spec fn view(&self) -> IdentifierView {
        match self {
            Identifier::Numeric(n) => IdentifierView::Numeric(*n),
            Identifier::AlphaNumeric(s) => IdentifierView::AlphaNumeric(s@),
        }
    }
}

/// A semantic version: `major.minor.patch[-pre][+build]`.
#[derive(Debug)]
pub struct Version {
    pub major: u64,
    pub minor: u64,
    pub patch: u64,
    pub pre: Vec<Identifier>,
    pub build: Vec<Identifier>,
}

/// What a version stands for.
pub struct VersionView {
    pub major: u64,
    pub minor: u64,
    pub patch: u64,
    pub pre: Seq<IdentifierView>,
    pub build: Seq<IdentifierView>,
}

pub open spec fn identifiers_view(ids: Seq<Identifier>) -> Seq<IdentifierView> {
    ids.map_values(|i: Identifier| i@)
}

impl View for Version {
    type V = VersionView;

    open spec fn view(&self) -> VersionView {
        VersionView {
            major: self.major,
            minor: self.minor,
            patch: self.patch,
            pre: identifiers_view(self.pre@),
            build: identifiers_view(self.build@),
        }
    }
}

/// The version `major.minor.patch` with no pre-release and no build section.
pub open spec fn core_version(major: u64, minor: u64, patch: u64) -> VersionView {
    VersionView { major, minor, patch, pre: seq![], build: seq![] }
}

/// The text of one identifier.
pub open spec fn identifier_text(i: IdentifierView) -> Seq<char> {
    match i {
        IdentifierView::Numeric(n) => decimal(n as nat),
        IdentifierView::AlphaNumeric(s) => s,
    }
}

/// The texts of `ids`, joined by dots.
pub open spec fn joined_text(ids: Seq<IdentifierView>) -> Seq<char>
    decreases ids.len(),
{
    if ids.len() == 0 {
        seq![]
    } else if ids.len() == 1 {
        identifier_text(ids[0])
    } else {
        joined_text(ids.drop_last()) + seq!['.'] + identifier_text(ids.last())
    }
}

/// A pre-release or build section: nothing when `ids` is empty, else the
/// marker followed by the joined identifiers.
pub open spec fn section_text(marker: char, ids: Seq<IdentifierView>) -> Seq<char> {
    if ids.len() == 0 {
        seq![]
    } else {
        seq![marker] + joined_text(ids)
    }
}

/// The text `major.minor.patch`.
pub open spec fn core_text(major: u64, minor: u64, patch: u64) -> Seq<char> {
    decimal(major as nat) + seq!['.'] + decimal(minor as nat) + seq!['.'] + decimal(patch as nat)
}

/// The text form of a version: `major.minor.patch[-pre][+build]`.
pub open spec fn version_text(v: VersionView) -> Seq<char> {
    core_text(v.major, v.minor, v.patch) + section_text('-', v.pre) + section_text('+', v.build)
}

/// The text of a bare `major.minor.patch` version is the triple alone.
pub proof fn lemma_core_version_text(major: u64, minor: u64, patch: u64)
    ensures
        version_text(core_version(major, minor, patch)) == core_text(major, minor, patch),
{
    assert(version_text(core_version(major, minor, patch)) =~= core_text(major, minor, patch));
}

/// A character that may stand in an identifier: an ASCII letter, a digit
/// or `-`.
pub open spec fn identifier_char(c: char) -> bool {
    ('a' <= c && c <= 'z') || ('A' <= c && c <= 'Z') || ('0' <= c && c <= '9') || c == '-'
}

/// A label that is one identifier: not empty, and made of identifier
/// characters alone (no `.`, so no empty part).
pub open spec fn valid_label(s: Seq<char>) -> bool {
    s.len() > 0 && forall|i: int| 0 <= i < s.len() ==> identifier_char(#[trigger] s[i])
}

/// A text made of digits alone, written with a leading zero.
pub open spec fn zero_padded_number(s: Seq<char>) -> bool {
    &&& s.len() > 1
    &&& s[0] == '0'
    &&& forall|i: int| 0 <= i < s.len() ==> '0' <= #[trigger] s[i] && s[i] <= '9'
}

/// A label that is one pre-release identifier: a valid label that is not a
/// number with a leading zero.
pub open spec fn valid_pre_label(s: Seq<char>) -> bool {
    valid_label(s) && !zero_padded_number(s)
}

/// An identifier whose text reads back as the same text.
pub open spec fn printable_identifier(i: IdentifierView) -> bool {
    match i {
        IdentifierView::Numeric(_) => true,
        IdentifierView::AlphaNumeric(s) => valid_label(s),
    }
}

/// A version whose identifiers all read back as the same text.
pub open spec fn printable(v: VersionView) -> bool {
    &&& forall|i: int| 0 <= i < v.pre.len() ==> printable_identifier(#[trigger] v.pre[i])
    &&& forall|i: int| 0 <= i < v.build.len() ==> printable_identifier(#[trigger] v.build[i])
}

/// A text whose first character is an ASCII letter, which no version starts with.
pub open spec fn starts_with_letter(s: Seq<char>) -> bool {
    s.len() > 0 && (('a' <= s[0] && s[0] <= 'z') || ('A' <= s[0] && s[0] <= 'Z'))
}

/// A bare `major.minor.patch` version reads back as the same text.
pub proof fn lemma_core_version_printable(major: u64, minor: u64, patch: u64)
    ensures
        printable(core_version(major, minor, patch)),
{
}

/// Whether `label` is one identifier, as a build label must be.
pub fn is_valid_label(label: &str) -> (r: bool)
    ensures
        r == valid_label(label@),
{
    let n = label.unicode_len();
    if n == 0 {
        return false;
    }
    let mut i: usize = 0;
    while i < n
        invariant
            0 <= i <= n,
            n == label@.len(),
            forall|j: int| 0 <= j < i ==> identifier_char(#[trigger] label@[j]),
        decreases n - i,
    {
        let c = label.get_char(i);
        let ok = ('a' <= c && c <= 'z') || ('A' <= c && c <= 'Z') || ('0' <= c && c <= '9') || c
            == '-';
        if !ok {
            return false;
        }
        i = i + 1;
    }
    true
}

/// Whether `label` is one pre-release identifier: a valid label that is not
/// a number with a leading zero.
pub fn is_valid_pre_label(label: &str) -> (r: bool)
    ensures
        r == valid_pre_label(label@),
{
    if !is_valid_label(label) {
        return false;
    }
    let n = label.unicode_len();
    if n < 2 || label.get_char(0) != '0' {
        return true;
    }
    let mut i: usize = 0;
    while i < n
        invariant
            0 <= i <= n,
            n == label@.len(),
            valid_label(label@),
            forall|j: int| 0 <= j < i ==> '0' <= #[trigger] label@[j] && label@[j] <= '9',
        decreases n - i,
    {
        let c = label.get_char(i);
        if !('0' <= c && c <= '9') {
            assert(label@[i as int] == c);
            return true;
        }
        i = i + 1;
    }
    false
}

/// What semver's parser makes of a text: the version, or `None` where it
/// refuses the text.
pub uninterp spec fn semver_parse(text: Seq<char>) -> Option<VersionView>;

/// Relies on `semver::Version::parse` (semver 0.9): its outcome depends on the
/// text alone, and a bare `major.minor.patch` triple in plain decimal (the
/// first branch of `numeric_identifier` takes a lone `0`, the second a run of
/// digits) parses to those numbers with no pre-release or build identifiers.
/// The text of a version whose identifiers are numbers or non-empty runs of
/// letters, digits and `-` parses back: `parse_optional_meta` takes each
/// section whole (the pre-release one stops at `+`), and `parse_meta` keeps
/// each dot-separated part as written, or as a number where it is one without
/// a leading zero, so the numbers and the text of each section stay the same. A text that starts with a letter is refused: no
/// `numeric_identifier` starts there.
#[verifier::external_body]
fn parse_semver(text: &str) -> (r: Result<Version, semver::SemVerError>)
    ensures
        match r {
            Ok(v) => semver_parse(text@) == Some(v@),
            Err(_) => semver_parse(text@) is None,
        },
        forall|major: u64, minor: u64, patch: u64|
            #[trigger] core_text(major, minor, patch) == text@ ==> r is Ok && r->Ok_0@
                == core_version(major, minor, patch),
        forall|v: VersionView|
            #[trigger] version_text(v) == text@ && printable(v) ==> {
                &&& r is Ok
                &&& r->Ok_0.major == v.major && r->Ok_0.minor == v.minor && r->Ok_0.patch == v.patch
                &&& section_text('-', r->Ok_0@.pre) == section_text('-', v.pre)
                &&& section_text('+', r->Ok_0@.build) == section_text('+', v.build)
            },
        starts_with_letter(text@) ==> r is Err,
{
    let v = semver::Version::parse(text)?;
    let id = |i: semver::Identifier| match i {
        semver::Identifier::Numeric(n) => Identifier::Numeric(n),
        semver::Identifier::AlphaNumeric(s) => Identifier::AlphaNumeric(s),
    };
    let (pre, build) = (v.pre.into_iter().map(id).collect(), v.build.into_iter().map(id).collect());
    Ok(Version { major: v.major, minor: v.minor, patch: v.patch, pre, build })
}

impl Identifier {
    /// Appends the text of this identifier to `out`.
    pub fn push_text(&self, out: &mut String)
        ensures
            final(out)@ == old(out)@ + identifier_text(self@),
    {
        match self {
            Identifier::Numeric(n) => push_decimal(out, *n),
            Identifier::AlphaNumeric(s) => out.append(s.as_str()),
        }
    }
}

/// Appends the section of `ids` that starts with `marker` (`"-"` or `"+"`).
fn push_section(out: &mut String, marker: &str, ids: &Vec<Identifier>)
    requires
        marker@.len() == 1,
    ensures
        final(out)@ == old(out)@ + section_text(marker@[0], identifiers_view(ids@)),
{
    let ghost start = out@;
    let ghost view = identifiers_view(ids@);
    if ids.len() == 0 {
        assert(out@ =~= start + section_text(marker@[0], view));
        return;
    }
    out.append(marker);
    let mut i: usize = 0;
    while i < ids.len()
        invariant
            0 <= i <= ids.len(),
            view == identifiers_view(ids@),
            out@ == start + marker@ + joined_text(view.take(i as int)),
        decreases ids.len() - i,
    {
        let ghost before = out@;
        proof {
            reveal_strlit(".");
        }
        if i != 0 {
            out.append(".");
        }
        ids[i].push_text(out);
        assert(view.take(i + 1).drop_last() =~= view.take(i as int));
        assert(view.take(i + 1).last() == ids[i as int]@);
        if i == 0 {
            assert(view.take(1)[0] == ids[0]@);
            assert(joined_text(view.take(0)) =~= seq![]);
            assert(before =~= start + marker@);
        } else {
            assert("."@ =~= seq!['.']);
        }
        assert(out@ =~= start + marker@ + joined_text(view.take(i + 1)));
        i = i + 1;
    }
    assert(view.take(i as int) =~= view);
    assert(marker@ =~= seq![marker@[0]]);
    assert(out@ =~= start + section_text(marker@[0], view));
}

impl Version {
    /// The text form of this version, `major.minor.patch[-pre][+build]`.
    pub fn to_text(&self) -> (r: String)
        ensures
            r@ == version_text(self@),
    {
        proof {
            reveal_strlit(".");
            reveal_strlit("-");
            reveal_strlit("+");
        }
        let mut out = String::new();
        push_decimal(&mut out, self.major);
        out.append(".");
        push_decimal(&mut out, self.minor);
        out.append(".");
        push_decimal(&mut out, self.patch);
        push_section(&mut out, "-", &self.pre);
        push_section(&mut out, "+", &self.build);
        assert(out@ =~= version_text(self@));
        out
    }

    /// Moves to the next major version: `major + 1`, minor and patch reset
    /// to zero, both sections cleared.
    pub fn increment_major(&mut self)
        requires
            old(self).major < u64::MAX,
        ensures
            final(self)@ == (VersionView {
                major: (old(self).major + 1) as u64,
                minor: 0,
                patch: 0,
                pre: seq![],
                build: seq![],
            }),
    {
        self.major = self.major + 1;
        self.minor = 0;
        self.patch = 0;
        self.pre = Vec::new();
        self.build = Vec::new();
        assert(identifiers_view(self.pre@) =~= seq![]);
        assert(identifiers_view(self.build@) =~= seq![]);
    }

    /// Moves to the next minor version: `minor + 1`, patch reset to zero,
    /// both sections cleared.
    pub fn increment_minor(&mut self)
        requires
            old(self).minor < u64::MAX,
        ensures
            final(self)@ == (VersionView {
                major: old(self).major,
                minor: (old(self).minor + 1) as u64,
                patch: 0,
                pre: seq![],
                build: seq![],
            }),
    {
        self.minor = self.minor + 1;
        self.patch = 0;
        self.pre = Vec::new();
        self.build = Vec::new();
        assert(identifiers_view(self.pre@) =~= seq![]);
        assert(identifiers_view(self.build@) =~= seq![]);
    }

    /// Moves to the next patch version: `patch + 1`, both sections cleared.
    pub fn increment_patch(&mut self)
        requires
            old(self).patch < u64::MAX,
        ensures
            final(self)@ == (VersionView {
                major: old(self).major,
                minor: old(self).minor,
                patch: (old(self).patch + 1) as u64,
                pre: seq![],
                build: seq![],
            }),
    {
        self.patch = self.patch + 1;
        self.pre = Vec::new();
        self.build = Vec::new();
        assert(identifiers_view(self.pre@) =~= seq![]);
        assert(identifiers_view(self.build@) =~= seq![]);
    }

    /// Replaces the pre-release section with the single identifier `label`
    /// and clears the build section.
    pub fn set_pre(&mut self, label: String)
        ensures
            final(self)@ == (VersionView {
                major: old(self).major,
                minor: old(self).minor,
                patch: old(self).patch,
                pre: seq![IdentifierView::AlphaNumeric(label@)],
                build: seq![],
            }),
    {
        self.pre = vec![Identifier::AlphaNumeric(label)];
        self.build = Vec::new();
        assert(identifiers_view(self.pre@) =~= seq![IdentifierView::AlphaNumeric(label@)]);
        assert(identifiers_view(self.build@) =~= seq![]);
    }

    /// Replaces the build section with the single identifier `label`; the
    /// pre-release section stays.
    pub fn set_build(&mut self, label: String)
        ensures
            final(self)@ == (VersionView {
                major: old(self).major,
                minor: old(self).minor,
                patch: old(self).patch,
                pre: old(self)@.pre,
                build: seq![IdentifierView::AlphaNumeric(label@)],
            }),
    {
        self.build = vec![Identifier::AlphaNumeric(label)];
        assert(identifiers_view(self.build@) =~= seq![IdentifierView::AlphaNumeric(label@)]);
    }

    /// Parses the text form of a version.
    ///
    /// A bare `major.minor.patch` triple in plain decimal parses to those
    /// numbers, and printing it gives the same text back. So does the text of
    /// any version whose identifiers are numbers or valid labels.
    pub fn parse(text: &str) -> (r: Result<Version, BumpError>)
        ensures
            match r {
                Ok(v) => semver_parse(text@) == Some(v@),
                Err(e) => semver_parse(text@) is None && e is SemVer,
            },
            forall|major: u64, minor: u64, patch: u64|
                #[trigger] core_text(major, minor, patch) == text@ ==> {
                    &&& r is Ok
                    &&& r->Ok_0@ == core_version(major, minor, patch)
                    &&& version_text(r->Ok_0@) == text@
                },
            forall|v: VersionView|
                #[trigger] version_text(v) == text@ && printable(v) ==> {
                    &&& r is Ok
                    &&& r->Ok_0.major == v.major && r->Ok_0.minor == v.minor && r->Ok_0.patch
                        == v.patch
                    &&& section_text('-', r->Ok_0@.pre) == section_text('-', v.pre)
                    &&& section_text('+', r->Ok_0@.build) == section_text('+', v.build)
                    &&& version_text(r->Ok_0@) == text@
                },
            starts_with_letter(text@) ==> r is Err && r->Err_0 is SemVer,
    {
        match parse_semver(text) {
            Ok(v) => {
                proof {
                    assert forall|major: u64, minor: u64, patch: u64|
                        #[trigger] core_text(major, minor, patch) == text@ implies version_text(
                        v@,
                    ) == text@ by {
                        lemma_core_version_text(major, minor, patch);
                    }
                }
                Ok(v)
            },
            Err(e) => Err(BumpError::SemVer(e)),
        }
    }
}

} // verus!
