//! The change a bump makes to a version.
use vstd::prelude::*;

use crate::version::{
    version_text,
    is_valid_label, is_valid_pre_label, printable, section_text, valid_label, valid_pre_label, IdentifierView, Version, VersionView,
};

verus! {

/// Which change a bump makes.
#[derive(Debug)]
pub enum VersionIncrement {
    Major,
    Minor,
    Patch,
    /// Replace the pre-release section with this label.
    Pre(String),
    /// Replace the build section with this label.
    Build(String),
}

/// Whether the counter that `inc` raises is below its largest value.
pub open spec fn increment_fits(inc: VersionIncrement, v: VersionView) -> bool {
    match inc {
        VersionIncrement::Major => v.major < u64::MAX,
        VersionIncrement::Minor => v.minor < u64::MAX,
        VersionIncrement::Patch => v.patch < u64::MAX,
        _ => true,
    }
}

/// Whether the label that `inc` sets, if any, is one identifier of the
/// section it goes to.
pub open spec fn label_conforms(inc: VersionIncrement) -> bool {
    match inc {
        VersionIncrement::Pre(label) => valid_pre_label(label@),
        VersionIncrement::Build(label) => valid_label(label@),
        _ => true,
    }
}

/// The version that `inc` makes of `v`.
pub open spec fn incremented(inc: VersionIncrement, v: VersionView) -> VersionView {
    match inc {
        VersionIncrement::Major => VersionView {
            major: (v.major + 1) as u64,
            minor: 0,
            patch: 0,
            pre: seq![],
            build: seq![],
        },
        VersionIncrement::Minor => VersionView {
            minor: (v.minor + 1) as u64,
            patch: 0,
            pre: seq![],
            build: seq![],
            ..v
        },
        VersionIncrement::Patch => VersionView {
            patch: (v.patch + 1) as u64,
            pre: seq![],
            build: seq![],
            ..v
        },
        VersionIncrement::Pre(label) => VersionView {
            pre: seq![IdentifierView::AlphaNumeric(label@)],
            build: seq![],
            ..v
        },
        VersionIncrement::Build(label) => VersionView {
            build: seq![IdentifierView::AlphaNumeric(label@)],
            ..v
        },
    }
}

/// A change whose label conforms keeps a version's identifiers readable:
/// what a bump stores prints back as the same text.
pub proof fn lemma_increment_keeps_printable(inc: VersionIncrement, v: VersionView)
    requires
        printable(v),
        label_conforms(inc),
    ensures
        printable(incremented(inc, v)),
{
}

/// A change depends on a version only through its numbers and the text of
/// its sections.
pub proof fn lemma_increment_same_text(inc: VersionIncrement, a: VersionView, b: VersionView)
    requires
        a.major == b.major && a.minor == b.minor && a.patch == b.patch,
        section_text('-', a.pre) == section_text('-', b.pre),
        section_text('+', a.build) == section_text('+', b.build),
    ensures
        increment_fits(inc, a) == increment_fits(inc, b),
        version_text(incremented(inc, a)) == version_text(incremented(inc, b)),
{
}

impl VersionIncrement {
    /// Whether the label this change sets, if any, conforms to the grammar.
    pub fn label_is_valid(&self) -> (r: bool)
        ensures
            r == label_conforms(*self),
    {
        match self {
            VersionIncrement::Pre(label) => is_valid_pre_label(label.as_str()),
            VersionIncrement::Build(label) => is_valid_label(label.as_str()),
            _ => true,
        }
    }

    /// Whether this change can be made to `v` without a counter overflowing.
    pub fn fits(&self, v: &Version) -> (r: bool)
        ensures
            r == increment_fits(*self, v@),
    {
        match self {
            VersionIncrement::Major => v.major < u64::MAX,
            VersionIncrement::Minor => v.minor < u64::MAX,
            VersionIncrement::Patch => v.patch < u64::MAX,
            _ => true,
        }
    }
}

impl Version {
    /// Makes the change `inc` to this version.
    pub fn apply(&mut self, inc: VersionIncrement)
        requires
            increment_fits(inc, old(self)@),
        ensures
            final(self)@ == incremented(inc, old(self)@),
    {
        match inc {
            VersionIncrement::Major => self.increment_major(),
            VersionIncrement::Minor => self.increment_minor(),
            VersionIncrement::Patch => self.increment_patch(),
            VersionIncrement::Pre(label) => self.set_pre(label),
            VersionIncrement::Build(label) => self.set_build(label),
        }
    }
}

} // verus!
