use bump::action::{bump_text, bumped_text, init_text, init_version, print_text};
use bump::command::{Args, Command};
use bump::error::BumpError;
use bump::version::{is_valid_label, is_valid_pre_label, Identifier, Version};
use bump::version_file::VersionFile;
use bump::version_increment::VersionIncrement;

fn parsed(text: &str) -> Version {
    Version::parse(text).unwrap()
}

fn args() -> Args {
    Args {
        cmd_init: false,
        cmd_major: false,
        cmd_minor: false,
        cmd_patch: false,
        cmd_pre: false,
        arg_pre: String::new(),
        cmd_build: false,
        arg_build: String::new(),
        flag_file: None,
    }
}

#[test]
fn bare_triples_print_back_unchanged() {
    for text in ["0.0.0", "1.2.3", "10.20.30", "18446744073709551615.0.7"] {
        assert_eq!(parsed(text).to_text(), text);
        assert_eq!(print_text(text).unwrap(), text);
    }
}

#[test]
fn parse_reads_numbers_and_sections() {
    let v = parsed("1.2.3-beta.2+7.x-y");
    assert_eq!((v.major, v.minor, v.patch), (1, 2, 3));
    assert_eq!(v.pre.len(), 2);
    assert!(matches!(&v.pre[0], Identifier::AlphaNumeric(s) if s == "beta"));
    assert!(matches!(v.pre[1], Identifier::Numeric(2)));
    assert_eq!(v.build.len(), 2);
    assert!(matches!(v.build[0], Identifier::Numeric(7)));
    assert!(matches!(&v.build[1], Identifier::AlphaNumeric(s) if s == "x-y"));
    assert_eq!(v.to_text(), "1.2.3-beta.2+7.x-y");
}

#[test]
fn to_text_writes_every_section() {
    let v = Version {
        major: 4,
        minor: 0,
        patch: 19,
        pre: vec![Identifier::AlphaNumeric("rc".to_string()), Identifier::Numeric(10)],
        build: vec![Identifier::Numeric(0)],
    };
    assert_eq!(v.to_text(), "4.0.19-rc.10+0");
    let bare = Version { major: 7, minor: 8, patch: 9, pre: vec![], build: vec![] };
    assert_eq!(bare.to_text(), "7.8.9");
}

#[test]
fn increment_major_clears_sections() {
    let mut v = parsed("1.2.3-beta+7");
    v.increment_major();
    assert_eq!(v.to_text(), "2.0.0");
}

#[test]
fn increment_minor_and_patch() {
    let mut v = parsed("1.2.3");
    v.increment_minor();
    assert_eq!(v.to_text(), "1.3.0");
    let mut v = parsed("1.2.3");
    v.increment_patch();
    assert_eq!(v.to_text(), "1.2.4");
    let mut v = parsed("1.2.3-alpha+build");
    v.increment_patch();
    assert_eq!(v.to_text(), "1.2.4");
}

#[test]
fn set_pre_clears_build() {
    let mut v = parsed("1.2.3+7");
    v.set_pre("rc1".to_string());
    assert_eq!(v.to_text(), "1.2.3-rc1");
    let mut v = parsed("1.2.3-a.b");
    v.set_pre("rc2".to_string());
    assert_eq!(v.to_text(), "1.2.3-rc2");
}

#[test]
fn set_build_keeps_pre() {
    let mut v = parsed("1.2.3-rc1");
    v.set_build("7".to_string());
    assert_eq!(v.to_text(), "1.2.3-rc1+7");
    let mut v = parsed("1.2.3-rc1+old");
    v.set_build("new".to_string());
    assert_eq!(v.to_text(), "1.2.3-rc1+new");
}

#[test]
fn apply_makes_each_change() {
    let cases = [
        (VersionIncrement::Major, "2.0.0"),
        (VersionIncrement::Minor, "1.3.0"),
        (VersionIncrement::Patch, "1.2.4"),
        (VersionIncrement::Pre("rc1".to_string()), "1.2.3-rc1"),
        (VersionIncrement::Build("b5".to_string()), "1.2.3-beta+b5"),
    ];
    for (inc, expected) in cases {
        let mut v = parsed("1.2.3-beta+7");
        assert!(inc.fits(&v));
        v.apply(inc);
        assert_eq!(v.to_text(), expected);
    }
}

#[test]
fn counter_at_largest_value_does_not_fit() {
    let v = parsed("18446744073709551615.1.1");
    assert!(!VersionIncrement::Major.fits(&v));
    assert!(VersionIncrement::Minor.fits(&v));
    assert!(bumped_text(VersionIncrement::Major, v).unwrap().is_none());
    let r = bump_text(VersionIncrement::Patch, "1.1.18446744073709551615").unwrap();
    assert!(r.is_none());
    let r = bump_text(VersionIncrement::Minor, "1.18446744073709551615.3").unwrap();
    assert!(r.is_none());
    let r = bump_text(VersionIncrement::Major, "1.18446744073709551615.3").unwrap();
    assert_eq!(r.unwrap(), "2.0.0");
}

#[test]
fn not_a_version_is_a_parse_error() {
    assert!(matches!(print_text("not-a-version"), Err(BumpError::SemVer(_))));
    assert!(matches!(bump_text(VersionIncrement::Major, "not-a-version"), Err(BumpError::SemVer(_))));
    assert!(matches!(Version::parse("1.2"), Err(BumpError::SemVer(_))));
    assert!(matches!(Version::parse("01.2.3"), Err(BumpError::SemVer(_))));
    assert!(matches!(Version::parse(""), Err(BumpError::SemVer(_))));
}

#[test]
fn init_gives_zero_version() {
    assert_eq!(init_text(), "0.0.0");
    let v = init_version();
    assert_eq!((v.major, v.minor, v.patch), (0, 0, 0));
    assert!(v.pre.is_empty() && v.build.is_empty());
}

#[test]
fn init_major_print() {
    let stored = init_text();
    let stored = bump_text(VersionIncrement::Major, &stored).unwrap().unwrap();
    assert_eq!(print_text(&stored).unwrap(), "1.0.0");
}

#[test]
fn init_pre_build_print() {
    let stored = init_text();
    let stored = bump_text(VersionIncrement::Pre("rc1".to_string()), &stored).unwrap().unwrap();
    assert_eq!(stored, "0.0.0-rc1");
    let stored = bump_text(VersionIncrement::Build("7".to_string()), &stored).unwrap().unwrap();
    assert_eq!(print_text(&stored).unwrap(), "0.0.0-rc1+7");
}

#[test]
fn command_defaults_to_print_on_version_file() {
    match Command::from(args()) {
        Command::Print(f) => assert_eq!(f.path, "VERSION"),
        other => panic!("unexpected {:?}", other),
    }
}

#[test]
fn command_takes_file_flag() {
    let mut a = args();
    a.cmd_init = true;
    a.flag_file = Some("other/VERSION.txt".to_string());
    match Command::from(a) {
        Command::Init(f) => assert_eq!(f.path, "other/VERSION.txt"),
        other => panic!("unexpected {:?}", other),
    }
}

#[test]
fn command_selects_each_bump() {
    let mut a = args();
    a.cmd_major = true;
    assert!(matches!(Command::from(a), Command::Bump(VersionIncrement::Major, _)));
    let mut a = args();
    a.cmd_minor = true;
    assert!(matches!(Command::from(a), Command::Bump(VersionIncrement::Minor, _)));
    let mut a = args();
    a.cmd_patch = true;
    assert!(matches!(Command::from(a), Command::Bump(VersionIncrement::Patch, _)));
    let mut a = args();
    a.cmd_pre = true;
    a.arg_pre = "rc1".to_string();
    assert!(matches!(Command::from(a), Command::Bump(VersionIncrement::Pre(ref s), _) if s == "rc1"));
    let mut a = args();
    a.cmd_build = true;
    a.arg_build = "7".to_string();
    assert!(matches!(Command::from(a), Command::Bump(VersionIncrement::Build(ref s), _) if s == "7"));
}

#[test]
fn first_subcommand_wins() {
    let mut a = args();
    a.cmd_init = true;
    a.cmd_major = true;
    assert!(matches!(Command::from(a), Command::Init(_)));
    let mut a = args();
    a.cmd_patch = true;
    a.cmd_build = true;
    assert!(matches!(Command::from(a), Command::Bump(VersionIncrement::Patch, _)));
}

#[test]
fn version_file_keeps_path() {
    assert_eq!(VersionFile::new("a/b".to_string()).path, "a/b");
}

#[test]
fn error_kind_labels() {
    let io = BumpError::from(std::io::Error::new(std::io::ErrorKind::NotFound, "gone"));
    assert_eq!(io.kind_label(), "IO Error");
    let parse = Version::parse("x").unwrap_err();
    assert_eq!(parse.kind_label(), "SemVer Error");
}

#[test]
fn label_grammar() {
    for ok in ["rc1", "a-b-c", "-", "7", "X-9z", "007"] {
        assert!(is_valid_label(ok), "{}", ok);
    }
    for bad in ["", "a+b", "rc 1", "r\u{e9}", "a_b", "a..b", ".", "a.", "a.b"] {
        assert!(!is_valid_label(bad), "{}", bad);
        assert!(!is_valid_pre_label(bad), "{}", bad);
    }
    for ok in ["0", "7", "10", "0a", "rc1", "-0"] {
        assert!(is_valid_pre_label(ok), "{}", ok);
    }
    for bad in ["01", "00", "007"] {
        assert!(!is_valid_pre_label(bad), "{}", bad);
    }
}

#[test]
fn bad_label_is_a_parse_error() {
    for bad in ["", "a+b", "rc 1", "a..b", ".", "a."] {
        let r = bump_text(VersionIncrement::Pre(bad.to_string()), "1.2.3");
        assert!(matches!(r, Err(BumpError::SemVer(_))), "{}", bad);
        let r = bump_text(VersionIncrement::Build(bad.to_string()), "1.2.3-rc1");
        assert!(matches!(r, Err(BumpError::SemVer(_))), "{}", bad);
        let r = bumped_text(VersionIncrement::Pre(bad.to_string()), parsed("0.0.0"));
        assert!(matches!(r, Err(BumpError::SemVer(_))), "{}", bad);
    }
    let r = bump_text(VersionIncrement::Pre("01".to_string()), "1.2.3");
    assert!(matches!(r, Err(BumpError::SemVer(_))));
    let r = bump_text(VersionIncrement::Build("01".to_string()), "1.2.3");
    assert_eq!(r.unwrap().unwrap(), "1.2.3+01");
    let r = bump_text(VersionIncrement::Pre("a-b-c".to_string()), "1.2.3");
    assert_eq!(r.unwrap().unwrap(), "1.2.3-a-b-c");
}

#[test]
fn build_bump_keeps_labelled_pre_release() {
    let r = bump_text(VersionIncrement::Build("7".to_string()), "1.2.3-alpha.1+old.9");
    assert_eq!(r.unwrap().unwrap(), "1.2.3-alpha.1+7");
    let r = bump_text(VersionIncrement::Pre("rc2".to_string()), "1.2.3-alpha.1+old.9");
    assert_eq!(r.unwrap().unwrap(), "1.2.3-rc2");
    let r = bump_text(VersionIncrement::Minor, "1.2.3-alpha.1+old.9");
    assert_eq!(r.unwrap().unwrap(), "1.3.0");
}

#[test]
fn file_error_comes_before_label_error() {
    let r = bump_text(VersionIncrement::Pre("a+b".to_string()), "not-a-version");
    assert!(matches!(r, Err(BumpError::SemVer(_))));
    let r = bump_text(VersionIncrement::Patch, "not-a-version");
    assert!(matches!(r, Err(BumpError::SemVer(_))));
}

#[test]
fn labelled_versions_print_back_unchanged() {
    for text in ["0.0.0-rc1", "0.0.0-rc1+7", "1.2.3-a.b-c+007.x", "4.5.6+build.2"] {
        assert_eq!(print_text(text).unwrap(), text);
    }
}
