//! Turns the parsed command line into the one action to run.
use vstd::prelude::*;
use vstd::string::StringExecFns;

use crate::version_file::VersionFile;
use crate::version_increment::VersionIncrement;

verus! {

/// The command line as parsed: which subcommand was given, its label, and
/// the file path if one was given.
#[derive(Debug)]
pub struct Args {
    pub cmd_init: bool,
    pub cmd_major: bool,
    pub cmd_minor: bool,
    pub cmd_patch: bool,
    pub cmd_pre: bool,
    pub arg_pre: String,
    pub cmd_build: bool,
    pub arg_build: String,
    pub flag_file: Option<String>,
}

/// The action to run, with the file it works on.
#[derive(Debug)]
pub enum Command {
    Init(VersionFile),
    Print(VersionFile),
    Bump(VersionIncrement, VersionFile),
}

/// The path used when the command line names none.
pub open spec fn default_path() -> Seq<char> {
    seq!['V', 'E', 'R', 'S', 'I', 'O', 'N']
}

/// The path of the version file that `args` selects.
pub open spec fn selected_path(args: Args) -> Seq<char> {
    match args.flag_file {
        Some(p) => p@,
        None => default_path(),
    }
}

impl Command {
    /// The version file this command works on.
    pub open spec fn file_spec(&self) -> VersionFile {
        match self {
            Command::Init(f) => *f,
            Command::Print(f) => *f,
            Command::Bump(_, f) => *f,
        }
    }
}

impl From<Args> for Command {
    /// The first subcommand given, in the order init, major, minor, patch,
    /// pre, build, selects the action; with none, the version is printed.
    fn from(args: Args) -> (r: Command)
        ensures
            r.file_spec().path@ == selected_path(args),
            args.cmd_init ==> r is Init,
            !args.cmd_init && args.cmd_major ==> r is Bump && r->Bump_0 is Major,
            !args.cmd_init && !args.cmd_major && args.cmd_minor ==> r is Bump && r->Bump_0 is Minor,
            !args.cmd_init && !args.cmd_major && !args.cmd_minor && args.cmd_patch ==> r is Bump
                && r->Bump_0 is Patch,
            !args.cmd_init && !args.cmd_major && !args.cmd_minor && !args.cmd_patch && args.cmd_pre
                ==> r is Bump && r->Bump_0 is Pre && r->Bump_0->Pre_0@ == args.arg_pre@,
            !args.cmd_init && !args.cmd_major && !args.cmd_minor && !args.cmd_patch && !args.cmd_pre
                && args.cmd_build ==> r is Bump && r->Bump_0 is Build && r->Bump_0->Build_0@
                == args.arg_build@,
            !args.cmd_init && !args.cmd_major && !args.cmd_minor && !args.cmd_patch && !args.cmd_pre
                && !args.cmd_build ==> r is Print,
    {
        let version_path = match args.flag_file {
            Some(p) => p,
            None => {
                proof {
                    reveal_strlit("VERSION");
                }
                let p = String::from_str("VERSION");
                assert(p@ =~= default_path());
                p
            },
        };
        let version_file = VersionFile::new(version_path);
        if args.cmd_init {
            return Command::Init(version_file);
        }
        if args.cmd_major {
            return Command::Bump(VersionIncrement::Major, version_file);
        }
        if args.cmd_minor {
            return Command::Bump(VersionIncrement::Minor, version_file);
        }
        if args.cmd_patch {
            return Command::Bump(VersionIncrement::Patch, version_file);
        }
        if args.cmd_pre {
            return Command::Bump(VersionIncrement::Pre(args.arg_pre), version_file);
        }
        if args.cmd_build {
            return Command::Bump(VersionIncrement::Build(args.arg_build), version_file);
        }
        Command::Print(version_file)
    }
}

/// The resolved command is stated by `from` itself: a spec value cannot hold
/// the `String`s it is built from.
impl vstd::std_specs::convert::FromSpecImpl<Args> for Command {
    open spec fn obeys_from_spec() -> bool {
        false
    }

    open spec fn from_spec(args: Args) -> Command {
        arbitrary()
    }
}

} // verus!
