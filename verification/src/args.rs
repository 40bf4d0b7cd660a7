//! The command line: what was asked, and the usage text.

use vstd::prelude::*;
use vstd::string::*;
use crate::error::{error_line, ErrorKind, EXIT_FAILURE, EXIT_HELP};

verus! {

/// What a command line asks for.
#[derive(Clone, Copy, Debug, PartialEq, Eq, Structural)]
pub enum Invocation {
    /// No file argument: an error.
    Missing,
    /// The usage text.
    Help,
    /// The rename of the file named by the first argument.
    Target,
}

/// Whether `arg` is one of the two help flags.
pub open spec fn is_help_flag(arg: Seq<char>) -> bool {
    arg == "-h"@ || arg == "--help"@
}

/// What the command line `args` asks for. `args[0]` is the program's name;
/// only `args[1]` is read.
pub open spec fn invocation_of(args: Seq<String>) -> Invocation {
    if args.len() < 2 {
        Invocation::Missing
    } else if is_help_flag(args[1]@) {
        Invocation::Help
    } else {
        Invocation::Target
    }
}

/// The version in the usage text.
pub open spec fn version_text() -> Seq<char> {
    "0.1.0"@
}

/// The usage text, with the newline that ends each of its lines.
pub open spec fn usage_text() -> Seq<char> {
    "dtren v"@ + version_text() + "\n\n"@
        + "Usage: dtren <file>\n\nRename a file by appending its modified timestamp to the name.\n"@
}

/// What is printed to the error stream before a run has begun: for a missing
/// argument the error line and the usage text, for help the usage text.
pub open spec fn notice_text(invocation: Invocation) -> Option<Seq<char>> {
    match invocation {
        Invocation::Missing => Some(
            error_line(ErrorKind::MissingArgument, Seq::empty(), Seq::empty(), Seq::empty())
                + "\n"@ + usage_text(),
        ),
        Invocation::Help => Some(usage_text()),
        Invocation::Target => None,
    }
}

/// The exit status known before the run: 2 for a missing argument, 1 for
/// help, none yet for a rename.
pub open spec fn early_exit(invocation: Invocation) -> Option<i32> {
    match invocation {
        Invocation::Missing => Some(2i32),
        Invocation::Help => Some(1i32),
        Invocation::Target => None,
    }
}

/// Tests whether two texts hold the same characters.
pub fn same_text(a: &str, b: &str) -> (same: bool)
    ensures
        same == (a@ == b@),
{
    let len: usize = a.unicode_len();
    if b.unicode_len() != len {
        return false;
    }
    let mut i: usize = 0;
    while i < len
        invariant
            a@.len() == len,
            b@.len() == len,
            i <= len,
            forall|j: int| 0 <= j < i ==> a@[j] == b@[j],
        decreases len - i,
    {
        if a.get_char(i) != b.get_char(i) {
            return false;
        }
        i = i + 1;
    }
    proof {
        assert(a@ =~= b@);
    }
    true
}

/// The program's version.
pub fn version() -> (text: &'static str)
    ensures
        text@ == version_text(),
{
    "0.1.0"
}

/// The usage text.
pub fn usage() -> (text: String)
    ensures
        text@ == usage_text(),
{
    let mut text = String::from_str("dtren v");
    text.append(version());
    text.append("\n\n");
    text.append(
        "Usage: dtren <file>\n\nRename a file by appending its modified timestamp to the name.\n",
    );
    text
}

/// Reads the command line. Fewer than two entries is a missing argument; a
/// help flag in second place asks for the usage text; anything else there
/// names the file.
pub fn parse_args(args: &Vec<String>) -> (invocation: Invocation)
    ensures
        invocation == invocation_of(args@),
        args@.len() < 2 ==> invocation == Invocation::Missing,
{
    if args.len() < 2 {
        Invocation::Missing
    } else if same_text(args[1].as_str(), "-h") || same_text(args[1].as_str(), "--help") {
        Invocation::Help
    } else {
        Invocation::Target
    }
}

/// A command line without a file argument ends the run with exit status 2,
/// and the error line for the missing argument is printed before the usage
/// text.
pub proof fn law_missing_argument(args: Seq<String>)
    requires
        args.len() < 2,
    ensures
        invocation_of(args) == Invocation::Missing,
        early_exit(invocation_of(args)) == Some(2i32),
        notice_text(invocation_of(args)) == Some(
            "error: "@ + "missing file argument"@ + "\n"@ + usage_text(),
        ),
{
    assert(error_line(ErrorKind::MissingArgument, Seq::empty(), Seq::empty(), Seq::empty())
        =~= "error: "@ + "missing file argument"@);
}

/// A help flag in second place ends the run with exit status 1 whatever
/// follows it, and the usage text is what is printed: it opens with the
/// program's name and version, and the usage line and the description
/// follow.
pub proof fn law_help(args: Seq<String>)
    requires
        args.len() >= 2,
        args[1]@ == "-h"@ || args[1]@ == "--help"@,
    ensures
        invocation_of(args) == Invocation::Help,
        early_exit(invocation_of(args)) == Some(1i32),
        notice_text(invocation_of(args)) == Some(usage_text()),
        usage_text().subrange(0, 7) == "dtren v"@,
{
    reveal_strlit("dtren v");
    assert(usage_text().subrange(0, 7) =~= "dtren v"@);
}

impl Invocation {
    /// The exit status known before the run: 2 for a missing argument, 1 for
    /// help, none yet for a rename.
    pub fn exit_code(self) -> (code: Option<i32>)
        ensures
            code == early_exit(self),
    {
        match self {
            Invocation::Missing => Some(EXIT_FAILURE),
            Invocation::Help => Some(EXIT_HELP),
            Invocation::Target => None,
        }
    }

    /// What to print to the error stream before the run, if anything.
    pub fn notice(self) -> (text: Option<String>)
        ensures
            match text {
                Some(t) => notice_text(self) == Some(t@),
                None => notice_text(self) is None,
            },
    {
        match self {
            Invocation::Missing => {
                let mut text = ErrorKind::MissingArgument.message("", "", "");
                proof {
                    reveal_strlit("");
                    assert(""@ =~= Seq::<char>::empty());
                }
                text.append("\n");
                let rest = usage();
                text.append(rest.as_str());
                Some(text)
            },
            Invocation::Help => Some(usage()),
            Invocation::Target => None,
        }
    }
}

} // verus!
