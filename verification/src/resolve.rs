//! From the argument to a path worth renaming.

use vstd::prelude::*;
use vstd::string::*;
use crate::error::{ErrorKind, Rejected};

verus! {

/// What the file system says of a path, asked without following a symbolic
/// link.
#[derive(Clone, Copy, Debug, PartialEq, Eq, Structural)]
pub struct Entry {
    pub is_symlink: bool,
    pub is_dir: bool,
    pub is_file: bool,
}

/// Whether a path may be renamed: it must exist and be a regular file. A
/// symbolic link is named before a directory, a directory before any other
/// kind.
pub open spec fn entry_verdict(entry: Option<Entry>) -> Result<(), ErrorKind> {
    match entry {
        None => Err(ErrorKind::NotFound),
        Some(e) => if e.is_symlink {
            Err(ErrorKind::InvalidKind(Rejected::Symlink))
        } else if e.is_dir {
            Err(ErrorKind::InvalidKind(Rejected::Directory))
        } else if !e.is_file {
            Err(ErrorKind::InvalidKind(Rejected::Special))
        } else {
            Ok(())
        },
    }
}

/// Judges what was found at the path; `None` stands for a path at which
/// nothing was found.
pub fn check_entry(entry: Option<Entry>) -> (verdict: Result<(), ErrorKind>)
    ensures
        verdict == entry_verdict(entry),
        verdict is Ok <==> entry is Some && !entry->0.is_symlink && !entry->0.is_dir
            && entry->0.is_file,
{
    match entry {
        None => Err(ErrorKind::NotFound),
        Some(e) => {
            if e.is_symlink {
                Err(ErrorKind::InvalidKind(Rejected::Symlink))
            } else if e.is_dir {
                Err(ErrorKind::InvalidKind(Rejected::Directory))
            } else if !e.is_file {
                Err(ErrorKind::InvalidKind(Rejected::Special))
            } else {
                Ok(())
            }
        },
    }
}

/// Whether `arg` opens with the home-directory marker: a tilde that ends the
/// text or stands before a slash or a backslash.
pub open spec fn marks_home(arg: Seq<char>) -> bool {
    arg.len() >= 1 && arg[0] == '~' && (arg.len() == 1 || arg[1] == '/' || arg[1] == '\\')
}

/// Whether `text` ends with `tail`.
pub open spec fn ends_with(text: Seq<char>, tail: Seq<char>) -> bool {
    text.len() >= tail.len() && text.subrange(text.len() - tail.len(), text.len() as int) == tail
}

/// Whether `path` may come of expanding `arg`: the argument itself, or, where
/// it opens with the home-directory marker, some directory followed by what
/// stands behind the tilde.
pub open spec fn expands_to(arg: Seq<char>, path: Seq<char>) -> bool {
    path == arg || (marks_home(arg) && ends_with(path, arg.skip(1)))
}

/// Calls `shellexpand::tilde`. That function puts the user's home directory,
/// as the system gives it, in place of a tilde that opens the text and stands
/// alone or before a slash (on Windows a backslash too). Every other text,
/// and every text where no home directory is known, comes back as it is.
#[verifier::external_body]
fn expand_home(arg: &str) -> (path: String)
    ensures
        expands_to(arg@, path@),
{
    shellexpand::tilde(arg).into_owned()
}

/// The path that the argument names, the home-directory marker expanded.
/// Which directory stands for the marker is the system's to say; an argument
/// without the marker is the path.
pub fn expand_path(arg: &str) -> (path: String)
    ensures
        expands_to(arg@, path@),
        !marks_home(arg@) ==> path@ == arg@,
{
    expand_home(arg)
}

} // verus!
