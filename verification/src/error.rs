//! Why a run fails, the exit status and the line printed for it.

use vstd::prelude::*;
use vstd::string::*;

verus! {

/// What stood at the path in place of a regular file.
#[derive(Clone, Copy, Debug, PartialEq, Eq, Structural)]
pub enum Rejected {
    Symlink,
    Directory,
    Special,
}

/// The ways a run can fail.
#[derive(Clone, Copy, Debug, PartialEq, Eq, Structural)]
pub enum ErrorKind {
    /// No file argument was given.
    MissingArgument,
    /// Nothing exists at the path.
    NotFound,
    /// The path names something other than a regular file.
    InvalidKind(Rejected),
    /// The absolute path could not be resolved.
    Resolution,
    /// The file's metadata or modification time could not be read.
    Metadata,
    /// The modification time has no fifteen-character local rendering.
    Clock,
    /// The path has no representable final segment.
    InvalidName,
    /// Something already exists at the destination.
    Collision,
    /// The file system refused the rename.
    Rename,
}

/// The path that the line for a failure names.
#[derive(Clone, Copy, Debug, PartialEq, Eq, Structural)]
pub enum Subject {
    /// No path.
    Nothing,
    /// The path as given, the home-directory marker expanded.
    Given,
    /// The resolved absolute path.
    Resolved,
    /// The destination.
    Destination,
}

/// The path that the line for `kind` names: the one the failing query was
/// about.
pub open spec fn subject_of(kind: ErrorKind) -> Subject {
    match kind {
        ErrorKind::MissingArgument => Subject::Nothing,
        ErrorKind::NotFound | ErrorKind::InvalidKind(_) | ErrorKind::Resolution => Subject::Given,
        ErrorKind::Metadata | ErrorKind::Clock | ErrorKind::InvalidName | ErrorKind::Rename =>
            Subject::Resolved,
        ErrorKind::Collision => Subject::Destination,
    }
}

/// Exit status of a successful rename.
pub const EXIT_SUCCESS: i32 = 0;

/// Exit status after the usage text was asked for.
pub const EXIT_HELP: i32 = 1;

/// Exit status of every failure.
pub const EXIT_FAILURE: i32 = 2;

/// The text that opens every error line.
pub open spec fn error_prefix() -> Seq<char> {
    "error: "@
}

/// The description of a failure, before the names it mentions.
pub open spec fn headline(kind: ErrorKind) -> Seq<char> {
    match kind {
        ErrorKind::MissingArgument => "missing file argument"@,
        ErrorKind::NotFound => "path does not exist: "@,
        ErrorKind::InvalidKind(Rejected::Symlink) => "path is a symlink (not allowed): "@,
        ErrorKind::InvalidKind(Rejected::Directory) => "path is a directory (not a file): "@,
        ErrorKind::InvalidKind(Rejected::Special) => "path is not a regular file: "@,
        ErrorKind::Resolution => "failed to resolve absolute path "@,
        ErrorKind::Metadata => "failed to read metadata for "@,
        ErrorKind::Clock => "failed to get modification time for "@,
        ErrorKind::InvalidName => "invalid file name: "@,
        ErrorKind::Collision => "destination path already exists: "@,
        ErrorKind::Rename => "failed to rename "@,
    }
}

/// Whether the line for `kind` ends with the underlying cause.
pub open spec fn names_cause(kind: ErrorKind) -> bool {
    kind == ErrorKind::Resolution || kind == ErrorKind::Metadata || kind == ErrorKind::Rename
}

/// The whole error line for `kind`: the prefix, the headline, then the path
/// (none for a missing argument), for a rename the destination after an
/// arrow, and the cause where the failure has one.
pub open spec fn error_line(
    kind: ErrorKind,
    path: Seq<char>,
    destination: Seq<char>,
    cause: Seq<char>,
) -> Seq<char> {
    let head = error_prefix() + headline(kind);
    let named = if kind == ErrorKind::MissingArgument {
        head
    } else if kind == ErrorKind::Rename {
        head + path + " -> "@ + destination
    } else {
        head + path
    };
    if names_cause(kind) {
        named + ": "@ + cause
    } else {
        named
    }
}

impl ErrorKind {
    /// The exit status for this failure: always `EXIT_FAILURE`.
    pub fn exit_code(self) -> (code: i32)
        ensures
            code == EXIT_FAILURE,
            code == 2,
    {
        EXIT_FAILURE
    }

    /// The path to hand to `message` for this failure.
    pub fn subject(self) -> (subject: Subject)
        ensures
            subject == subject_of(self),
    {
        match self {
            ErrorKind::MissingArgument => Subject::Nothing,
            ErrorKind::NotFound | ErrorKind::InvalidKind(_) | ErrorKind::Resolution => Subject::Given,
            ErrorKind::Metadata
            | ErrorKind::Clock
            | ErrorKind::InvalidName
            | ErrorKind::Rename => Subject::Resolved,
            ErrorKind::Collision => Subject::Destination,
        }
    }

    fn headline_text(self) -> (text: &'static str)
        ensures
            text@ == headline(self),
    {
        match self {
            ErrorKind::MissingArgument => "missing file argument",
            ErrorKind::NotFound => "path does not exist: ",
            ErrorKind::InvalidKind(Rejected::Symlink) => "path is a symlink (not allowed): ",
            ErrorKind::InvalidKind(Rejected::Directory) => "path is a directory (not a file): ",
            ErrorKind::InvalidKind(Rejected::Special) => "path is not a regular file: ",
            ErrorKind::Resolution => "failed to resolve absolute path ",
            ErrorKind::Metadata => "failed to read metadata for ",
            ErrorKind::Clock => "failed to get modification time for ",
            ErrorKind::InvalidName => "invalid file name: ",
            ErrorKind::Collision => "destination path already exists: ",
            ErrorKind::Rename => "failed to rename ",
        }
    }

    /// The line to print for this failure. `destination` is read only for a
    /// refused rename, `cause` only where the failure has an underlying one.
    pub fn message(self, path: &str, destination: &str, cause: &str) -> (line: String)
        ensures
            line@ == error_line(self, path@, destination@, cause@),
    {
        let mut line = String::from_str("error: ");
        line.append(self.headline_text());
        match self {
            ErrorKind::MissingArgument => {},
            ErrorKind::Rename => {
                line.append(path);
                line.append(" -> ");
                line.append(destination);
            },
            _ => {
                line.append(path);
            },
        }
        match self {
            ErrorKind::Resolution | ErrorKind::Metadata | ErrorKind::Rename => {
                line.append(": ");
                line.append(cause);
            },
            _ => {},
        }
        line
    }
}

} // verus!
