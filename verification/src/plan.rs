//! The order of a run: which file-system query comes next, and what each
//! answer leads to.

use vstd::prelude::*;
use vstd::string::*;
use crate::error::{ErrorKind, Rejected, EXIT_SUCCESS};
use crate::name::{new_name, renamed};
use crate::resolve::{check_entry, entry_verdict, Entry};
use crate::stamp::{checked_stamp, is_stamp, timestamp};

verus! {

/// The query a run waits for.
#[derive(Clone, Copy, Debug, PartialEq, Eq, Structural)]
pub enum Step {
    /// Ask what stands at the path, without following a symbolic link.
    Inspect,
    /// Resolve the path to its canonical absolute form.
    Resolve,
    /// Read the modification time of the resolved file.
    ReadTime,
    /// Work out the new name.
    Name,
    /// Ask whether anything exists at the destination.
    Probe,
    /// Rename the file: the one step that changes the file system.
    Rename,
    /// Nothing is left to do.
    Done,
}

/// The answer to a query.
#[derive(Clone, Copy, Debug, PartialEq, Eq)]
pub enum Report {
    /// What stands at the path; `None` where nothing does.
    Entry(Option<Entry>),
    /// Whether the path could be resolved.
    Resolved(bool),
    /// Whether the modification time could be read.
    Modified(bool),
    /// Why no new name could be made, if none could.
    Named(Option<ErrorKind>),
    /// Whether anything exists at the destination.
    Destination(bool),
    /// Whether the file system performed the rename.
    Renamed(bool),
}

/// The step that follows `step` where its query is answered well.
pub open spec fn successor(step: Step) -> Step {
    match step {
        Step::Inspect => Step::Resolve,
        Step::Resolve => Step::ReadTime,
        Step::ReadTime => Step::Name,
        Step::Name => Step::Probe,
        Step::Probe => Step::Rename,
        Step::Rename => Step::Done,
        Step::Done => Step::Done,
    }
}

/// Whether `report` is an answer to the query of `step`.
pub open spec fn answers(step: Step, report: Report) -> bool {
    match (step, report) {
        (Step::Inspect, Report::Entry(_)) => true,
        (Step::Resolve, Report::Resolved(_)) => true,
        (Step::ReadTime, Report::Modified(_)) => true,
        (Step::Name, Report::Named(_)) => true,
        (Step::Probe, Report::Destination(_)) => true,
        (Step::Rename, Report::Renamed(_)) => true,
        _ => false,
    }
}

/// The failure that `report` tells of, if it tells of one.
pub open spec fn failure_in(report: Report) -> Option<ErrorKind> {
    match report {
        Report::Entry(entry) => match entry_verdict(entry) {
            Ok(_) => None,
            Err(kind) => Some(kind),
        },
        Report::Resolved(ok) => if ok {
            None
        } else {
            Some(ErrorKind::Resolution)
        },
        Report::Modified(ok) => if ok {
            None
        } else {
            Some(ErrorKind::Metadata)
        },
        Report::Named(failure) => failure,
        Report::Destination(exists) => if exists {
            Some(ErrorKind::Collision)
        } else {
            None
        },
        Report::Renamed(ok) => if ok {
            None
        } else {
            Some(ErrorKind::Rename)
        },
    }
}

/// Where a run stands after `report` came in at `step`. An answer to the
/// step's query ends the run with its failure or leads to the next step; a
/// report that answers another query leaves the run where it is.
pub open spec fn next_step(step: Step, report: Report) -> Result<Step, ErrorKind> {
    if !answers(step, report) {
        Ok(step)
    } else {
        match failure_in(report) {
            Some(kind) => Err(kind),
            None => Ok(successor(step)),
        }
    }
}

/// The exit status that an outcome settles: 0 once nothing is left to do, 2
/// for a failure, none while a query is open.
pub open spec fn exit_status(outcome: Result<Step, ErrorKind>) -> Option<i32> {
    match outcome {
        Ok(Step::Done) => Some(0i32),
        Ok(_) => None,
        Err(_) => Some(2i32),
    }
}

fn failure_of(report: Report) -> (failure: Option<ErrorKind>)
    ensures
        failure == failure_in(report),
{
    match report {
        Report::Entry(entry) => match check_entry(entry) {
            Ok(_) => None,
            Err(kind) => Some(kind),
        },
        Report::Resolved(ok) => if ok {
            None
        } else {
            Some(ErrorKind::Resolution)
        },
        Report::Modified(ok) => if ok {
            None
        } else {
            Some(ErrorKind::Metadata)
        },
        Report::Named(failure) => failure,
        Report::Destination(exists) => if exists {
            Some(ErrorKind::Collision)
        } else {
            None
        },
        Report::Renamed(ok) => if ok {
            None
        } else {
            Some(ErrorKind::Rename)
        },
    }
}

/// Takes the run one step on: from the open query and its answer to the next
/// query, or to the failure that ends the run.
pub fn advance(step: Step, report: Report) -> (outcome: Result<Step, ErrorKind>)
    ensures
        outcome == next_step(step, report),
{
    let fits = match (step, report) {
        (Step::Inspect, Report::Entry(_)) => true,
        (Step::Resolve, Report::Resolved(_)) => true,
        (Step::ReadTime, Report::Modified(_)) => true,
        (Step::Name, Report::Named(_)) => true,
        (Step::Probe, Report::Destination(_)) => true,
        (Step::Rename, Report::Renamed(_)) => true,
        _ => false,
    };
    if !fits {
        return Ok(step);
    }
    match failure_of(report) {
        Some(kind) => Err(kind),
        None => Ok(
            match step {
                Step::Inspect => Step::Resolve,
                Step::Resolve => Step::ReadTime,
                Step::ReadTime => Step::Name,
                Step::Name => Step::Probe,
                Step::Probe => Step::Rename,
                Step::Rename => Step::Done,
                Step::Done => Step::Done,
            },
        ),
    }
}

/// The exit status that `outcome` settles, if it settles one.
pub fn exit_code(outcome: Result<Step, ErrorKind>) -> (code: Option<i32>)
    ensures
        code == exit_status(outcome),
{
    match outcome {
        Ok(Step::Done) => Some(EXIT_SUCCESS),
        Ok(_) => None,
        Err(kind) => Some(kind.exit_code()),
    }
}

/// The new name for a file name and a rendered time, or why there is none.
/// The time is judged first: a missing or misshapen one is a clock failure.
/// A missing file name is an invalid name.
pub open spec fn name_verdict(file_name: Option<Seq<char>>, raw: Option<Seq<char>>) -> Result<
    Seq<char>,
    ErrorKind,
> {
    match raw {
        Some(text) => if is_stamp(text) {
            match file_name {
                Some(name) => Ok(renamed(name, text)),
                None => Err(ErrorKind::InvalidName),
            }
        } else {
            Err(ErrorKind::Clock)
        },
        None => Err(ErrorKind::Clock),
    }
}

/// Makes the new name from the path's final segment and the rendered
/// modification time. `file_name` is `None` where the path has no final
/// segment that can be written as text; `raw` is `None` where the time has
/// no rendering.
pub fn name_from(file_name: Option<&str>, raw: Option<String>) -> (fresh: Result<String, ErrorKind>)
    ensures
        match fresh {
            Ok(text) => raw is Some && file_name is Some && name_verdict(
                Some(file_name->0@),
                Some(raw->0@),
            ) == Ok::<_, ErrorKind>(text@),
            Err(kind) => name_verdict(
                match file_name {
                    Some(name) => Some(name@),
                    None => None,
                },
                match raw {
                    Some(text) => Some(text@),
                    None => None,
                },
            ) == Err::<Seq<char>, _>(kind),
        },
{
    match checked_stamp(raw) {
        Err(kind) => Err(kind),
        Ok(stamp) => match file_name {
            Some(name) => Ok(new_name(name, stamp.as_str())),
            None => Err(ErrorKind::InvalidName),
        },
    }
}

/// The new name of a file from its name and its modification time, given as
/// seconds and nanoseconds since the Unix epoch (`None`: a time that cannot
/// be given so). The timestamp is the local
/// one, so the machine's time zone decides which it is; whichever, the name
/// that comes back is the one `renamed` gives for some timestamp. A time
/// without a timestamp is a clock failure, a missing name an invalid name,
/// and no other failure occurs.
pub fn destination_name(file_name: Option<&str>, modified: Option<(i64, u32)>) -> (fresh: Result<
    String,
    ErrorKind,
>)
    ensures
        modified is None ==> fresh == Err::<String, _>(ErrorKind::Clock),
        match fresh {
            Ok(text) => file_name is Some && modified is Some && exists|stamp: Seq<char>|
                is_stamp(stamp) && text@ == renamed(file_name->0@, stamp),
            Err(kind) => kind == ErrorKind::Clock || (kind == ErrorKind::InvalidName
                && file_name is None),
        },
{
    match timestamp(modified) {
        Err(kind) => Err(kind),
        Ok(stamp) => match file_name {
            Some(name) => {
                let fresh = new_name(name, stamp.as_str());
                proof {
                    assert(is_stamp(stamp@) && fresh@ == renamed(name@, stamp@));
                }
                Ok(fresh)
            },
            None => Err(ErrorKind::InvalidName),
        },
    }
}

/// The report on the making of a name, for the step that waits for it.
pub fn named_report(fresh: &Result<String, ErrorKind>) -> (report: Report)
    ensures
        report == Report::Named(
            match *fresh {
                Ok(_) => None,
                Err(kind) => Some(kind),
            },
        ),
{
    match fresh {
        Ok(_) => Report::Named(None),
        Err(kind) => Report::Named(Some(*kind)),
    }
}

/// How far along a run a step is.
pub open spec fn rank(step: Step) -> int {
    match step {
        Step::Inspect => 0,
        Step::Resolve => 1,
        Step::ReadTime => 2,
        Step::Name => 3,
        Step::Probe => 4,
        Step::Rename => 5,
        Step::Done => 6,
    }
}

/// Where a run that stands at `step` is after the reports came in, one after
/// the other: at the failure of the first that tells of one, else at the
/// step they lead to.
pub open spec fn outcome_of(step: Step, reports: Seq<Report>) -> Result<Step, ErrorKind>
    decreases reports.len(),
{
    if reports.len() == 0 {
        Ok(step)
    } else {
        match next_step(step, reports[0]) {
            Ok(next) => outcome_of(next, reports.skip(1)),
            Err(kind) => Err(kind),
        }
    }
}

/// Takes a run through a list of reports, as `advance` does one by one, and
/// stops at the first failure.
pub fn replay(step: Step, reports: &Vec<Report>) -> (outcome: Result<Step, ErrorKind>)
    ensures
        outcome == outcome_of(step, reports@),
{
    let mut at = step;
    let mut i: usize = 0;
    proof {
        assert(reports@.skip(0) =~= reports@);
    }
    while i < reports.len()
        invariant
            i <= reports.len(),
            outcome_of(step, reports@) == outcome_of(at, reports@.skip(i as int)),
        decreases reports.len() - i,
    {
        let ghost rest = reports@.skip(i as int);
        proof {
            assert(rest[0] == reports@[i as int]);
            assert(rest.skip(1) =~= reports@.skip(i + 1));
        }
        match advance(at, reports[i]) {
            Ok(next) => {
                at = next;
            },
            Err(kind) => {
                return Err(kind);
            },
        }
        i = i + 1;
    }
    Ok(at)
}

/// A run never goes back, and it gets past a step only on a report that
/// answers that step's query and tells of no failure.
pub proof fn law_passed_steps_were_answered(step: Step, reports: Seq<Report>, passed: Step)
    requires
        outcome_of(step, reports) is Ok,
    ensures
        rank(step) <= rank(outcome_of(step, reports)->Ok_0),
        rank(step) <= rank(passed) < rank(outcome_of(step, reports)->Ok_0) ==> exists|i: int|
            0 <= i < reports.len() && answers(passed, #[trigger] reports[i]) && failure_in(
                reports[i],
            ) is None,
    decreases reports.len(),
{
    if reports.len() > 0 {
        let next = next_step(step, reports[0])->Ok_0;
        let rest = reports.skip(1);
        law_passed_steps_were_answered(next, rest, passed);
        if rank(step) <= rank(passed) < rank(outcome_of(step, reports)->Ok_0) {
            if rank(next) <= rank(passed) {
                let i = choose|i: int|
                    0 <= i < rest.len() && answers(passed, #[trigger] rest[i]) && failure_in(
                        rest[i],
                    ) is None;
                assert(rest[i] == reports[i + 1]);
            } else {
                assert(passed == step);
                assert(answers(passed, reports[0]) && failure_in(reports[0]) is None);
            }
        }
    }
}

/// A run from the first query reaches the rename only where a regular file
/// was found at the path and nothing at the destination.
pub proof fn law_rename_follows_the_checks(reports: Seq<Report>)
    requires
        outcome_of(Step::Inspect, reports) is Ok,
        rank(outcome_of(Step::Inspect, reports)->Ok_0) >= rank(Step::Rename),
    ensures
        exists|i: int|
            0 <= i < reports.len() && (#[trigger] reports[i] matches Report::Entry(Some(entry))
                && !entry.is_symlink && !entry.is_dir && entry.is_file),
        exists|i: int| 0 <= i < reports.len() && #[trigger] reports[i] == Report::Destination(false),
{
    law_passed_steps_were_answered(Step::Inspect, reports, Step::Inspect);
    law_passed_steps_were_answered(Step::Inspect, reports, Step::Probe);
    let i = choose|i: int|
        0 <= i < reports.len() && answers(Step::Inspect, #[trigger] reports[i]) && failure_in(
            reports[i],
        ) is None;
    assert(reports[i] matches Report::Entry(Some(entry)) && !entry.is_symlink && !entry.is_dir
        && entry.is_file);
    let j = choose|j: int|
        0 <= j < reports.len() && answers(Step::Probe, #[trigger] reports[j]) && failure_in(
            reports[j],
        ) is None;
    assert(reports[j] == Report::Destination(false));
}

/// A symbolic link, a directory or any other entry that is not a regular
/// file ends the run at the first query, with exit status 2: no later step,
/// and so not the rename, is reached.
pub proof fn law_only_regular_files_pass(entry: Entry)
    ensures
        next_step(Step::Inspect, Report::Entry(Some(entry))) is Ok <==> !entry.is_symlink
            && !entry.is_dir && entry.is_file,
        entry.is_symlink ==> next_step(Step::Inspect, Report::Entry(Some(entry))) == Err::<Step, _>(
            ErrorKind::InvalidKind(Rejected::Symlink),
        ),
        !entry.is_symlink && entry.is_dir ==> next_step(Step::Inspect, Report::Entry(Some(entry)))
            == Err::<Step, _>(ErrorKind::InvalidKind(Rejected::Directory)),
        !entry.is_symlink && !entry.is_dir && !entry.is_file ==> next_step(
            Step::Inspect,
            Report::Entry(Some(entry)),
        ) == Err::<Step, _>(ErrorKind::InvalidKind(Rejected::Special)),
        next_step(Step::Inspect, Report::Entry(Some(entry))) is Err ==> exit_status(
            next_step(Step::Inspect, Report::Entry(Some(entry))),
        ) == Some(2i32),
{
}

/// An existing destination ends the run with a collision and exit status 2,
/// each time it is found; and the rename is reached in one way only, from
/// the probe that found the destination free.
pub proof fn law_collision_stops_rename(step: Step, report: Report)
    ensures
        next_step(Step::Probe, Report::Destination(true)) == Err::<Step, _>(ErrorKind::Collision),
        exit_status(next_step(Step::Probe, Report::Destination(true))) == Some(2i32),
        step != Step::Rename && next_step(step, report) == Ok::<_, ErrorKind>(Step::Rename) ==> step
            == Step::Probe && report == Report::Destination(false),
{
}

/// A run moves forward one step at a time and only on an answer that tells
/// of no failure; every failure settles exit status 2, and exit status 0 is
/// settled only by a rename that the file system performed.
pub proof fn law_steps_in_order(step: Step, report: Report)
    ensures
        match next_step(step, report) {
            Ok(next) => next == step || (next == successor(step) && answers(step, report)
                && failure_in(report) is None),
            Err(kind) => answers(step, report) && failure_in(report) == Some(kind),
        },
        next_step(step, report) is Err ==> exit_status(next_step(step, report)) == Some(2i32),
        step != Step::Done && exit_status(next_step(step, report)) == Some(0i32) ==> step
            == Step::Rename && report == Report::Renamed(true),
{
}

} // verus!
