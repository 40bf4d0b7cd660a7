use dtren::error::{ErrorKind, Rejected, Subject};
use dtren::plan::{advance, exit_code, named_report, replay, Report, Step};
use dtren::resolve::{check_entry, expand_path, Entry};

fn entry(is_symlink: bool, is_dir: bool, is_file: bool) -> Entry {
    Entry { is_symlink, is_dir, is_file }
}

#[test]
fn entry_kinds() {
    assert_eq!(check_entry(None), Err(ErrorKind::NotFound));
    assert_eq!(check_entry(Some(entry(false, false, true))), Ok(()));
    assert_eq!(check_entry(Some(entry(true, false, false))), Err(ErrorKind::InvalidKind(Rejected::Symlink)));
    assert_eq!(check_entry(Some(entry(true, true, true))), Err(ErrorKind::InvalidKind(Rejected::Symlink)));
    assert_eq!(check_entry(Some(entry(false, true, false))), Err(ErrorKind::InvalidKind(Rejected::Directory)));
    assert_eq!(check_entry(Some(entry(false, true, true))), Err(ErrorKind::InvalidKind(Rejected::Directory)));
    assert_eq!(check_entry(Some(entry(false, false, false))), Err(ErrorKind::InvalidKind(Rejected::Special)));
}

#[test]
fn a_run_that_succeeds() {
    let mut step = Step::Inspect;
    let reports = [
        Report::Entry(Some(entry(false, false, true))),
        Report::Resolved(true),
        Report::Modified(true),
        Report::Named(None),
        Report::Destination(false),
    ];
    let expected = [Step::Resolve, Step::ReadTime, Step::Name, Step::Probe, Step::Rename];
    for (report, next) in reports.iter().zip(expected.iter()) {
        let outcome = advance(step, *report);
        assert_eq!(outcome, Ok(*next));
        assert_eq!(exit_code(outcome), None);
        step = *next;
    }
    let outcome = advance(step, Report::Renamed(true));
    assert_eq!(outcome, Ok(Step::Done));
    assert_eq!(exit_code(outcome), Some(0));
}

#[test]
fn each_failure_ends_the_run_with_two() {
    let cases = [
        (Step::Inspect, Report::Entry(None), ErrorKind::NotFound),
        (Step::Inspect, Report::Entry(Some(entry(true, false, false))), ErrorKind::InvalidKind(Rejected::Symlink)),
        (Step::Inspect, Report::Entry(Some(entry(false, true, false))), ErrorKind::InvalidKind(Rejected::Directory)),
        (Step::Inspect, Report::Entry(Some(entry(false, false, false))), ErrorKind::InvalidKind(Rejected::Special)),
        (Step::Resolve, Report::Resolved(false), ErrorKind::Resolution),
        (Step::ReadTime, Report::Modified(false), ErrorKind::Metadata),
        (Step::Name, Report::Named(Some(ErrorKind::Clock)), ErrorKind::Clock),
        (Step::Name, Report::Named(Some(ErrorKind::InvalidName)), ErrorKind::InvalidName),
        (Step::Probe, Report::Destination(true), ErrorKind::Collision),
        (Step::Rename, Report::Renamed(false), ErrorKind::Rename),
    ];
    for (step, report, kind) in cases {
        let outcome = advance(step, report);
        assert_eq!(outcome, Err(kind));
        assert_eq!(exit_code(outcome), Some(2));
        assert_eq!(kind.exit_code(), 2);
    }
}

#[test]
fn collision_fails_the_same_way_each_time() {
    let first = advance(Step::Probe, Report::Destination(true));
    let second = advance(Step::Probe, Report::Destination(true));
    assert_eq!(first, Err(ErrorKind::Collision));
    assert_eq!(first, second);
}

#[test]
fn a_report_on_another_query_changes_nothing() {
    assert_eq!(advance(Step::Inspect, Report::Renamed(true)), Ok(Step::Inspect));
    assert_eq!(advance(Step::Probe, Report::Renamed(true)), Ok(Step::Probe));
    assert_eq!(advance(Step::Rename, Report::Destination(true)), Ok(Step::Rename));
    assert_eq!(advance(Step::Done, Report::Renamed(false)), Ok(Step::Done));
    assert_eq!(exit_code(advance(Step::Done, Report::Renamed(false))), Some(0));
}

#[test]
fn named_report_carries_the_failure() {
    assert_eq!(named_report(&Ok("a-20240101_000000".to_string())), Report::Named(None));
    assert_eq!(named_report(&Err(ErrorKind::Clock)), Report::Named(Some(ErrorKind::Clock)));
    assert_eq!(named_report(&Err(ErrorKind::InvalidName)), Report::Named(Some(ErrorKind::InvalidName)));
}

#[test]
fn error_lines() {
    assert_eq!(ErrorKind::MissingArgument.message("p", "d", "c"), "error: missing file argument");
    assert_eq!(ErrorKind::NotFound.message("/x/y", "", ""), "error: path does not exist: /x/y");
    assert_eq!(
        ErrorKind::InvalidKind(Rejected::Symlink).message("/x/y", "", ""),
        "error: path is a symlink (not allowed): /x/y"
    );
    assert_eq!(
        ErrorKind::InvalidKind(Rejected::Directory).message("/x", "", ""),
        "error: path is a directory (not a file): /x"
    );
    assert_eq!(
        ErrorKind::InvalidKind(Rejected::Special).message("/dev/null", "", ""),
        "error: path is not a regular file: /dev/null"
    );
    assert_eq!(
        ErrorKind::Resolution.message("a/b", "", "denied"),
        "error: failed to resolve absolute path a/b: denied"
    );
    assert_eq!(ErrorKind::Metadata.message("/a", "", "gone"), "error: failed to read metadata for /a: gone");
    assert_eq!(ErrorKind::Clock.message("/a", "", "x"), "error: failed to get modification time for /a");
    assert_eq!(ErrorKind::InvalidName.message("/", "", ""), "error: invalid file name: /");
    assert_eq!(
        ErrorKind::Collision.message("/a-1.txt", "", ""),
        "error: destination path already exists: /a-1.txt"
    );
    assert_eq!(
        ErrorKind::Rename.message("/a.txt", "/a-1.txt", "cross-device"),
        "error: failed to rename /a.txt -> /a-1.txt: cross-device"
    );
}

#[test]
fn paths_without_the_marker_are_kept() {
    for arg in ["file.txt", "/abs/path", "./rel", "a~b", "~user/x", "", "dir/~", " ~/x", "$HOME/x"] {
        assert_eq!(expand_path(arg), arg);
    }
}

#[test]
fn the_marker_gives_way_to_the_home_directory() {
    let expanded = expand_path("~/some/dir");
    let home = expand_path("~");
    assert_eq!(expanded, shellexpand::tilde("~/some/dir"));
    assert_eq!(home, shellexpand::tilde("~"));
    if shellexpand::tilde("~") == "~" {
        // No home directory is known here: the marker stays.
        assert_eq!(expanded, "~/some/dir");
    } else {
        assert_ne!(expanded, "~/some/dir");
        assert!(expanded.ends_with("/some/dir"));
        assert_eq!(expanded, format!("{}/some/dir", home));
    }
}

#[test]
fn each_failure_names_the_path_it_is_about() {
    assert_eq!(ErrorKind::MissingArgument.subject(), Subject::Nothing);
    assert_eq!(ErrorKind::NotFound.subject(), Subject::Given);
    assert_eq!(ErrorKind::InvalidKind(Rejected::Symlink).subject(), Subject::Given);
    assert_eq!(ErrorKind::InvalidKind(Rejected::Directory).subject(), Subject::Given);
    assert_eq!(ErrorKind::InvalidKind(Rejected::Special).subject(), Subject::Given);
    assert_eq!(ErrorKind::Resolution.subject(), Subject::Given);
    assert_eq!(ErrorKind::Metadata.subject(), Subject::Resolved);
    assert_eq!(ErrorKind::Clock.subject(), Subject::Resolved);
    assert_eq!(ErrorKind::InvalidName.subject(), Subject::Resolved);
    assert_eq!(ErrorKind::Rename.subject(), Subject::Resolved);
    assert_eq!(ErrorKind::Collision.subject(), Subject::Destination);
}

#[test]
fn replay_of_a_whole_run() {
    let reports = vec![
        Report::Entry(Some(entry(false, false, true))),
        Report::Resolved(true),
        Report::Modified(true),
        Report::Named(None),
        Report::Destination(false),
        Report::Renamed(true),
    ];
    assert_eq!(replay(Step::Inspect, &reports), Ok(Step::Done));
    assert_eq!(replay(Step::Inspect, &reports[..4].to_vec()), Ok(Step::Probe));
    assert_eq!(replay(Step::Inspect, &Vec::new()), Ok(Step::Inspect));
    assert_eq!(replay(Step::Probe, &reports[4..].to_vec()), Ok(Step::Done));
}

#[test]
fn replay_stops_at_the_first_failure() {
    for rejected in [entry(true, false, false), entry(false, true, false), entry(false, false, false)] {
        let reports = vec![
            Report::Entry(Some(rejected)),
            Report::Resolved(true),
            Report::Modified(true),
            Report::Named(None),
            Report::Destination(false),
            Report::Renamed(true),
        ];
        let outcome = replay(Step::Inspect, &reports);
        assert!(matches!(outcome, Err(ErrorKind::InvalidKind(_))));
        assert_eq!(exit_code(outcome), Some(2));
    }
    let collided = vec![
        Report::Entry(Some(entry(false, false, true))),
        Report::Resolved(true),
        Report::Modified(true),
        Report::Named(None),
        Report::Destination(true),
        Report::Renamed(true),
    ];
    assert_eq!(replay(Step::Inspect, &collided), Err(ErrorKind::Collision));
    assert_eq!(replay(Step::Inspect, &collided), replay(Step::Inspect, &collided));
}

#[test]
fn replay_skips_reports_on_other_queries() {
    let reports = vec![
        Report::Renamed(true),
        Report::Destination(false),
        Report::Entry(Some(entry(false, false, true))),
        Report::Entry(None),
        Report::Resolved(true),
    ];
    assert_eq!(replay(Step::Inspect, &reports), Ok(Step::ReadTime));
}
