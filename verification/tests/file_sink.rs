use soda::{AttachError, Dispatcher, FileLogger, FilterPolicy, Level, Probe, Soda, WriteStatus};
use soda::{attach_outcome, busy_target};

fn temp_path(dir: &tempfile::TempDir, name: &str) -> String {
    dir.path().join(name).to_str().unwrap().to_string()
}

#[test]
fn attach_outcome_decision_table() {
    assert_eq!(attach_outcome(Probe::Exists, false), Ok(()));
    assert_eq!(attach_outcome(Probe::Exists, true), Ok(()));
    assert_eq!(attach_outcome(Probe::Missing, true), Ok(()));
    assert_eq!(attach_outcome(Probe::Missing, false), Err(AttachError::NotCreatable));
    assert_eq!(attach_outcome(Probe::Denied, false), Err(AttachError::NotAccessible));
    assert_eq!(attach_outcome(Probe::Denied, true), Err(AttachError::NotAccessible));
}

#[test]
fn write_to_unwritable_destination_fails_without_raising() {
    let dir = tempfile::tempdir().unwrap();
    let dir_path = dir.path().to_str().unwrap().to_string();
    let mut fl = FileLogger::new();
    // a directory can be probed for existence, so attachment succeeds
    assert!(fl.attach(dir_path).is_ok());
    // appending to it cannot: the event is lost for this sink, nothing is raised
    assert_eq!(fl.write_line("lost"), WriteStatus::Failed);
}

#[test]
fn attach_creates_missing_file() {
    let dir = tempfile::tempdir().unwrap();
    let path = temp_path(&dir, "log.txt");
    let mut fl = FileLogger::new();
    assert!(fl.attach(path.clone()).is_ok());
    assert!(fl.enabled);
    assert_eq!(fl.path, path);
    assert!(fs_err::metadata(&path).is_ok());
}

#[test]
fn attach_keeps_existing_content() {
    let dir = tempfile::tempdir().unwrap();
    let path = temp_path(&dir, "log.txt");
    fs_err::write(&path, "kept\n").unwrap();
    let mut fl = FileLogger::new();
    assert!(fl.attach(path.clone()).is_ok());
    assert_eq!(fl.write_line("more"), WriteStatus::Written);
    assert_eq!(fs_err::read_to_string(&path).unwrap(), "kept\nmore\n");
}

#[test]
fn write_line_round_trip() {
    let dir = tempfile::tempdir().unwrap();
    let path = temp_path(&dir, "log.txt");
    let mut fl = FileLogger::new();
    fl.attach(path.clone()).unwrap();
    assert_eq!(fl.write_line("hello world"), WriteStatus::Written);
    assert_eq!(fl.write_line("[TS][][INFO] second"), WriteStatus::Written);
    let back = fs_err::read_to_string(&path).unwrap();
    assert_eq!(back, "hello world\n[TS][][INFO] second\n");
}

#[test]
fn write_while_disabled_is_a_noop() {
    let fl = FileLogger::new();
    assert_eq!(fl.write_line("x"), WriteStatus::Skipped);
    assert_eq!(fl.logger("x"), WriteStatus::Skipped);
}

#[test]
fn attach_replaces_previous_path() {
    let dir = tempfile::tempdir().unwrap();
    let first = temp_path(&dir, "a.log");
    let second = temp_path(&dir, "b.log");
    let mut fl = FileLogger::new();
    fl.attach(first.clone()).unwrap();
    fl.attach(second.clone()).unwrap();
    assert!(fl.enabled);
    assert_eq!(fl.path, second);
    assert_eq!(fl.write_line("only here"), WriteStatus::Written);
    assert_eq!(fs_err::read_to_string(&second).unwrap(), "only here\n");
    assert_eq!(fs_err::read_to_string(&first).unwrap(), "");
}

#[test]
fn scenario_attach_twice_appends_once_per_emit() {
    let dir = tempfile::tempdir().unwrap();
    let path = temp_path(&dir, "log.txt");
    let mut d = Dispatcher::new(FilterPolicy::build(1, busy_target()));
    d.attach_file(path.clone()).unwrap();
    d.attach_file(path.clone()).unwrap();
    // exactly one enabled file sink is left
    assert_eq!(d.sinks.len(), 2);
    let r = d.emit(Level::INFO, "", "hello", "TS");
    assert!(r.admitted);
    assert_eq!(r.reports.len(), 2);
    assert_eq!(r.reports[1].line, "hello");
    assert_eq!(r.reports[1].status, WriteStatus::Written);
    assert_eq!(fs_err::read_to_string(&path).unwrap(), "hello\n");
}

#[test]
fn scenario_fresh_file_gets_one_line() {
    let dir = tempfile::tempdir().unwrap();
    let path = temp_path(&dir, "fresh.log");
    let mut s = Soda::new(1);
    assert!(s.addFileHandler(path.clone()).is_ok());
    let (report, mirror) = s.info("hello");
    assert!(report.admitted);
    assert_eq!(mirror, WriteStatus::Written);
    let back = fs_err::read_to_string(&path).unwrap();
    assert_eq!(back, "hello\n");
    assert!(back.lines().count() == 1);
    assert!(back.lines().next().unwrap().ends_with("hello"));
}

#[test]
fn scenario_attach_under_missing_directory_fails() {
    let dir = tempfile::tempdir().unwrap();
    let path = dir
        .path()
        .join("no_such_dir")
        .join("log.txt")
        .to_str()
        .unwrap()
        .to_string();
    let mut fl = FileLogger::new();
    let r = fl.attach(path.clone());
    assert_eq!(r, Err(AttachError::NotCreatable));
    assert!(!fl.enabled);
    assert_eq!(fl.path, "default.log");

    let mut d = Dispatcher::new(FilterPolicy::build(1, busy_target()));
    assert!(d.attach_file(path.clone()).is_err());
    assert_eq!(d.sinks.len(), 1);

    let mut s = Soda::new(1);
    assert!(s.addFileHandler(path).is_err());
    assert!(!s.handlers.FileHandler.enabled);
}

#[test]
fn dispatcher_file_sink_rejected_event_writes_nothing() {
    let dir = tempfile::tempdir().unwrap();
    let path = temp_path(&dir, "quiet.log");
    let mut d = Dispatcher::new(FilterPolicy::build(0, busy_target()));
    d.attach_file(path.clone()).unwrap();
    let r = d.emit(Level::DEBUG, "", "tick", "TS");
    assert!(!r.admitted);
    assert_eq!(r.reports.len(), 0);
    assert_eq!(fs_err::read_to_string(&path).unwrap(), "");
}

#[test]
fn callback_writes_raw_message_once_attached() {
    let dir = tempfile::tempdir().unwrap();
    let path = temp_path(&dir, "cb.log");
    let mut s = Soda::new(0);
    s.addFileHandler(path.clone()).unwrap();
    assert_eq!(s.callback("ping"), WriteStatus::Written);
    assert_eq!(fs_err::read_to_string(&path).unwrap(), "ping\n");
}

#[test]
fn info_mirrors_even_when_filter_rejects() {
    // the mirror path is independent of the global filter: at verbosity 0
    // INFO passes, but the mirror would fire regardless, receiving
    // exactly the messages routed through info
    let dir = tempfile::tempdir().unwrap();
    let path = temp_path(&dir, "mirror.log");
    let mut s = Soda::new(0);
    s.addFileHandler(path.clone()).unwrap();
    let (_, mirror) = s.info("first");
    assert_eq!(mirror, WriteStatus::Written);
    let r = s.debug("dropped");
    assert!(!r.admitted);
    assert_eq!(fs_err::read_to_string(&path).unwrap(), "first\n");
}
