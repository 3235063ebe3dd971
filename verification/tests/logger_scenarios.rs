use minilog::logger::{Emission, Minilog, MinilogError};
use minilog::record::LogRecord;
use minilog::severity::Severity;
use minilog::sink::Sink;

fn record(level: Severity, msg: &str) -> LogRecord {
    LogRecord { level, msg: msg.to_string(), mod_path: None, file: None, line: None }
}

/// Appends an emission's line to the string standing in for the file, the
/// way the sink writer appends to a real file.
fn append_to(file: &mut String, e: &Emission, expected_sink: &Sink) {
    assert_eq!(&e.sink, expected_sink);
    file.push_str(&e.line);
}

#[test]
fn test() {
    let mut ml = Minilog::new();
    let sink = Sink::File("Minilog_test_main.txt".to_string());
    ml.init(Severity::Info, "Minilog_test_main.txt", "{level}: {msg}").expect(
        "Could not set the logger!",
    );
    let mut file_contents = String::new();
    if let Some(e) = ml.log(&record(Severity::Error, "Test log!")) {
        append_to(&mut file_contents, &e, &sink);
    }
    if let Some(e) = ml.log(&record(Severity::Error, "Test error!")) {
        append_to(&mut file_contents, &e, &sink);
    }
    if let Some(e) = ml.log(&record(Severity::Warn, "Test warning!")) {
        append_to(&mut file_contents, &e, &sink);
    }
    if let Some(e) = ml.log(&record(Severity::Trace, "Test trace! exluded")) {
        append_to(&mut file_contents, &e, &sink);
    }
    ml.set_log_level(Severity::Trace);
    if let Some(e) = ml.log(&record(Severity::Trace, "Test trace! not excluded")) {
        append_to(&mut file_contents, &e, &sink);
    }
    assert_eq!(
        file_contents,
        "ERROR: Test log!\nERROR: Test error!\nWARN: Test warning!\nTRACE: Test trace! not excluded\n"
    );
}

#[test]
fn test_direct_to_stdout_log() {
    let mut ml = Minilog::new();
    ml.init(Severity::Info, "stdout", "{level}: {msg}").expect("Could not set the logger!");
    let e = ml.log(&record(Severity::Info, "Log message")).expect("enabled record must emit");
    // The reserved descriptor routes to the standard output stream; no
    // filesystem path named `stdout` is ever involved.
    assert_eq!(e.sink, Sink::StandardOutput);
    assert_eq!(e.line, "INFO: Log message\n");
}

#[test]
fn reserved_stderr_descriptor() {
    let mut ml = Minilog::new();
    ml.init(Severity::Info, "stderr", "{msg}").unwrap();
    let e = ml.log(&record(Severity::Warn, "to stderr")).unwrap();
    assert_eq!(e.sink, Sink::StandardError);
}

#[test]
fn gate_orders_severities() {
    let mut ml = Minilog::new();
    ml.set_log_level(Severity::Info);
    // Everything at or below Info is enabled, everything above is not.
    assert!(ml.enabled(Severity::Off));
    assert!(ml.enabled(Severity::Error));
    assert!(ml.enabled(Severity::Warn));
    assert!(ml.enabled(Severity::Info));
    assert!(!ml.enabled(Severity::Debug));
    assert!(!ml.enabled(Severity::Trace));
    ml.set_log_level(Severity::Off);
    assert!(!ml.enabled(Severity::Error));
    ml.set_log_level(Severity::Trace);
    assert!(ml.enabled(Severity::Trace));
}

#[test]
fn log_or_panic_rejects_disabled_level() {
    let mut ml = Minilog::new();
    ml.init(Severity::Info, "out.txt", "{level} - {msg}").unwrap();
    assert_eq!(ml.log_or_panic(Severity::Trace, "Trace!"), Err(MinilogError::LevelTooLow));
    let ok = ml.log_or_panic(Severity::Error, "Error!").unwrap().unwrap();
    assert_eq!(ok.line, "ERROR - Error!\n");
}

#[test]
fn log_or_panic_without_config_drops() {
    let mut ml = Minilog::new();
    ml.set_log_level(Severity::Info);
    assert_eq!(ml.log_or_panic(Severity::Error, "nowhere"), Ok(None));
    assert_eq!(ml.log_or_panic(Severity::Debug, "gated"), Err(MinilogError::LevelTooLow));
}

#[test]
fn temporary_escalation_emits_and_reverts() {
    let mut ml = Minilog::new();
    ml.init(Severity::Info, "escalate.txt", "{level} - {msg}").unwrap();
    let mut file_contents = String::new();
    if let Some(e) = ml.log_upgrade_temp(Severity::Trace, "Trace!") {
        file_contents.push_str(&e.line);
    }
    assert_eq!(file_contents, "TRACE - Trace!\n");
    assert_eq!(ml.log_level(), Some(Severity::Info));
}

#[test]
fn noop_temporary_escalation_emits_nothing() {
    let mut ml = Minilog::new();
    ml.init(Severity::Trace, "escalate.txt", "{level} - {msg}").unwrap();
    // Info is already enabled under Trace: the escalation branch, and with
    // it the emission, never triggers.
    assert_eq!(ml.log_upgrade_temp(Severity::Info, "msg"), None);
    assert_eq!(ml.log_level(), Some(Severity::Trace));
}

#[test]
fn permanent_escalation_raises_the_maximum() {
    let mut ml = Minilog::new();
    ml.init(Severity::Info, "escalate.txt", "{level} - {msg}").unwrap();
    let e = ml.log_upgrade(Severity::Trace, "Trace!").unwrap();
    assert_eq!(e.line, "TRACE - Trace!\n");
    assert_eq!(ml.log_level(), Some(Severity::Trace));
    // An already-enabled level leaves the maximum alone and still emits.
    let e2 = ml.log_upgrade(Severity::Warn, "still on").unwrap();
    assert_eq!(e2.line, "WARN - still on\n");
    assert_eq!(ml.log_level(), Some(Severity::Trace));
}

#[test]
fn second_init_fails_and_changes_nothing() {
    let mut ml = Minilog::new();
    ml.init(Severity::Info, "first.txt", "{level}: {msg}").unwrap();
    assert_eq!(
        ml.init(Severity::Trace, "second.txt", "{msg}"),
        Err(MinilogError::AlreadyInitialized)
    );
    assert_eq!(ml.log_level(), Some(Severity::Info));
    // The first configuration still governs rendering and dispatch.
    let e = ml.log(&record(Severity::Error, "kept")).unwrap();
    assert_eq!(e.sink, Sink::File("first.txt".to_string()));
    assert_eq!(e.line, "ERROR: kept\n");
}

#[test]
fn init_default_configuration() {
    let mut ml = Minilog::new();
    ml.init_default().unwrap();
    assert_eq!(ml.log_level(), Some(Severity::Trace));
    let e = ml.log(&record(Severity::Error, "x")).unwrap();
    assert_eq!(e.sink, Sink::File("logs.txt".to_string()));
    assert_eq!(e.line, "ERROR: x\n");
    assert_eq!(ml.init_default(), Err(MinilogError::AlreadyInitialized));
}

#[test]
fn log_level_off_is_none() {
    let mut ml = Minilog::new();
    assert_eq!(ml.log_level(), None);
    ml.set_log_level(Severity::Warn);
    assert_eq!(ml.log_level(), Some(Severity::Warn));
    ml.set_log_level(Severity::Off);
    assert_eq!(ml.log_level(), None);
}

#[test]
fn sink_resolution() {
    assert_eq!(Sink::from_descriptor("stdout"), Sink::StandardOutput);
    assert_eq!(Sink::from_descriptor("stderr"), Sink::StandardError);
    assert_eq!(Sink::from_descriptor("out.txt"), Sink::File("out.txt".to_string()));
    assert_eq!(Sink::from_descriptor("stdout2"), Sink::File("stdout2".to_string()));
}
