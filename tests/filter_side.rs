use entr::filter::{
    filter_args, join, resolve_script_path, wants_sandbox, FilterState, Route, ScriptPathError,
    Shutdown, StatusFilter, DEFAULT_SCRIPT,
};
use entr::status::Termination;

#[test]
fn end_twice_kills_once() {
    let mut f = StatusFilter::new(1);
    assert_eq!(f.end(), Shutdown { close_pipe: true, kill: true });
    assert_eq!(f.end(), Shutdown { close_pipe: false, kill: false });
    assert_eq!(f.state, FilterState::Ended);
    assert_eq!(f.route(), Route::Nowhere);
    assert!(!f.write("exit|0|test\n"));
}

#[test]
fn failed_filter_reports_to_console() {
    let mut f = StatusFilter::new(0);
    assert!(f.write("exit|0|test\n"));
    f.write_failed();
    assert_eq!(f.route(), Route::Console);
    let (line, route) = f.report(Termination::Exited(2), "ls").unwrap();
    assert_eq!(line, "exit|2|ls\n");
    assert_eq!(route, Route::Console);
    assert_eq!(f.end(), Shutdown { close_pipe: true, kill: false });
    assert_eq!(f.end(), Shutdown { close_pipe: false, kill: false });
}

#[test]
fn report_goes_to_running_filter() {
    let f = StatusFilter::new(1);
    let (line, route) = f.report(Termination::Signaled(9), "cargo run").unwrap();
    assert_eq!(line, "signal|9|cargo run\n");
    assert_eq!(route, Route::Filter);
}

#[test]
fn override_path_wins() {
    let r = resolve_script_path(Some("/etc/f.awk".to_string()), Some("/home/u".to_string()));
    assert_eq!(r, Ok("/etc/f.awk".to_string()));
}

#[test]
fn empty_override_falls_back_to_home() {
    let r = resolve_script_path(Some(String::new()), Some("/home/u".to_string()));
    assert_eq!(r, Ok("/home/u/.entr/status.awk".to_string()));
    let r = resolve_script_path(None, Some("/home/u/".to_string()));
    assert_eq!(r, Ok("/home/u/.entr/status.awk".to_string()));
}

#[test]
fn no_home_is_an_error() {
    assert_eq!(resolve_script_path(None, None), Err(ScriptPathError::HomeNotSet));
    assert_eq!(resolve_script_path(Some(String::new()), None), Err(ScriptPathError::HomeNotSet));
}

#[test]
fn path_joining() {
    assert_eq!(join("", "a"), "a");
    assert_eq!(join("/", "a"), "/a");
    assert_eq!(join("x", "a"), "x/a");
}

#[test]
fn interpreter_arguments() {
    assert_eq!(filter_args("/s.awk", true, true), vec!["-F", "|", "-f", "/s.awk", "-S"]);
    assert_eq!(filter_args("/s.awk", true, false), vec!["-F", "|", "-f", "/s.awk", "-safe"]);
    assert_eq!(filter_args("/s.awk", false, true), vec!["-F", "|", "-f", "/s.awk"]);
    assert!(wants_sandbox(0));
    assert!(wants_sandbox(1));
    assert!(!wants_sandbox(2));
}

#[test]
fn default_script_maps_both_kinds() {
    assert!(DEFAULT_SCRIPT.contains("/^signal/"));
    assert!(DEFAULT_SCRIPT.contains("/^exit/"));
    assert!(DEFAULT_SCRIPT.ends_with('\n'));
}
