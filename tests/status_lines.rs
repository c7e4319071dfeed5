use entr::status::{append_decimal, classify_termination, has_newline, status_line, StatusError, Termination};

#[test]
fn exit_code_seven_line() {
    let line = status_line(Termination::Exited(7), "make test").unwrap();
    assert_eq!(line, "exit|7|make test\n");
}

#[test]
fn signal_nine_line() {
    let line = status_line(Termination::Signaled(9), "sleep 10").unwrap();
    assert_eq!(line, "signal|9|sleep 10\n");
}

#[test]
fn exit_zero_line() {
    let line = status_line(Termination::Exited(0), "echo hi").unwrap();
    assert_eq!(line, "exit|0|echo hi\n");
}

#[test]
fn multi_digit_and_negative_codes() {
    assert_eq!(status_line(Termination::Exited(255), "x").unwrap(), "exit|255|x\n");
    assert_eq!(status_line(Termination::Exited(-1), "x").unwrap(), "exit|-1|x\n");
    assert_eq!(status_line(Termination::Signaled(15), "").unwrap(), "signal|15|\n");
}

#[test]
fn extreme_codes() {
    let mut s = String::new();
    append_decimal(&mut s, i32::MIN);
    assert_eq!(s, "-2147483648");
    let mut t = String::from("n=");
    append_decimal(&mut t, i32::MAX);
    assert_eq!(t, "n=2147483647");
}

#[test]
fn command_with_newline_is_refused() {
    assert_eq!(status_line(Termination::Exited(1), "a\nb"), Err(StatusError::EmbeddedNewline));
    assert!(has_newline("x\n"));
    assert!(!has_newline("x y|z"));
}

#[test]
fn termination_classes() {
    assert_eq!(classify_termination(Some(3), None), Some(Termination::Exited(3)));
    assert_eq!(classify_termination(None, Some(9)), Some(Termination::Signaled(9)));
    assert_eq!(classify_termination(Some(0), Some(9)), Some(Termination::Exited(0)));
    assert_eq!(classify_termination(None, None), None);
}
