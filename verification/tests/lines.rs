use concurrently::executor::{
    display_line, failure_report, report_failure, route_stderr, route_stdout, tag_line,
    ExitOutcome, LineAction, StderrTail, STDERR_TAIL_LIMIT,
};

fn feed(lines: &[String]) -> StderrTail {
    let mut tail = StderrTail::new();
    for line in lines {
        tail = tail.push(line.clone());
    }
    tail
}

#[test]
fn carriage_returns_collapse_to_the_last_segment() {
    assert_eq!(display_line("A\rB\rC"), Some("C".to_string()));
    assert_eq!(display_line("10%\r50%\r100%"), Some("100%".to_string()));
    assert_eq!(display_line("plain"), Some("plain".to_string()));
}

#[test]
fn collapsing_twice_changes_nothing() {
    for line in ["A\rB\rC", "no return", "x\ry", "  padded\r  text  "] {
        let once = display_line(line).unwrap();
        assert_eq!(display_line(&once), Some(once.clone()));
    }
}

#[test]
fn a_line_that_ends_in_a_return_shows_nothing_of_its_text() {
    assert_eq!(display_line("abc\r"), Some(String::new()));
}

#[test]
fn blank_lines_are_not_shown() {
    assert_eq!(display_line(""), None);
    assert_eq!(display_line("   \t "), None);
    assert_eq!(display_line("\r"), None);
    assert_eq!(display_line("\u{a0}\u{2003}\u{3000}"), None);
}

#[test]
fn blank_lines_produce_no_output_on_either_stream() {
    for line in ["", " ", "\t\t", " \r "] {
        assert_eq!(route_stdout(line, "tag", false), LineAction::Skip);
        assert_eq!(route_stdout(line, "tag", true), LineAction::Skip);
        let (action, tail) = route_stderr(line, "tag", false, StderrTail::new());
        assert_eq!(action, LineAction::Skip);
        assert_eq!(tail.len(), 0);
        let (action, tail) = route_stderr(line, "tag", true, StderrTail::new());
        assert_eq!(action, LineAction::Skip);
        assert_eq!(tail.len(), 0);
    }
}

#[test]
fn a_line_is_printed_below_its_tag_without_a_sink() {
    assert_eq!(tag_line("web |", "ready"), "web | ready");
    assert_eq!(
        route_stdout("one\rtwo", "web |", false),
        LineAction::Print("web | two".to_string())
    );
}

#[test]
fn a_line_becomes_the_status_with_a_sink() {
    assert_eq!(
        route_stdout("Compiling\rFinished", "web |", true),
        LineAction::Status("Finished".to_string())
    );
}

#[test]
fn standard_error_is_routed_and_kept() {
    let (action, tail) = route_stderr("warn\rerror: boom", "db |", false, StderrTail::new());
    assert_eq!(action, LineAction::Print("db | error: boom".to_string()));
    assert_eq!(tail.into_lines(), vec!["error: boom".to_string()]);
    let (action, tail) = route_stderr("error: boom", "db |", true, StderrTail::new());
    assert_eq!(action, LineAction::Status("error: boom".to_string()));
    assert_eq!(tail.into_lines(), vec!["error: boom".to_string()]);
}

#[test]
fn tail_keeps_the_last_twenty_lines() {
    let lines: Vec<String> = (0..25).map(|i| format!("line {}", i)).collect();
    let kept = feed(&lines).into_lines();
    assert_eq!(STDERR_TAIL_LIMIT, 20);
    assert_eq!(kept.len(), 20);
    assert_eq!(kept, lines[5..].to_vec());
}

#[test]
fn tail_never_grows_beyond_its_limit() {
    let mut tail = StderrTail::new();
    for i in 0..200 {
        tail = tail.push(format!("{}", i));
        assert!(tail.len() <= STDERR_TAIL_LIMIT);
        assert_eq!(tail.len(), std::cmp::min(i + 1, 20));
    }
    let kept = tail.into_lines();
    assert_eq!(kept[0], "180");
    assert_eq!(kept[19], "199");
}

#[test]
fn a_short_tail_keeps_everything_in_order() {
    let lines: Vec<String> = (0..20).map(|i| format!("e{}", i)).collect();
    assert_eq!(feed(&lines).into_lines(), lines);
    assert_eq!(feed(&lines[..3]).into_lines(), lines[..3].to_vec());
    assert_eq!(StderrTail::new().into_lines(), Vec::<String>::new());
}

#[test]
fn the_twenty_first_line_evicts_the_first() {
    let lines: Vec<String> = (0..21).map(|i| format!("e{}", i)).collect();
    let kept = feed(&lines).into_lines();
    assert_eq!(kept.len(), 20);
    assert_eq!(kept[0], "e1");
    assert_eq!(kept[19], "e20");
}

#[test]
fn failure_report_holds_header_and_tail_with_a_sink() {
    let lines = vec!["a".to_string(), "b".to_string()];
    let report = failure_report(false, true, "header".to_string(), feed(&lines));
    assert_eq!(report, vec!["header".to_string(), "a".to_string(), "b".to_string()]);
}

#[test]
fn failure_report_is_empty_after_success_or_without_sink() {
    let lines = vec!["a".to_string()];
    assert!(failure_report(true, true, "h".to_string(), feed(&lines)).is_empty());
    assert!(failure_report(false, false, "h".to_string(), feed(&lines)).is_empty());
    assert!(failure_report(true, false, "h".to_string(), feed(&lines)).is_empty());
    assert!(report_failure(true, true, feed(&lines)).is_empty());
    assert!(report_failure(false, false, feed(&lines)).is_empty());
}

#[test]
fn report_of_a_failure_names_the_tail_after_its_header() {
    colored::control::set_override(false);
    let lines = vec!["x".to_string(), "y".to_string()];
    let report = report_failure(false, true, feed(&lines));
    assert_eq!(
        report,
        vec![
            "showing last 20 lines of stderr...".to_string(),
            "x".to_string(),
            "y".to_string()
        ]
    );
}

#[test]
fn exit_outcomes_are_told_apart() {
    assert_eq!(ExitOutcome::from_code(Some(0)), ExitOutcome::Success);
    assert_eq!(ExitOutcome::from_code(Some(2)), ExitOutcome::Failed(2));
    assert_eq!(ExitOutcome::from_code(Some(-1)), ExitOutcome::Failed(-1));
    assert_eq!(ExitOutcome::from_code(None), ExitOutcome::Signaled);
    assert!(ExitOutcome::Success.success());
    assert!(!ExitOutcome::Failed(1).success());
    assert!(!ExitOutcome::Signaled.success());
    assert_eq!(ExitOutcome::Success.code(), Some(0));
    assert_eq!(ExitOutcome::Failed(7).code(), Some(7));
    assert_eq!(ExitOutcome::Signaled.code(), None);
}
