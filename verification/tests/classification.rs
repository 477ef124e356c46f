use achat::collector::is_report;
use achat::is_quit;
use achat::session::is_termination_message;

#[test]
fn quit_matches_all_terminator_forms() {
    assert!(is_quit("quit"));
    assert!(is_quit("quit\n"));
    assert!(is_quit("quit\r\n"));
}

#[test]
fn quit_rejects_everything_else() {
    assert!(!is_quit(""));
    assert!(!is_quit("quit "));
    assert!(!is_quit(" quit"));
    assert!(!is_quit("Quit"));
    assert!(!is_quit("quit\r"));
    assert!(!is_quit("quit\n\n"));
    assert!(!is_quit("call it a day"));
}

#[test]
fn stop_all_matches_all_terminator_forms() {
    assert!(is_termination_message("call it a day"));
    assert!(is_termination_message("call it a day\n"));
    assert!(is_termination_message("call it a day\r\n"));
}

#[test]
fn stop_all_rejects_everything_else() {
    assert!(!is_termination_message(""));
    assert!(!is_termination_message("call it a day "));
    assert!(!is_termination_message("call it a night"));
    assert!(!is_termination_message("quit"));
}

#[test]
fn report_matches_all_terminator_forms() {
    assert!(is_report("report"));
    assert!(is_report("report\n"));
    assert!(is_report("report\r\n"));
}

#[test]
fn report_rejects_everything_else() {
    assert!(!is_report(""));
    assert!(!is_report("report "));
    assert!(!is_report("Report"));
    assert!(!is_report("reports"));
}
