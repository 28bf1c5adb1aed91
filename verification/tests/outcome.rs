use bootstrapper::outcome::{conclude, diagnostic, Outcome, EXIT_COMPLETED, EXIT_FATAL};

#[test]
fn exit_statuses_are_zero_and_the_panic_status() {
    assert_eq!(EXIT_COMPLETED, 0);
    assert_eq!(EXIT_FATAL, 101);
}

#[test]
fn diagnostic_puts_the_headline_before_the_detail() {
    assert_eq!(
        diagnostic("window system unavailable"),
        "error while running Tauri application: window system unavailable"
    );
}

#[test]
fn diagnostic_of_an_empty_detail_keeps_the_separator() {
    assert_eq!(diagnostic(""), "error while running Tauri application: ");
}

#[test]
fn diagnostic_keeps_the_detail_as_it_is() {
    assert_eq!(
        diagnostic("Fenster: nicht verf\u{fc}gbar \u{2014} \"x\""),
        "error while running Tauri application: Fenster: nicht verf\u{fc}gbar \u{2014} \"x\""
    );
}

#[test]
fn a_run_that_returned_in_good_order_is_completed() {
    let outcome = conclude(Ok(()));
    assert_eq!(outcome, Outcome::Completed);
    assert_eq!(outcome.exit_status(), 0);
}

#[test]
fn a_run_that_failed_is_fatal_with_its_diagnostic() {
    let outcome = conclude(Err(String::from("FailedToCreateWindow")));
    assert_eq!(
        outcome,
        Outcome::Fatal(String::from(
            "error while running Tauri application: FailedToCreateWindow"
        ))
    );
}

#[test]
fn a_fatal_outcome_ends_with_a_nonzero_status() {
    let outcome = conclude(Err(String::from("FailedToCreateWindow")));
    assert_eq!(outcome.exit_status(), 101);
    assert_ne!(outcome.exit_status(), 0);
}

#[test]
fn a_failure_without_detail_is_fatal_too() {
    let outcome = conclude(Err(String::new()));
    assert!(matches!(outcome, Outcome::Fatal(_)));
    assert_eq!(outcome.exit_status(), EXIT_FATAL);
}

#[test]
fn the_fatal_diagnostic_is_the_one_that_diagnostic_writes() {
    let detail = "Runtime(CreateWebview)";
    assert_eq!(
        conclude(Err(String::from(detail))),
        Outcome::Fatal(diagnostic(detail))
    );
}
