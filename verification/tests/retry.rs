use opendeck_n4::connect::{
    connect_run, connect_step, init_plan, is_retryable, parse_u8, startup_mode, ConnectDecision,
    ConnectErrorKind, InitStep, DEFAULT_STARTUP_MODE, INITIAL_BRIGHTNESS, MAX_CONNECT_ATTEMPTS,
    RETRY_DELAY_MS,
};
use opendeck_n4::mappings::Kind;

#[test]
fn transient_kinds_are_retryable_and_others_not() {
    assert!(is_retryable(&ConnectErrorKind::PermissionDenied));
    assert!(is_retryable(&ConnectErrorKind::ResourceBusy));
    assert!(is_retryable(&ConnectErrorKind::Disconnected));
    assert!(!is_retryable(&ConnectErrorKind::Other));
}

#[test]
fn connect_step_decides_per_attempt() {
    assert_eq!(connect_step(1, &None), ConnectDecision::Accept);
    assert_eq!(
        connect_step(1, &Some(ConnectErrorKind::ResourceBusy)),
        ConnectDecision::Retry { delay_ms: RETRY_DELAY_MS }
    );
    assert_eq!(
        connect_step(9, &Some(ConnectErrorKind::Disconnected)),
        ConnectDecision::Retry { delay_ms: 300 }
    );
    // Transient failure on the final attempt aborts.
    assert_eq!(
        connect_step(MAX_CONNECT_ATTEMPTS, &Some(ConnectErrorKind::ResourceBusy)),
        ConnectDecision::Abort
    );
    assert_eq!(connect_step(1, &Some(ConnectErrorKind::Other)), ConnectDecision::Abort);
}

#[test]
fn three_transient_failures_then_success_means_three_delays() {
    let mut outcomes = vec![Some(ConnectErrorKind::ResourceBusy); 3];
    outcomes.push(None);
    outcomes.extend(vec![Some(ConnectErrorKind::Other); 6]);
    let run = connect_run(&outcomes);
    assert!(run.connected);
    assert_eq!(run.attempts, 4);
    assert_eq!(run.delays, 3);
}

#[test]
fn transient_failures_for_the_whole_budget_end_terminally() {
    let outcomes = vec![Some(ConnectErrorKind::PermissionDenied); 10];
    let run = connect_run(&outcomes);
    assert!(!run.connected);
    assert_eq!(run.attempts, 10);
    assert_eq!(run.delays, 9);
}

#[test]
fn a_terminal_failure_on_the_first_attempt_makes_one_attempt() {
    let mut outcomes = vec![Some(ConnectErrorKind::Other)];
    outcomes.extend(vec![None; 9]);
    let run = connect_run(&outcomes);
    assert!(!run.connected);
    assert_eq!(run.attempts, 1);
    assert_eq!(run.delays, 0);
}

#[test]
fn immediate_success_makes_one_attempt_and_no_delay() {
    let outcomes = vec![None; 10];
    let run = connect_run(&outcomes);
    assert!(run.connected);
    assert_eq!(run.attempts, 1);
    assert_eq!(run.delays, 0);
}

#[test]
fn startup_mode_parses_the_override_and_falls_back() {
    assert_eq!(startup_mode(None), DEFAULT_STARTUP_MODE);
    assert_eq!(startup_mode(Some(&String::from("7"))), 7);
    assert_eq!(startup_mode(Some(&String::from("+42"))), 42);
    assert_eq!(startup_mode(Some(&String::from("0"))), 0);
    assert_eq!(startup_mode(Some(&String::from("255"))), 255);
    assert_eq!(startup_mode(Some(&String::from("256"))), DEFAULT_STARTUP_MODE);
    assert_eq!(startup_mode(Some(&String::from("abc"))), DEFAULT_STARTUP_MODE);
    assert_eq!(startup_mode(Some(&String::from(""))), DEFAULT_STARTUP_MODE);
    assert_eq!(startup_mode(Some(&String::from("-1"))), DEFAULT_STARTUP_MODE);
    assert_eq!(startup_mode(Some(&String::from("1 "))), DEFAULT_STARTUP_MODE);
}

#[test]
fn parse_u8_reads_decimal_bytes_exactly() {
    assert_eq!(parse_u8("0"), Some(0));
    assert_eq!(parse_u8("128"), Some(128));
    assert_eq!(parse_u8("255"), Some(255));
    assert_eq!(parse_u8("+3"), Some(3));
    assert_eq!(parse_u8("00042"), Some(42));
    assert_eq!(parse_u8("256"), None);
    assert_eq!(parse_u8("999999999999"), None);
    assert_eq!(parse_u8("+"), None);
    assert_eq!(parse_u8("++1"), None);
    assert_eq!(parse_u8("12a"), None);
    assert_eq!(parse_u8(""), None);
}

#[test]
fn init_plan_adds_the_startup_mode_only_where_supported() {
    let with_mode = init_plan(&Kind::N4Pro, Some(&String::from("5")));
    assert_eq!(
        with_mode,
        vec![
            InitStep::SetMode(5),
            InitStep::SetBrightness(INITIAL_BRIGHTNESS),
            InitStep::ClearAllImages,
            InitStep::Flush,
        ]
    );

    let default_mode = init_plan(&Kind::N4Pro, None);
    assert_eq!(default_mode[0], InitStep::SetMode(DEFAULT_STARTUP_MODE));

    for kind in [Kind::Akp05E, Kind::N4EN, Kind::MsdPro, Kind::CN003] {
        let plan = init_plan(&kind, Some(&String::from("5")));
        assert_eq!(
            plan,
            vec![
                InitStep::SetBrightness(50),
                InitStep::ClearAllImages,
                InitStep::Flush,
            ]
        );
    }
}
