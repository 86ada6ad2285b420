use gateway_logger::state::AppState;

fn expected_run_block() -> String {
    let mut block = String::new();
    for i in 1..=50 {
        block.push_str(&format!("\nline{}", i));
    }
    block
}

#[test]
fn new_state_defaults() {
    let s = AppState::new();
    assert_eq!(s.identifier, "");
    assert_eq!(s.greeting, "");
    assert!(s.logo.is_none());
    assert_eq!(s.log, "Output will be here");
    assert_eq!(s.test_result, " ");
    assert_eq!(s.error_code, " ");
}

#[test]
fn window_title_is_fixed() {
    assert_eq!(AppState::window_title(), "Gateway Logger V0.1.0");
}

#[test]
fn start_appends_fifty_lines_after_placeholder() {
    let mut s = AppState::new();
    s.start();
    let expected = format!("Output will be here{}", expected_run_block());
    assert_eq!(s.log, expected);
    assert!(s.log.ends_with("\nline49\nline50"));
}

#[test]
fn start_sets_both_status_messages() {
    let mut s = AppState::new();
    s.start();
    assert_eq!(s.test_result, "Check the button and LM for shorts");
    assert_eq!(s.error_code, "GPIO: pin (gpio 11) value is 0");
}

#[test]
fn repeated_starts_keep_appending() {
    let mut s = AppState::new();
    let breaks_before = s.log.matches('\n').count();
    s.start();
    let breaks_once = s.log.matches('\n').count();
    assert_eq!(breaks_once, breaks_before + 50);
    let log_once = s.log.clone();
    s.start();
    let breaks_twice = s.log.matches('\n').count();
    assert_eq!(breaks_twice, breaks_once + 50);
    assert_eq!(s.log, format!("{}{}", log_once, expected_run_block()));
    assert!(s.log.starts_with("Output will be here"));
}

#[test]
fn identifier_does_not_alter_the_run_output() {
    let mut with_id = AppState::new();
    with_id.set_identifier(String::from("PCB-0042"));
    with_id.start();

    let mut without_id = AppState::new();
    without_id.start();

    assert_eq!(with_id.log, without_id.log);
    assert_eq!(with_id.test_result, without_id.test_result);
    assert_eq!(with_id.error_code, without_id.error_code);
    assert_eq!(with_id.identifier, "PCB-0042");
}

#[test]
fn empty_identifier_is_accepted_silently() {
    let mut s = AppState::new();
    s.set_identifier(String::new());
    s.start();
    assert_eq!(s.identifier, "");
    assert_eq!(s.test_result, "Check the button and LM for shorts");
    assert_eq!(s.error_code, "GPIO: pin (gpio 11) value is 0");
}
