use swa::lifecycle::{AppState, Lifecycle};

#[test]
fn accepted_send_reports_on() {
    assert_eq!(AppState::from_accepted(true), AppState::On);
}

#[test]
fn refused_send_reports_off() {
    assert_eq!(AppState::from_accepted(false), AppState::Off);
}

#[test]
fn is_on_tells_the_two_signals_apart() {
    assert!(AppState::On.is_on());
    assert!(!AppState::Off.is_on());
}

#[test]
fn lifecycle_starts_on() {
    assert_eq!(Lifecycle::new().signal(), AppState::On);
}

#[test]
fn lifecycle_stays_on_while_sends_are_accepted() {
    let mut lifecycle = Lifecycle::new();
    assert_eq!(lifecycle.record(true), AppState::On);
    assert_eq!(lifecycle.record(true), AppState::On);
    assert_eq!(lifecycle.signal(), AppState::On);
}

#[test]
fn lifecycle_turns_off_on_first_refusal() {
    let mut lifecycle = Lifecycle::new();
    assert_eq!(lifecycle.record(true), AppState::On);
    assert_eq!(lifecycle.record(false), AppState::Off);
    assert_eq!(lifecycle.signal(), AppState::Off);
}

#[test]
fn lifecycle_off_is_permanent() {
    let mut lifecycle = Lifecycle::new();
    assert_eq!(lifecycle.record(false), AppState::Off);
    for accepted in [true, false, true, true] {
        assert_eq!(lifecycle.record(accepted), AppState::Off);
        assert_eq!(lifecycle.signal(), AppState::Off);
    }
}

#[test]
fn send_after_teardown_reports_off_once_and_for_all() {
    // The loop is torn down while a message is on its way: the attempt that comes
    // before is accepted, the one that comes after is refused, and so is every later one.
    let mut lifecycle = Lifecycle::new();
    assert_eq!(lifecycle.record(true), AppState::On);
    assert_eq!(lifecycle.record(false), AppState::Off);
    assert_eq!(lifecycle.record(false), AppState::Off);
}
