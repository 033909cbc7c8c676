use rdnat::relay::{Direction, Relay};

#[test]
fn relay_closes_after_both_directions() {
    let mut relay = Relay::new();
    assert!(!relay.is_complete());
    let first = relay.finish(Direction::Forward, false);
    assert!(!first.close);
    assert!(!first.log_error);
    let second = relay.finish(Direction::Backward, false);
    assert!(second.close);
    assert!(relay.is_complete());
}

#[test]
fn relay_logs_an_error_and_still_waits_for_the_other_direction() {
    let mut relay = Relay::new();
    let first = relay.finish(Direction::Backward, true);
    assert!(first.log_error);
    assert!(!first.close);
    let again = relay.finish(Direction::Backward, false);
    assert!(!again.close);
    let second = relay.finish(Direction::Forward, true);
    assert!(second.log_error);
    assert!(second.close);
}
