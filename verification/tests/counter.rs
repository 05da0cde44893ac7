use dispatch_engine::counter::State;
use dispatch_engine::error::HandlerError;
use dispatch_engine::fast_path::claim;

#[test]
fn new_counter_has_counted_nothing() {
    let state = State::new();
    assert_eq!(state.calls(), 0);
}

#[test]
fn increment_returns_the_new_count() {
    let mut state = State::new();
    assert_eq!(state.increment(), 1);
    assert_eq!(state.calls(), 1);
    assert_eq!(state.increment(), 2);
    assert_eq!(state.increment(), 3);
    assert_eq!(state.calls(), 3);
}

#[test]
fn increments_give_every_value_once() {
    let mut state = State::new();
    let mut seen: Vec<u32> = Vec::new();
    for _ in 0..1000 {
        seen.push(state.increment());
    }
    let expected: Vec<u32> = (1..=1000).collect();
    assert_eq!(seen, expected);
}

#[test]
fn claim_counts_like_increment() {
    let mut state = State::new();
    assert_eq!(claim(&mut state), Ok(1));
    assert_eq!(claim(&mut state), Ok(2));
    assert_eq!(state.calls(), 2);
    assert_eq!(state.increment(), 3);
    assert_eq!(claim(&mut state), Ok(4));
}

#[test]
fn poisoned_lock_is_a_state_access_failure() {
    let poisoned = std::sync::PoisonError::new(7u8);
    assert_eq!(HandlerError::from(poisoned), HandlerError::StateAccess);
}
