use dispatch_engine::handoff::handoff_channel;
use dispatch_engine::sizing::{Sizing, MAX_CAPACITY};

#[test]
fn default_sizes_are_four_two_and_thirty_two() {
    let sizing = Sizing::default();
    assert_eq!(sizing.fast_workers(), 4);
    assert_eq!(sizing.background_workers(), 2);
    assert_eq!(sizing.channel_capacity(), 32);
}

#[test]
fn given_sizes_are_kept() {
    let sizing = Sizing::new(8, 3, 64).expect("sizes that an engine can have");
    assert_eq!(sizing.fast_workers(), 8);
    assert_eq!(sizing.background_workers(), 3);
    assert_eq!(sizing.channel_capacity(), 64);
}

#[test]
fn empty_pool_is_refused() {
    assert!(Sizing::new(0, 2, 32).is_none());
    assert!(Sizing::new(4, 0, 32).is_none());
}

#[test]
fn channel_without_a_slot_is_refused() {
    assert!(Sizing::new(4, 2, 0).is_none());
}

#[test]
fn channel_above_the_limit_is_refused() {
    assert_eq!(MAX_CAPACITY, usize::MAX >> 3);
    assert!(Sizing::new(4, 2, MAX_CAPACITY).is_some());
    assert!(Sizing::new(4, 2, MAX_CAPACITY + 1).is_none());
    assert!(Sizing::new(4, 2, usize::MAX).is_none());
}

#[test]
fn channel_has_the_capacity_of_its_sizing() {
    let (sender, receiver) = handoff_channel(&Sizing::default());
    assert_eq!(sender.max_capacity(), 32);
    assert_eq!(receiver.max_capacity(), 32);
    assert_eq!(sender.capacity(), 32);

    let sizing = Sizing::new(1, 1, 5).expect("sizes that an engine can have");
    let (sender, _receiver) = handoff_channel(&sizing);
    assert_eq!(sender.max_capacity(), 5);
}

#[test]
fn channel_of_the_largest_capacity_can_be_made() {
    let sizing = Sizing::new(1, 1, MAX_CAPACITY).expect("sizes that an engine can have");
    let (sender, _receiver) = handoff_channel(&sizing);
    assert_eq!(sender.max_capacity(), MAX_CAPACITY);
}
