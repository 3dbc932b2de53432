use linechat::pacing::{poll_budget, tick_due, PIPE_TICK_NANOS, UI_TICK_NANOS};

#[test]
fn ticks_are_fifty_and_a_hundred_milliseconds() {
    assert_eq!(PIPE_TICK_NANOS, 50_000_000);
    assert_eq!(UI_TICK_NANOS, 100_000_000);
}

#[test]
fn budget_is_what_is_left_of_the_tick() {
    assert_eq!(poll_budget(100_000_000, 0), 100_000_000);
    assert_eq!(poll_budget(100_000_000, 30_000_000), 70_000_000);
    assert_eq!(poll_budget(100_000_000, 99_999_999), 1);
    assert_eq!(poll_budget(u64::MAX, 1), u64::MAX - 1);
}

#[test]
fn budget_is_zero_when_overdue() {
    assert_eq!(poll_budget(100_000_000, 100_000_000), 0);
    assert_eq!(poll_budget(100_000_000, 100_000_001), 0);
    assert_eq!(poll_budget(100_000_000, u128::MAX), 0);
    assert_eq!(poll_budget(0, 0), 0);
    assert_eq!(poll_budget(u64::MAX, u64::MAX as u128 + 1), 0);
}

#[test]
fn tick_is_due_from_the_boundary_on() {
    assert!(!tick_due(100_000_000, 0));
    assert!(!tick_due(100_000_000, 99_999_999));
    assert!(tick_due(100_000_000, 100_000_000));
    assert!(tick_due(100_000_000, u128::MAX));
    assert!(tick_due(0, 0));
}
