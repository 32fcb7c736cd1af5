use rusty_win32::handle::{
    inherit_flags, multiple_wait_outcome, single_wait_outcome, std_handle_outcome, wait_timeout,
    StdHandle, WaitResult,
};

#[test]
fn a_missing_timeout_waits_forever() {
    assert_eq!(wait_timeout(None), 0xFFFF_FFFF);
    assert_eq!(wait_timeout(Some(0)), 0);
    assert_eq!(wait_timeout(Some(1500)), 1500);
}

#[test]
fn inheritance_is_one_flag() {
    assert_eq!(inherit_flags(true), 1);
    assert_eq!(inherit_flags(false), 0);
}

#[test]
fn std_handle_slots_read_three_ways() {
    assert_eq!(std_handle_outcome(usize::MAX), StdHandle::Failed);
    assert_eq!(std_handle_outcome(0), StdHandle::Unassigned);
    assert_eq!(std_handle_outcome(0x44), StdHandle::Handle(0x44));
}

#[test]
fn single_waits_read_their_return_codes() {
    assert_eq!(single_wait_outcome(0), Some(WaitResult::Signaled(0)));
    assert_eq!(single_wait_outcome(0x80), Some(WaitResult::Abandoned(0)));
    assert_eq!(single_wait_outcome(258), Some(WaitResult::TimedOut));
    assert_eq!(single_wait_outcome(0xC0), Some(WaitResult::IoCompletion));
    assert_eq!(single_wait_outcome(0xFFFF_FFFF), None);
    assert_eq!(single_wait_outcome(1), None);
}

#[test]
fn multiple_waits_read_indexes() {
    assert_eq!(multiple_wait_outcome(3, 4), Some(WaitResult::Signaled(3)));
    assert_eq!(multiple_wait_outcome(4, 4), None);
    assert_eq!(multiple_wait_outcome(0x81, 4), Some(WaitResult::Abandoned(1)));
    assert_eq!(multiple_wait_outcome(0x85, 4), None);
    assert_eq!(multiple_wait_outcome(258, 4), Some(WaitResult::TimedOut));
    assert_eq!(multiple_wait_outcome(0xC0, 64), Some(WaitResult::IoCompletion));
    assert_eq!(multiple_wait_outcome(0xFFFF_FFFF, 4), None);
}
