use kl25z_hal::pm::{MaximumSleepMode, SleepCounters, SleepMode};

#[test]
fn sleep_mode_indices_round_trip() {
    assert_eq!(SleepMode::Wait.to_index(), 0);
    assert_eq!(SleepMode::Stop.to_index(), 1);
    assert_eq!(SleepMode::VLPS.to_index(), 2);
    assert_eq!(SleepMode::LLS.to_index(), 3);
    for i in 0..4 {
        assert_eq!(SleepMode::from_index(i).to_index(), i);
    }
    // Positions past the deepest mode map to the deepest.
    assert_eq!(SleepMode::from_index(17), SleepMode::LLS);
}

#[test]
fn no_handles_means_wait() {
    let counters = SleepCounters::new();
    assert_eq!(counters.effective_mode(), SleepMode::Wait);
}

#[test]
fn shallowest_outstanding_handle_wins() {
    let mut counters = SleepCounters::new();
    counters.acquire(SleepMode::LLS);
    assert_eq!(counters.effective_mode(), SleepMode::LLS);
    counters.acquire(SleepMode::Stop);
    assert_eq!(counters.effective_mode(), SleepMode::Stop);
    counters.acquire(SleepMode::Wait);
    assert_eq!(counters.effective_mode(), SleepMode::Wait);
    counters.release(SleepMode::Wait);
    counters.release(SleepMode::Stop);
    assert_eq!(counters.effective_mode(), SleepMode::LLS);
}

#[test]
fn handles_count_and_move() {
    let mut counters = SleepCounters::new();
    let mut handle = MaximumSleepMode::new(&mut counters);
    assert_eq!(handle.get(), SleepMode::Wait);
    assert_eq!(counters.effective_mode(), SleepMode::Wait);
    handle.set(SleepMode::VLPS, &mut counters);
    assert_eq!(handle.get(), SleepMode::VLPS);
    assert_eq!(counters.effective_mode(), SleepMode::VLPS);
    let second = MaximumSleepMode::new(&mut counters);
    assert_eq!(counters.effective_mode(), SleepMode::Wait);
    assert_eq!(second.get(), SleepMode::Wait);
}
