use kl25z_hal::clocks::{
    bringup_clocks, bringup_entry_action, bringup_step, fll_output_frequency, select_bus_divider,
    select_fll_dividers, BringupAction, ClockConfiguration, McgMode, McgStatus,
};
use kl25z_hal::time::U32Ext;

#[test]
fn low_targets_use_rounded_division() {
    // Below 5.8 MHz: outdiv1 = round(640 * 32767 / target) - 1, range 0.
    assert_eq!(select_fll_dividers(1_000_000), (20, 0));
    assert_eq!(select_fll_dividers(5_000_000), (3, 0));
}

#[test]
fn ten_megahertz_band() {
    let (outdiv1, range) = select_fll_dividers(10_000_000);
    assert_eq!((outdiv1, range), (1, 0));
    assert_eq!(fll_output_frequency(outdiv1, range), 10_485_760);
}

#[test]
fn top_band_for_high_targets() {
    let (outdiv1, range) = select_fll_dividers(50_000_000);
    assert_eq!((outdiv1, range), (0, 1));
    assert_eq!(fll_output_frequency(outdiv1, range), 41_943_040);
}

#[test]
fn band_boundaries() {
    assert_eq!(select_fll_dividers(5_800_000), (6, 1));
    assert_eq!(select_fll_dividers(5_799_999).1, 0);
    assert_eq!(select_fll_dividers(36_800_000), (0, 1));
    assert_eq!(select_fll_dividers(36_799_999), (1, 2));
}

#[test]
fn bus_divider_rounds_up() {
    // 20_971_520 / 10_000_000 = 2.097..; the divisor is rounded up to 3,
    // so the bus clock lands at or below the request.
    assert_eq!(select_bus_divider(20_971_520, 10_000_000), 2);
    assert_eq!(20_971_520 / (2 + 1), 6_990_506);
    // An exact division is kept: dividing by exactly 2 gives outdiv4 = 1.
    assert_eq!(select_bus_divider(20_971_520, 10_485_760), 1);
    assert_eq!(20_971_520 / (1 + 1), 10_485_760);
}

#[test]
fn bus_divider_clamps_at_eight() {
    // A bus request far below the core clock pins the divisor at its
    // hardware maximum of 8, stored as 7.
    assert_eq!(select_bus_divider(41_943_040, 1), 7);
}

#[test]
fn bus_divider_clamps_at_one() {
    // A bus request above the core clock still divides by at least 1.
    assert_eq!(select_bus_divider(10_485_760, 40_000_000), 0);
}

#[test]
fn builder_calls_chain() {
    let _config = ClockConfiguration::new()
        .core_clock(20_971_520.hz())
        .bus_clock(10_485_760.hz())
        .use_irc();
}

#[test]
fn bringup_chain_is_fei_fbe_pbe_pee() {
    let fbe_ready = McgStatus { fll_reference_internal: false, clock_mode: 2, pll_locked: false };
    let pbe_ready = McgStatus { fll_reference_internal: false, clock_mode: 2, pll_locked: true };
    let pee_ready = McgStatus { fll_reference_internal: false, clock_mode: 3, pll_locked: true };
    assert_eq!(bringup_step(McgMode::Fei, fbe_ready), McgMode::Fbe);
    assert_eq!(bringup_step(McgMode::Fbe, pbe_ready), McgMode::Pbe);
    assert_eq!(bringup_step(McgMode::Pbe, pee_ready), McgMode::Pee);
    // The terminal mode is never left, whatever the status shows.
    assert_eq!(bringup_step(McgMode::Pee, fbe_ready), McgMode::Pee);
}

#[test]
fn bringup_waits_until_status_confirms() {
    let reset = McgStatus { fll_reference_internal: true, clock_mode: 0, pll_locked: false };
    assert_eq!(bringup_step(McgMode::Fei, reset), McgMode::Fei);
    assert_eq!(bringup_step(McgMode::Fbe, reset), McgMode::Fbe);
    assert_eq!(bringup_step(McgMode::Pbe, reset), McgMode::Pbe);
    // Half-done transitions do not advance either: the FLL reference has
    // switched but the clock mode has not settled yet.
    let half = McgStatus { fll_reference_internal: false, clock_mode: 0, pll_locked: false };
    assert_eq!(bringup_step(McgMode::Fei, half), McgMode::Fei);
}

#[test]
fn bringup_actions_follow_the_modes() {
    assert_eq!(
        bringup_entry_action(McgMode::Fei),
        BringupAction::ConfigureExternalReference
    );
    assert_eq!(bringup_entry_action(McgMode::Fbe), BringupAction::EnablePll);
    assert_eq!(bringup_entry_action(McgMode::Pbe), BringupAction::SelectPllOutput);
    assert_eq!(bringup_entry_action(McgMode::Pee), BringupAction::Stay);
}

#[test]
fn bringup_clock_snapshot() {
    let clocks = bringup_clocks();
    assert_eq!(clocks.coreclk().0, 48_000_000);
    assert_eq!(clocks.busclk().0, 18_000_000);
}
