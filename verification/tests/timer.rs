use kl25z_hal::time::{Hertz, MilliSeconds};
use kl25z_hal::timer::{lptmr_start_parameters, pit_load_value};

#[test]
fn short_timeouts_bypass_the_prescaler() {
    assert_eq!(lptmr_start_parameters(MilliSeconds(1)), (1, None));
    assert_eq!(lptmr_start_parameters(MilliSeconds(1000)), (1000, None));
    assert_eq!(lptmr_start_parameters(MilliSeconds(65535)), (65535, None));
}

#[test]
fn long_timeouts_scale_by_a_power_of_two() {
    // 65536 ms: ratio 1, so divide by the next power of two of 2, which
    // the hardware encodes as exponent bits 0 (prescale 2^(0+1) = 2).
    assert_eq!(lptmr_start_parameters(MilliSeconds(65536)), (32768, Some(0)));
    // 200_000 ms: ratio 3, prescale 4 (bits 1): count 50_000 fits 16 bits.
    assert_eq!(lptmr_start_parameters(MilliSeconds(200_000)), (50_000, Some(1)));
    // The largest timeout: ratio 65535, prescale 65536 (bits 15).
    assert_eq!(
        lptmr_start_parameters(MilliSeconds(u32::MAX)),
        (65535, Some(15))
    );
}

#[test]
fn pit_counts_bus_cycles_per_period() {
    assert_eq!(pit_load_value(Hertz(24_000_000), Hertz(1000)), 24_000);
    assert_eq!(pit_load_value(Hertz(10_485_760), Hertz(1)), 10_485_760);
}
