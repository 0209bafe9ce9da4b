use kl25z_hal::time::{Hertz, Instant, KiloHertz, MegaHertz, MicroSeconds, MilliSeconds, U32Ext};

#[test]
fn unit_wrappers_keep_their_magnitude() {
    assert_eq!(1.bps().0, 1);
    assert_eq!(42.hz().0, 42);
    assert_eq!(42.khz().0, 42);
    assert_eq!(42.mhz().0, 42);
    assert_eq!(7.s().0, 7);
    assert_eq!(7.ms().0, 7);
    assert_eq!(7.us().0, 7);
}

#[test]
fn frequency_conversions_round_trip_thousands() {
    let hz: Hertz = 1.khz().into();
    assert_eq!(hz, 1000.hz());
    let hz: Hertz = 1.mhz().into();
    assert_eq!(hz, 1_000_000.hz());
    let khz: KiloHertz = 1.mhz().into();
    assert_eq!(khz, 1000.khz());
    // The triangle commutes: megahertz through kilohertz equals megahertz
    // straight to hertz.
    let via_khz: Hertz = KiloHertz::from(3.mhz()).into();
    let direct: Hertz = 3.mhz().into();
    assert_eq!(via_khz, direct);
}

#[test]
fn time_conversions_round_trip_thousands() {
    let ms: MilliSeconds = 2.s().into();
    assert_eq!(ms, 2000.ms());
    let us: MicroSeconds = 2.s().into();
    assert_eq!(us, 2_000_000.us());
    let us: MicroSeconds = 5.ms().into();
    assert_eq!(us, 5000.us());
}

#[test]
fn conversions_are_exact_multiplications() {
    assert_eq!(Hertz::from(KiloHertz(48_000)).0, 48_000_000);
    assert_eq!(Hertz::from(MegaHertz(24)).0, 24_000_000);
    assert_eq!(KiloHertz::from(MegaHertz(48)).0, 48_000);
}

#[test]
fn elapsed_counts_ticks_and_wraps() {
    let start = Instant::from_ticks(100);
    assert_eq!(start.elapsed(Instant::from_ticks(250)), 150);
    assert_eq!(start.elapsed(Instant::from_ticks(100)), 0);
    // The counter wraps: an observation just past the wrap still counts
    // forward.
    let near_wrap = Instant::from_ticks(u32::MAX - 1);
    assert_eq!(near_wrap.elapsed(Instant::from_ticks(3)), 5);
}
