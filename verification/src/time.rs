//! Time and frequency units.
//!
//! Plain wrappers around an unsigned 32-bit magnitude, with lossless widening
//! conversions (kilohertz to hertz, megahertz to kilohertz or hertz, and the
//! analogous conversions for seconds).  No narrowing conversions are defined:
//! narrowing would silently lose precision, so requesting one is a type
//! error rather than a runtime rounding.

use vstd::prelude::*;

verus! {

/// Bits per second
#[derive(Clone, Copy, Debug, PartialEq, Eq, Structural)]
pub struct Bps(pub u32);

/// Hertz
#[derive(Clone, Copy, Debug, PartialEq, Eq, Structural)]
pub struct Hertz(pub u32);

/// KiloHertz
#[derive(Clone, Copy, Debug, PartialEq, Eq, Structural)]
pub struct KiloHertz(pub u32);

/// MegaHertz
#[derive(Clone, Copy, Debug, PartialEq, Eq, Structural)]
pub struct MegaHertz(pub u32);

/// Seconds
#[derive(Clone, Copy, Debug, PartialEq, Eq, Structural)]
pub struct Seconds(pub u32);

/// Milliseconds
#[derive(Clone, Copy, Debug, PartialEq, Eq, Structural)]
pub struct MilliSeconds(pub u32);

/// Microseconds
#[derive(Clone, Copy, Debug, PartialEq, Eq, Structural)]
pub struct MicroSeconds(pub u32);

/// Extension trait that adds convenience methods to the `u32` type
pub trait U32Ext {
    /// Wrap in `Bps`
    fn bps(self) -> Bps;

    /// Wrap in `Hertz`
    fn hz(self) -> Hertz;

    /// Wrap in `KiloHertz`
    fn khz(self) -> KiloHertz;

    /// Wrap in `MegaHertz`
    fn mhz(self) -> MegaHertz;

    /// Wrap in `Seconds`
    fn s(self) -> Seconds;

    /// Wrap in `MilliSeconds`
    fn ms(self) -> MilliSeconds;

    /// Wrap in `MicroSeconds`
    fn us(self) -> MicroSeconds;
}

impl U32Ext for u32 {
    fn bps(self) -> (r: Bps)
        ensures
            r.0 == self,
    {
        Bps(self)
    }

    fn hz(self) -> (r: Hertz)
        ensures
            r.0 == self,
    {
        Hertz(self)
    }

    fn khz(self) -> (r: KiloHertz)
        ensures
            r.0 == self,
    {
        KiloHertz(self)
    }

    fn mhz(self) -> (r: MegaHertz)
        ensures
            r.0 == self,
    {
        MegaHertz(self)
    }

    fn s(self) -> (r: Seconds)
        ensures
            r.0 == self,
    {
        Seconds(self)
    }

    fn ms(self) -> (r: MilliSeconds)
        ensures
            r.0 == self,
    {
        MilliSeconds(self)
    }

    fn us(self) -> (r: MicroSeconds)
        ensures
            r.0 == self,
    {
        MicroSeconds(self)
    }
}

/// The kilohertz value `k` expressed in hertz.  Exact whenever the product
/// fits in 32 bits; on misuse (overflow) the result wraps, matching the
/// documented "caller must ensure no overflow" contract of these units.
pub open spec fn khz_to_hz(k: KiloHertz) -> Hertz {
    Hertz(vstd::wrapping::u32_specs::wrapping_mul(k.0, 1000))
}

/// The megahertz value `m` expressed in hertz.
pub open spec fn mhz_to_hz(m: MegaHertz) -> Hertz {
    Hertz(vstd::wrapping::u32_specs::wrapping_mul(m.0, 1_000_000))
}

/// The megahertz value `m` expressed in kilohertz.
pub open spec fn mhz_to_khz(m: MegaHertz) -> KiloHertz {
    KiloHertz(vstd::wrapping::u32_specs::wrapping_mul(m.0, 1000))
}

/// The seconds value `s` expressed in milliseconds.
pub open spec fn s_to_ms(s: Seconds) -> MilliSeconds {
    MilliSeconds(vstd::wrapping::u32_specs::wrapping_mul(s.0, 1000))
}

/// The seconds value `s` expressed in microseconds.
pub open spec fn s_to_us(s: Seconds) -> MicroSeconds {
    MicroSeconds(vstd::wrapping::u32_specs::wrapping_mul(s.0, 1_000_000))
}

/// The milliseconds value `ms` expressed in microseconds.
pub open spec fn ms_to_us(ms: MilliSeconds) -> MicroSeconds {
    MicroSeconds(vstd::wrapping::u32_specs::wrapping_mul(ms.0, 1000))
}

impl From<KiloHertz> for Hertz {
    fn from(k: KiloHertz) -> Hertz {
        Hertz(k.0.wrapping_mul(1000))
    }
}

impl vstd::std_specs::convert::FromSpecImpl<KiloHertz> for Hertz {
    open spec fn obeys_from_spec() -> bool {
        true
    }

    open spec fn from_spec(k: KiloHertz) -> Hertz {
        khz_to_hz(k)
    }
}

impl From<MegaHertz> for Hertz {
    fn from(m: MegaHertz) -> Hertz {
        Hertz(m.0.wrapping_mul(1_000_000))
    }
}

impl vstd::std_specs::convert::FromSpecImpl<MegaHertz> for Hertz {
    open spec fn obeys_from_spec() -> bool {
        true
    }

    open spec fn from_spec(m: MegaHertz) -> Hertz {
        mhz_to_hz(m)
    }
}

impl From<MegaHertz> for KiloHertz {
    fn from(m: MegaHertz) -> KiloHertz {
        KiloHertz(m.0.wrapping_mul(1000))
    }
}

impl vstd::std_specs::convert::FromSpecImpl<MegaHertz> for KiloHertz {
    open spec fn obeys_from_spec() -> bool {
        true
    }

    open spec fn from_spec(m: MegaHertz) -> KiloHertz {
        mhz_to_khz(m)
    }
}

impl From<Seconds> for MilliSeconds {
    fn from(s: Seconds) -> MilliSeconds {
        MilliSeconds(s.0.wrapping_mul(1000))
    }
}

impl vstd::std_specs::convert::FromSpecImpl<Seconds> for MilliSeconds {
    open spec fn obeys_from_spec() -> bool {
        true
    }

    open spec fn from_spec(s: Seconds) -> MilliSeconds {
        s_to_ms(s)
    }
}

impl From<Seconds> for MicroSeconds {
    fn from(s: Seconds) -> MicroSeconds {
        MicroSeconds(s.0.wrapping_mul(1_000_000))
    }
}

impl vstd::std_specs::convert::FromSpecImpl<Seconds> for MicroSeconds {
    open spec fn obeys_from_spec() -> bool {
        true
    }

    open spec fn from_spec(s: Seconds) -> MicroSeconds {
        s_to_us(s)
    }
}

impl From<MilliSeconds> for MicroSeconds {
    fn from(ms: MilliSeconds) -> MicroSeconds {
        MicroSeconds(ms.0.wrapping_mul(1000))
    }
}

impl vstd::std_specs::convert::FromSpecImpl<MilliSeconds> for MicroSeconds {
    open spec fn obeys_from_spec() -> bool {
        true
    }

    open spec fn from_spec(ms: MilliSeconds) -> MicroSeconds {
        ms_to_us(ms)
    }
}

/// Unit conversions are exact (no rounding) whenever the widened value fits
/// in 32 bits: a kilohertz value is exactly a thousand times its magnitude
/// in hertz, and a megahertz value a million times.
pub proof fn lemma_frequency_conversions_exact(k: KiloHertz, m: MegaHertz)
    requires
        k.0 * 1000 <= u32::MAX,
        m.0 * 1_000_000 <= u32::MAX,
    ensures
        khz_to_hz(k).0 == k.0 * 1000,
        mhz_to_hz(m).0 == m.0 * 1_000_000,
        mhz_to_khz(m).0 == m.0 * 1000,
{
}

/// Converting megahertz to kilohertz and then to hertz agrees with the
/// direct megahertz-to-hertz conversion: the conversion triangle commutes,
/// so `1.mhz()`, `1000.khz()` and `1_000_000.hz()` all denote one frequency.
pub proof fn lemma_frequency_conversions_commute(m: MegaHertz)
    requires
        m.0 * 1_000_000 <= u32::MAX,
    ensures
        khz_to_hz(mhz_to_khz(m)) == mhz_to_hz(m),
{
}

/// The same triangle for time units: seconds to milliseconds to
/// microseconds agrees with seconds straight to microseconds.
pub proof fn lemma_time_conversions_commute(s: Seconds)
    requires
        s.0 * 1_000_000 <= u32::MAX,
    ensures
        ms_to_us(s_to_ms(s)) == s_to_us(s),
{
}


/// A timer that can report a monotonically nondecreasing tick count.
pub trait MonoTimer {
    /// The frequency at which the monotonic timer is operating.
    fn frequency(&self) -> Hertz;

    /// An `Instant` corresponding to "now".
    fn now(&self) -> Instant;
}

/// Relies on mkl25z4's PIT::cval0 reader: the current value of the
/// down-counter of channel 0.
#[verifier::external_body]
fn pit_current_value(pit: &mkl25z4::PIT) -> u32 {
    pit.cval0.read().bits()
}

/// Relies on mkl25z4's PIT::tctrl0 writer: stops channel 0.
#[verifier::external_body]
fn pit_stop_channel(pit: &mkl25z4::PIT) {
    pit.tctrl0.modify(|_, w| w.ten().clear_bit());
}

/// Relies on mkl25z4's SIM::scgc6 writer: gates the clock to the PIT
/// module off.
#[verifier::external_body]
fn sim_disable_pit_clock(sim: &mut mkl25z4::SIM) {
    sim.scgc6.modify(|_, w| w.pit().clear_bit());
}

/// A monotonic nondecreasing timer built on the periodic interrupt timer,
/// owning the peripheral so that it can later be released.
pub struct NonCopyableMonoTimer {
    pit: mkl25z4::PIT,
    frequency: Hertz,
}

impl NonCopyableMonoTimer {
    /// The frequency the timer counts at.
    pub closed spec fn spec_frequency(self) -> Hertz {
        self.frequency
    }

    /// Wraps a periodic interrupt timer that has been set up to count
    /// down freely at `frequency`.
    pub fn from_parts(pit: mkl25z4::PIT, frequency: Hertz) -> (r: Self)
        ensures
            r.spec_frequency() == frequency,
    {
        NonCopyableMonoTimer { pit, frequency }
    }

    /// Stops the timer and releases the peripheral.
    pub fn free(self, sim: &mut mkl25z4::SIM) -> mkl25z4::PIT {
        pit_stop_channel(&self.pit);
        sim_disable_pit_clock(sim);
        self.pit
    }
}

impl MonoTimer for NonCopyableMonoTimer {
    fn frequency(&self) -> (r: Hertz)
        ensures
            r == self.spec_frequency(),
    {
        self.frequency
    }

    fn now(&self) -> Instant {
        Instant {
            // The PIT counts from 0xffffffff down to 0.
            now: 0xffffffff_u32.wrapping_sub(pit_current_value(&self.pit)),
        }
    }
}

/// A monotonic nondecreasing timer like [`NonCopyableMonoTimer`], but
/// with the peripheral handle given up, so that the value can be copied
/// freely; the resources can never be released.
#[derive(Clone, Copy)]
pub struct CopyableMonoTimer {
    frequency: Hertz,
}

impl CopyableMonoTimer {
    /// The frequency the timer counts at.
    pub closed spec fn spec_frequency(self) -> Hertz {
        self.frequency
    }

    /// Gives up the peripheral handle of `timer` in exchange for
    /// copyability.
    pub fn new(timer: NonCopyableMonoTimer) -> (r: Self)
        ensures
            r.spec_frequency() == timer.spec_frequency(),
    {
        CopyableMonoTimer { frequency: timer.frequency }
    }

    /// The frequency the timer counts at.
    pub fn frequency(&self) -> (r: Hertz)
        ensures
            r == self.spec_frequency(),
    {
        self.frequency
    }
}

/// A measurement of a monotonically nondecreasing clock
#[derive(Clone, Copy, Debug, PartialEq, Eq, Structural)]
pub struct Instant {
    now: u32,
}

impl Instant {
    /// The tick count the instant was created at.
    pub closed spec fn spec_now(self) -> u32 {
        self.now
    }

    /// An instant at a given tick count, for timer drivers that read the
    /// count from hardware the library does not own.
    pub fn from_ticks(now: u32) -> (r: Instant)
        ensures
            r.spec_now() == now,
    {
        Instant { now }
    }

    /// Ticks elapsed from this instant to `other`, as the counter's
    /// wrapping difference: exact while less than a full counter period
    /// has passed.
    pub fn elapsed(&self, other: Instant) -> (r: u32)
        ensures
            r == vstd::wrapping::u32_specs::wrapping_sub(other.spec_now(), self.spec_now()),
            other.spec_now() >= self.spec_now() ==> r == other.spec_now() - self.spec_now(),
    {
        other.now.wrapping_sub(self.now)
    }
}

} // verus!
