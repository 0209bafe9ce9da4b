//! Power management.
//!
//! Components that cannot tolerate a deep sleep declare the deepest mode
//! they accept by holding a [`MaximumSleepMode`] handle.  The outstanding
//! handles are reference-counted per mode in a [`SleepCounters`] array;
//! when the system is about to sleep, the shallowest mode with an
//! outstanding handle wins.  The counter array itself lives with the code
//! that drives the sleep entry (it is process-wide state guarded by a
//! critical section); every operation on it is a function here.

use vstd::prelude::*;

verus! {

/// The sleep modes of the chip, from the lightest to the deepest.
#[derive(Clone, Copy, Debug, PartialEq, Eq, Structural)]
pub enum SleepMode {
    /// Core clock gated, peripherals running.
    Wait,
    /// Core and bus clocks gated.
    Stop,
    /// Very-low-power stop.
    VLPS,
    /// Low-leakage stop.
    LLS,
}

/// The mode kept at a given position of the counter array: the positions
/// follow the depth order, and every position past the deepest mode maps
/// to the deepest.
pub open spec fn mode_of_index(index: int) -> SleepMode {
    if index == 0 {
        SleepMode::Wait
    } else if index == 1 {
        SleepMode::Stop
    } else if index == 2 {
        SleepMode::VLPS
    } else {
        SleepMode::LLS
    }
}

impl SleepMode {
    /// The position of this mode in the depth order.
    pub open spec fn spec_index(self) -> int {
        match self {
            SleepMode::Wait => 0,
            SleepMode::Stop => 1,
            SleepMode::VLPS => 2,
            SleepMode::LLS => 3,
        }
    }

    /// The mode kept at a position of the counter array.
    pub fn from_index(index: usize) -> (m: SleepMode)
        ensures
            m == mode_of_index(index as int),
    {
        match index {
            0 => SleepMode::Wait,
            1 => SleepMode::Stop,
            2 => SleepMode::VLPS,
            _ => SleepMode::LLS,
        }
    }

    /// The position of this mode in the counter array.
    pub fn to_index(self) -> (index: usize)
        ensures
            index == self.spec_index(),
    {
        match self {
            SleepMode::Wait => 0,
            SleepMode::Stop => 1,
            SleepMode::VLPS => 2,
            SleepMode::LLS => 3,
        }
    }
}

/// Round-tripping a mode through its array position gives the mode back,
/// and positions within the array round-trip through their mode: the
/// depth order and the array layout agree.
pub proof fn lemma_sleep_mode_index_round_trip(m: SleepMode, index: int)
    requires
        0 <= index < 4,
    ensures
        mode_of_index(m.spec_index()) == m,
        mode_of_index(index).spec_index() == index,
{
}

/// Reference counts of outstanding sleep-mode requirements, one count per
/// mode, indexed by [`SleepMode::spec_index`].
pub struct SleepCounters {
    counts: [u32; 4],
}

impl SleepCounters {
    /// The count of outstanding handles naming the mode at `index`.
    pub closed spec fn count(self, index: int) -> u32 {
        self.counts[index]
    }

    /// At boot no handle exists.
    pub fn new() -> (r: Self)
        ensures
            forall|i: int| 0 <= i < 4 ==> r.count(i) == 0,
    {
        SleepCounters { counts: [0, 0, 0, 0] }
    }

    /// Records one more handle naming `mode`.
    pub fn acquire(&mut self, mode: SleepMode)
        requires
            old(self).count(mode.spec_index()) < u32::MAX,
        ensures
            final(self).count(mode.spec_index()) == old(self).count(mode.spec_index()) + 1,
            forall|i: int|
                0 <= i < 4 && i != mode.spec_index() ==> final(self).count(i) == old(self).count(
                    i,
                ),
    {
        let index = mode.to_index();
        self.counts[index] = self.counts[index] + 1;
    }

    /// Records that one handle naming `mode` was dropped or changed.
    pub fn release(&mut self, mode: SleepMode)
        requires
            old(self).count(mode.spec_index()) >= 1,
        ensures
            final(self).count(mode.spec_index()) == old(self).count(mode.spec_index()) - 1,
            forall|i: int|
                0 <= i < 4 && i != mode.spec_index() ==> final(self).count(i) == old(self).count(
                    i,
                ),
    {
        let index = mode.to_index();
        self.counts[index] = self.counts[index] - 1;
    }

    /// The count of outstanding handles naming `mode`.
    pub fn outstanding(&self, mode: SleepMode) -> (r: u32)
        ensures
            r == self.count(mode.spec_index()),
    {
        let index = mode.to_index();
        self.counts[index]
    }

    /// The first position holding a non-zero count, or the position of
    /// [`SleepMode::Wait`] if no handle exists.
    pub open spec fn first_required(self) -> int {
        if self.count(0) != 0 {
            0int
        } else if self.count(1) != 0 {
            1int
        } else if self.count(2) != 0 {
            2int
        } else if self.count(3) != 0 {
            3int
        } else {
            0int
        }
    }

    /// The deepest sleep mode every outstanding handle accepts: the
    /// shallowest mode with a non-zero count ([`SleepMode::Wait`] when no
    /// handle exists, since it is the default bound).
    pub fn effective_mode(&self) -> (m: SleepMode)
        ensures
            m == mode_of_index(self.first_required()),
    {
        if self.counts[0] != 0 {
            SleepMode::Wait
        } else if self.counts[1] != 0 {
            SleepMode::Stop
        } else if self.counts[2] != 0 {
            SleepMode::VLPS
        } else if self.counts[3] != 0 {
            SleepMode::LLS
        } else {
            SleepMode::Wait
        }
    }
}

/// Every outstanding handle tolerates the effective mode: no mode with an
/// outstanding count is shallower than the one chosen.
pub proof fn lemma_effective_mode_is_tolerated(c: SleepCounters, index: int)
    requires
        0 <= index < 4,
        c.count(index) != 0,
    ensures
        c.first_required() <= index,
{
}

/// A handle declaring the deepest sleep mode its holder accepts.
pub struct MaximumSleepMode {
    mode: SleepMode,
}

impl MaximumSleepMode {
    /// The declared deepest acceptable mode.
    pub closed spec fn spec_mode(self) -> SleepMode {
        self.mode
    }

    /// Creates a handle declaring [`SleepMode::Wait`], the shallowest
    /// bound, and counts it.
    pub fn new(counters: &mut SleepCounters) -> (r: MaximumSleepMode)
        requires
            old(counters).count(0) < u32::MAX,
        ensures
            r.spec_mode() == SleepMode::Wait,
            final(counters).count(0) == old(counters).count(0) + 1,
            forall|i: int| 0 < i < 4 ==> final(counters).count(i) == old(counters).count(i),
    {
        counters.acquire(SleepMode::Wait);
        MaximumSleepMode { mode: SleepMode::Wait }
    }

    /// Moves this handle's declaration to `mode`.
    pub fn set(&mut self, mode: SleepMode, counters: &mut SleepCounters)
        requires
            old(counters).count(old(self).spec_mode().spec_index()) >= 1,
            old(counters).count(mode.spec_index()) < u32::MAX,
        ensures
            final(self).spec_mode() == mode,
            final(counters).count(mode.spec_index()) >= 1,
            mode != old(self).spec_mode() ==> {
                &&& final(counters).count(old(self).spec_mode().spec_index()) == old(
                    counters,
                ).count(old(self).spec_mode().spec_index()) - 1
                &&& final(counters).count(mode.spec_index()) == old(counters).count(
                    mode.spec_index(),
                ) + 1
            },
            forall|i: int|
                0 <= i < 4 && i != mode.spec_index() && i != old(self).spec_mode().spec_index()
                    ==> final(counters).count(i) == old(counters).count(i),
    {
        counters.release(self.mode);
        counters.acquire(mode);
        self.mode = mode;
    }

    /// The declared deepest acceptable mode.
    pub fn get(&self) -> (m: SleepMode)
        ensures
            m == self.spec_mode(),
    {
        self.mode
    }

}

/// Relies on cortex-m's SCB::set_sleepdeep: selects deep sleep for the
/// next wait-for-interrupt.
#[verifier::external_body]
fn scb_set_sleepdeep(scb: &mut cortex_m::peripheral::SCB) {
    scb.set_sleepdeep();
}

/// Relies on cortex-m's SCB::clear_sleepdeep: selects normal sleep for
/// the next wait-for-interrupt.
#[verifier::external_body]
fn scb_clear_sleepdeep(scb: &mut cortex_m::peripheral::SCB) {
    scb.clear_sleepdeep();
}

/// Relies on mkl25z4's SMC::pmprot writer: allows or forbids entering
/// very-low-power modes.
#[verifier::external_body]
fn smc_allow_very_low_power(smc: &mut mkl25z4::SMC, allow: bool) {
    smc.pmprot.modify(|_, w| w.avlp().bit(allow));
}

/// Relies on mkl25z4's SMC::pmprot writer: allows or forbids entering
/// low-leakage stop.
#[verifier::external_body]
fn smc_allow_low_leakage(smc: &mut mkl25z4::SMC, allow: bool) {
    smc.pmprot.modify(|_, w| w.alls().bit(allow));
}

/// Relies on mkl25z4's SMC::pmctrl stopm writer: selects normal stop.
#[verifier::external_body]
fn smc_stop_mode_normal(smc: &mut mkl25z4::SMC) {
    smc.pmctrl.modify(|_, w| w.stopm()._000());
}

/// Relies on mkl25z4's SMC::pmctrl stopm writer: selects very-low-power
/// stop.
#[verifier::external_body]
fn smc_stop_mode_very_low_power(smc: &mut mkl25z4::SMC) {
    smc.pmctrl.modify(|_, w| w.stopm()._010());
}

/// Relies on mkl25z4's SMC::pmctrl stopm writer: selects low-leakage
/// stop.
#[verifier::external_body]
fn smc_stop_mode_low_leakage(smc: &mut mkl25z4::SMC) {
    smc.pmctrl.modify(|_, w| w.stopm()._011());
}

impl SleepMode {
    /// Programs the power-mode controller and the sleep-deep selection
    /// for this mode.  Entering the sleep itself is one
    /// wait-for-interrupt instruction, which the caller issues after
    /// this; afterwards it restores the controller with
    /// [`SleepMode::restore`].
    pub fn prepare(self, scb: &mut cortex_m::peripheral::SCB, smc: &mut mkl25z4::SMC) {
        match self {
            SleepMode::Wait => {
                scb_clear_sleepdeep(scb);
            },
            SleepMode::Stop => {
                scb_set_sleepdeep(scb);
            },
            SleepMode::VLPS => {
                smc_allow_very_low_power(smc, true);
                smc_stop_mode_very_low_power(smc);
                scb_set_sleepdeep(scb);
            },
            SleepMode::LLS => {
                smc_allow_low_leakage(smc, true);
                smc_stop_mode_low_leakage(smc);
                scb_set_sleepdeep(scb);
            },
        }
    }

    /// Restores the power-mode controller state that
    /// [`SleepMode::prepare`] changed, after the wake-up.
    pub fn restore(self, smc: &mut mkl25z4::SMC) {
        match self {
            SleepMode::Wait => {
            },
            SleepMode::Stop => {
            },
            SleepMode::VLPS => {
                smc_stop_mode_normal(smc);
                smc_allow_very_low_power(smc, false);
            },
            SleepMode::LLS => {
                smc_stop_mode_normal(smc);
                smc_allow_low_leakage(smc, false);
            },
        }
    }
}

} // verus!
