//! Hardware timers.
//!
//! [`Timer`] pairs a timer peripheral with the clock snapshot it needs to
//! convert a timeout into hardware counts.  The low-power timer counts a
//! 1 kHz clock and holds its compare value in a 16-bit register, so longer
//! timeouts in milliseconds must be scaled down by a power-of-two
//! prescaler first; [`lptmr_start_parameters`] derives the compare value
//! and the prescaler encoding.  The periodic interrupt timer counts bus
//! clock cycles down from a load value derived in [`pit_load_value`].

use vstd::arithmetic::power2::pow2;
use vstd::prelude::*;

use crate::clocks::Clocks;
use crate::math::{bit_width, next_power_of_two};
use crate::time::{Hertz, MilliSeconds};

verus! {

/// Interrupt events a timer can signal.
pub enum Event {
    /// The timer reached its compare value.
    Update,
}

/// Timers whose update interrupt can be switched on and off.
pub trait TimerInterrupt {
    /// Signals an interrupt when the timer expires.
    fn enable_interrupt(&self);

    /// Stops signalling interrupts.
    fn disable_interrupt(&self);
}

/// A timer peripheral together with the clock frequencies it counts at.
pub struct Timer<TIM> {
    tim: TIM,
    clocks: Clocks,
}

impl<TIM> Timer<TIM> {
    /// The clock snapshot the timer computes its counts from.
    pub closed spec fn spec_clocks(self) -> Clocks {
        self.clocks
    }

    /// Pairs a timer peripheral with the clock snapshot.
    pub fn from_parts(tim: TIM, clocks: Clocks) -> (r: Self)
        ensures
            r.spec_clocks() == clocks,
    {
        Timer { tim, clocks }
    }
}

/// The compare value and prescaler encoding for a low-power-timer timeout.
///
/// The timer counts the 1 kHz low-power oscillator, so the count equals
/// the timeout in milliseconds; the compare register holds 16 bits.  A
/// timeout below 2^16 is used directly with the prescaler bypassed
/// (`None`).  A longer timeout is divided by the smallest power of two
/// that makes it fit; the hardware encodes that prescaler as one less
/// than the exponent.
pub fn lptmr_start_parameters(timeout: MilliSeconds) -> (r: (u16, Option<u8>))
    ensures
        timeout.0 < 65536 ==> r == (timeout.0 as u16, None::<u8>),
        timeout.0 >= 65536 ==> {
            let prescale = next_power_of_two((timeout.0 / 65536 + 1) as nat);
            &&& r.0 == timeout.0 as int / prescale as int
            &&& r.1 == Some((bit_width((timeout.0 / 65536) as nat) - 1) as u8)
        },
{
    let ratio: u32 = timeout.0 / 65536;
    if ratio == 0 {
        (timeout.0 as u16, None)
    } else {
        let target: u32 = ratio + 1;
        let mut prescale: u32 = 1;
        let mut exponent: u32 = 0;
        proof {
            vstd::arithmetic::power2::lemma2_to64();
        }
        while prescale < target
            invariant
                2 <= target <= 65536,
                prescale == pow2(exponent as nat),
                prescale <= 65536,
                exponent <= 16,
                exponent == 0 || pow2((exponent - 1) as nat) < target,
            decreases 2 * target - prescale,
        {
            proof {
                vstd::arithmetic::power2::lemma2_to64();
                vstd::arithmetic::power2::lemma_pow2_pos(exponent as nat);
                if exponent >= 16 {
                    if exponent > 16 {
                        vstd::arithmetic::power2::lemma_pow2_strictly_increases(
                            16,
                            exponent as nat,
                        );
                    }
                    assert(false);
                }
                vstd::arithmetic::power2::lemma_pow2_unfold((exponent + 1) as nat);
                if exponent + 1 < 16 {
                    vstd::arithmetic::power2::lemma_pow2_strictly_increases(
                        (exponent + 1) as nat,
                        16,
                    );
                }
            }
            prescale = prescale * 2;
            exponent = exponent + 1;
        }
        proof {
            crate::math::lemma_next_power_of_two_unique(target as nat, exponent as nat);
            // The scaled count fits the 16-bit compare register: the
            // prescaler is at least one above timeout / 2^16.
            vstd::arithmetic::div_mod::lemma_fundamental_div_mod(timeout.0 as int, 65536);
            vstd::arithmetic::div_mod::lemma_mod_division_less_than_divisor(
                timeout.0 as int,
                65536,
            );
            vstd::arithmetic::div_mod::lemma_multiply_divide_lt(
                timeout.0 as int,
                prescale as int,
                65536,
            );
        }
        let compare: u32 = timeout.0 / prescale;
        (compare as u16, Some((exponent - 1) as u8))
    }
}

/// The load value for a periodic interrupt timer firing `rate` times a
/// second: the number of bus clock cycles in one period.
pub fn pit_load_value(busclk: Hertz, rate: Hertz) -> (r: u32)
    requires
        rate.0 >= 1,
    ensures
        r == busclk.0 as int / rate.0 as int,
{
    busclk.0 / rate.0
}

/// Relies on mkl25z4's LPTMR0::csr writer: sets the timer interrupt
/// enable bit.
#[verifier::external_body]
fn lptmr_enable_interrupt(tim: &mkl25z4::LPTMR0) {
    tim.csr.modify(|_, w| w.tie().set_bit());
}

/// Relies on mkl25z4's LPTMR0::csr writer: clears the timer interrupt
/// enable bit.
#[verifier::external_body]
fn lptmr_disable_interrupt(tim: &mkl25z4::LPTMR0) {
    tim.csr.modify(|_, w| w.tie().clear_bit());
}

/// Relies on mkl25z4's PIT::tctrl0 writer: sets the timer interrupt
/// enable bit of channel 0.
#[verifier::external_body]
fn pit_enable_interrupt(tim: &mkl25z4::PIT) {
    tim.tctrl0.modify(|_, w| w.tie().set_bit());
}

/// Relies on mkl25z4's PIT::tctrl0 writer: clears the timer interrupt
/// enable bit of channel 0.
#[verifier::external_body]
fn pit_disable_interrupt(tim: &mkl25z4::PIT) {
    tim.tctrl0.modify(|_, w| w.tie().clear_bit());
}

impl TimerInterrupt for Timer<mkl25z4::LPTMR0> {
    fn enable_interrupt(&self) {
        lptmr_enable_interrupt(&self.tim);
    }

    fn disable_interrupt(&self) {
        lptmr_disable_interrupt(&self.tim);
    }
}

impl TimerInterrupt for Timer<mkl25z4::PIT> {
    fn enable_interrupt(&self) {
        pit_enable_interrupt(&self.tim);
    }

    fn disable_interrupt(&self) {
        pit_disable_interrupt(&self.tim);
    }
}

} // verus!
