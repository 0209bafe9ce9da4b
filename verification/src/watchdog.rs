//! Computer-operating-properly (COP) watchdog control.

use vstd::prelude::*;

verus! {

/// Relies on mkl25z4's SIM::copc writer: disables the COP watchdog by
/// clearing its timeout selection, and leaves it clocked from the
/// low-power oscillator in normal (non-windowed) mode.  The COP control
/// register can only be written once after a reset, so this disables the
/// watchdog for good.
#[verifier::external_body]
pub fn disable(sim: &mut mkl25z4::SIM) {
    sim.copc.write(|w| w.copt()._00().copclks().clear_bit().copw().clear_bit());
}

} // verus!
