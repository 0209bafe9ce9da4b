//! Port A pins.

use vstd::prelude::*;

use super::{Floating, GpioExt, Input};

verus! {

/// Pin PA14
pub struct PA14<MODE> {
    _mode: core::marker::PhantomData<MODE>,
}

/// Pin PA15
pub struct PA15<MODE> {
    _mode: core::marker::PhantomData<MODE>,
}

/// Pin PA16
pub struct PA16<MODE> {
    _mode: core::marker::PhantomData<MODE>,
}

/// Pin PA17
pub struct PA17<MODE> {
    _mode: core::marker::PhantomData<MODE>,
}

/// Pin PA18 (EXTAL0, the external oscillator input)
pub struct PA18<MODE> {
    _mode: core::marker::PhantomData<MODE>,
}

/// Pin PA19 (XTAL0, the external oscillator output)
pub struct PA19<MODE> {
    _mode: core::marker::PhantomData<MODE>,
}

/// Port A split into independent pins
pub struct Parts {
    /// Pin PA14
    pub pa14: PA14<Input<Floating>>,
    /// Pin PA15
    pub pa15: PA15<Input<Floating>>,
    /// Pin PA16
    pub pa16: PA16<Input<Floating>>,
    /// Pin PA17
    pub pa17: PA17<Input<Floating>>,
    /// Pin PA18
    pub pa18: PA18<Input<Floating>>,
    /// Pin PA19
    pub pa19: PA19<Input<Floating>>,
}

/// Relies on mkl25z4's SIM::scgc5 writer: gates the clock to the port A
/// module on, enabling pin routing.
#[verifier::external_body]
fn sim_enable_porta_clock(sim: &mut mkl25z4::SIM) {
    sim.scgc5.modify(|_, w| w.porta().set_bit());
}

impl GpioExt for mkl25z4::PORTA {
    type Parts = Parts;

    fn split(self, sim: &mut mkl25z4::SIM) -> Parts {
        sim_enable_porta_clock(sim);
        Parts {
            pa14: PA14 { _mode: core::marker::PhantomData },
            pa15: PA15 { _mode: core::marker::PhantomData },
            pa16: PA16 { _mode: core::marker::PhantomData },
            pa17: PA17 { _mode: core::marker::PhantomData },
            pa18: PA18 { _mode: core::marker::PhantomData },
            pa19: PA19 { _mode: core::marker::PhantomData },
        }
    }
}

} // verus!
