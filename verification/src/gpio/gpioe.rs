//! Port E pins.

use vstd::prelude::*;

use super::{Floating, GpioExt, Input};

verus! {

/// Pin PE1
pub struct PE1<MODE> {
    _mode: core::marker::PhantomData<MODE>,
}

/// Pin PE2
pub struct PE2<MODE> {
    _mode: core::marker::PhantomData<MODE>,
}

/// Pin PE3
pub struct PE3<MODE> {
    _mode: core::marker::PhantomData<MODE>,
}

/// Pin PE4
pub struct PE4<MODE> {
    _mode: core::marker::PhantomData<MODE>,
}

/// Port E split into independent pins
pub struct Parts {
    /// Pin PE1
    pub pe1: PE1<Input<Floating>>,
    /// Pin PE2
    pub pe2: PE2<Input<Floating>>,
    /// Pin PE3
    pub pe3: PE3<Input<Floating>>,
    /// Pin PE4
    pub pe4: PE4<Input<Floating>>,
}

/// Relies on mkl25z4's SIM::scgc5 writer: gates the clock to the port E
/// module on, enabling pin routing.
#[verifier::external_body]
fn sim_enable_porte_clock(sim: &mut mkl25z4::SIM) {
    sim.scgc5.modify(|_, w| w.porte().set_bit());
}

impl GpioExt for mkl25z4::PORTE {
    type Parts = Parts;

    fn split(self, sim: &mut mkl25z4::SIM) -> Parts {
        sim_enable_porte_clock(sim);
        Parts {
            pe1: PE1 { _mode: core::marker::PhantomData },
            pe2: PE2 { _mode: core::marker::PhantomData },
            pe3: PE3 { _mode: core::marker::PhantomData },
            pe4: PE4 { _mode: core::marker::PhantomData },
        }
    }
}

} // verus!
