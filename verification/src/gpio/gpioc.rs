//! Port C pins.

use vstd::prelude::*;

use super::{Floating, GpioExt, Input};

verus! {

/// Pin PC4
pub struct PC4<MODE> {
    _mode: core::marker::PhantomData<MODE>,
}

/// Pin PC5
pub struct PC5<MODE> {
    _mode: core::marker::PhantomData<MODE>,
}

/// Pin PC6
pub struct PC6<MODE> {
    _mode: core::marker::PhantomData<MODE>,
}

/// Pin PC7
pub struct PC7<MODE> {
    _mode: core::marker::PhantomData<MODE>,
}

/// Port C split into independent pins
pub struct Parts {
    /// Pin PC4
    pub pc4: PC4<Input<Floating>>,
    /// Pin PC5
    pub pc5: PC5<Input<Floating>>,
    /// Pin PC6
    pub pc6: PC6<Input<Floating>>,
    /// Pin PC7
    pub pc7: PC7<Input<Floating>>,
}

/// Relies on mkl25z4's SIM::scgc5 writer: gates the clock to the port C
/// module on, enabling pin routing.
#[verifier::external_body]
fn sim_enable_portc_clock(sim: &mut mkl25z4::SIM) {
    sim.scgc5.modify(|_, w| w.portc().set_bit());
}

impl GpioExt for mkl25z4::PORTC {
    type Parts = Parts;

    fn split(self, sim: &mut mkl25z4::SIM) -> Parts {
        sim_enable_portc_clock(sim);
        Parts {
            pc4: PC4 { _mode: core::marker::PhantomData },
            pc5: PC5 { _mode: core::marker::PhantomData },
            pc6: PC6 { _mode: core::marker::PhantomData },
            pc7: PC7 { _mode: core::marker::PhantomData },
        }
    }
}

} // verus!
