//! Port B pins.

use vstd::prelude::*;

use super::{Floating, GpioExt, Input};

verus! {

/// Pin PB10
pub struct PB10<MODE> {
    _mode: core::marker::PhantomData<MODE>,
}

/// Pin PB11
pub struct PB11<MODE> {
    _mode: core::marker::PhantomData<MODE>,
}

/// Pin PB16
pub struct PB16<MODE> {
    _mode: core::marker::PhantomData<MODE>,
}

/// Pin PB17
pub struct PB17<MODE> {
    _mode: core::marker::PhantomData<MODE>,
}

/// Port B split into independent pins
pub struct Parts {
    /// Pin PB10
    pub pb10: PB10<Input<Floating>>,
    /// Pin PB11
    pub pb11: PB11<Input<Floating>>,
    /// Pin PB16
    pub pb16: PB16<Input<Floating>>,
    /// Pin PB17
    pub pb17: PB17<Input<Floating>>,
}

/// Relies on mkl25z4's SIM::scgc5 writer: gates the clock to the port B
/// module on, enabling pin routing.
#[verifier::external_body]
fn sim_enable_portb_clock(sim: &mut mkl25z4::SIM) {
    sim.scgc5.modify(|_, w| w.portb().set_bit());
}

impl GpioExt for mkl25z4::PORTB {
    type Parts = Parts;

    fn split(self, sim: &mut mkl25z4::SIM) -> Parts {
        sim_enable_portb_clock(sim);
        Parts {
            pb10: PB10 { _mode: core::marker::PhantomData },
            pb11: PB11 { _mode: core::marker::PhantomData },
            pb16: PB16 { _mode: core::marker::PhantomData },
            pb17: PB17 { _mode: core::marker::PhantomData },
        }
    }
}

} // verus!
