//! Port D pins.

use vstd::prelude::*;

use super::{Floating, GpioExt, Input};

verus! {

/// Pin PD0
pub struct PD0<MODE> {
    _mode: core::marker::PhantomData<MODE>,
}

/// Pin PD1
pub struct PD1<MODE> {
    _mode: core::marker::PhantomData<MODE>,
}

/// Pin PD2
pub struct PD2<MODE> {
    _mode: core::marker::PhantomData<MODE>,
}

/// Pin PD3
pub struct PD3<MODE> {
    _mode: core::marker::PhantomData<MODE>,
}

/// Pin PD4
pub struct PD4<MODE> {
    _mode: core::marker::PhantomData<MODE>,
}

/// Pin PD5
pub struct PD5<MODE> {
    _mode: core::marker::PhantomData<MODE>,
}

/// Pin PD6
pub struct PD6<MODE> {
    _mode: core::marker::PhantomData<MODE>,
}

/// Pin PD7
pub struct PD7<MODE> {
    _mode: core::marker::PhantomData<MODE>,
}

/// Port D split into independent pins
pub struct Parts {
    /// Pin PD0
    pub pd0: PD0<Input<Floating>>,
    /// Pin PD1
    pub pd1: PD1<Input<Floating>>,
    /// Pin PD2
    pub pd2: PD2<Input<Floating>>,
    /// Pin PD3
    pub pd3: PD3<Input<Floating>>,
    /// Pin PD4
    pub pd4: PD4<Input<Floating>>,
    /// Pin PD5
    pub pd5: PD5<Input<Floating>>,
    /// Pin PD6
    pub pd6: PD6<Input<Floating>>,
    /// Pin PD7
    pub pd7: PD7<Input<Floating>>,
}

/// Relies on mkl25z4's SIM::scgc5 writer: gates the clock to the port D
/// module on, enabling pin routing.
#[verifier::external_body]
fn sim_enable_portd_clock(sim: &mut mkl25z4::SIM) {
    sim.scgc5.modify(|_, w| w.portd().set_bit());
}

impl GpioExt for mkl25z4::PORTD {
    type Parts = Parts;

    fn split(self, sim: &mut mkl25z4::SIM) -> Parts {
        sim_enable_portd_clock(sim);
        Parts {
            pd0: PD0 { _mode: core::marker::PhantomData },
            pd1: PD1 { _mode: core::marker::PhantomData },
            pd2: PD2 { _mode: core::marker::PhantomData },
            pd3: PD3 { _mode: core::marker::PhantomData },
            pd4: PD4 { _mode: core::marker::PhantomData },
            pd5: PD5 { _mode: core::marker::PhantomData },
            pd6: PD6 { _mode: core::marker::PhantomData },
            pd7: PD7 { _mode: core::marker::PhantomData },
        }
    }
}

} // verus!
