//! General purpose input / output.
//!
//! Pin configuration is encoded in the type system: each pin is a zero-sized
//! handle parameterised by its current mode, and a pin handle exists exactly
//! once (it is minted only by splitting the port peripheral, which is itself
//! a singleton).  Consuming a pin handle therefore removes the pin from the
//! allocation pool for good — there is no way to obtain a second handle and
//! reconfigure the pin.

use vstd::prelude::*;

pub mod gpioa;
pub mod gpiob;
pub mod gpioc;
pub mod gpiod;
pub mod gpioe;

verus! {

/// Extension trait to split a GPIO peripheral in independent pins and registers
pub trait GpioExt {
    /// The parts to split the GPIO into
    type Parts;

    /// Splits the GPIO block into independent pins and registers
    fn split(self, sim: &mut mkl25z4::SIM) -> Self::Parts;
}

/// Input mode (type state)
pub struct Input<MODE> {
    _mode: core::marker::PhantomData<MODE>,
}

/// Floating input (type state)
pub struct Floating;

/// Pulled down input (type state)
pub struct PullDown;

/// Pulled up input (type state)
pub struct PullUp;

/// Output mode (type state)
pub struct Output<MODE> {
    _mode: core::marker::PhantomData<MODE>,
}

/// Push pull output (type state)
pub struct PushPull;

/// Open drain output (type state)
pub struct OpenDrain;

/// Analog / oscillator mode (type state)
pub struct Analog;

/// Alternate function 2 (type state)
pub struct Alternate2;

/// Alternate function 5 (type state)
pub struct Alternate5;

} // verus!
