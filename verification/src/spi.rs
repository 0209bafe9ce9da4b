//! Serial peripheral interface.
//!
//! The SPI baud rate generator divides the bus clock by a prescaler
//! (1..=8, the SPPR field) times a power of two (2..=512, selected by the
//! exponent field SPR).  [`get_baud_rate_divisors`] rounds the requested
//! divisor up to one the hardware can express, so the resulting rate errs
//! on the slow side, never the fast one — unless the request exceeds the
//! largest expressible divisor, where both fields saturate.

use vstd::prelude::*;

pub use embedded_hal::spi::{Mode, Phase, Polarity};

use crate::clocks::Clocks;
use crate::math::{bit_width, div_round_up};
use crate::gpio::gpioa::{PA14, PA15, PA16, PA17};
use crate::gpio::gpiob::{PB10, PB11, PB16, PB17};
use crate::gpio::gpioc::{PC4, PC5, PC6, PC7};
use crate::gpio::gpiod::{PD0, PD1, PD2, PD3, PD4, PD5, PD6, PD7};
use crate::gpio::gpioe::{PE1, PE2, PE3, PE4};
use crate::gpio::{Alternate2, Alternate5};
use crate::time::Hertz;
use vstd::arithmetic::power2::pow2;

verus! {

#[verifier::external_type_specification]
#[verifier::external_body]
pub struct ExSpiMode(Mode);

#[verifier::external_type_specification]
#[verifier::external_body]
pub struct ExSpiPolarity(Polarity);

#[verifier::external_type_specification]
#[verifier::external_body]
pub struct ExSpiPhase(Phase);

/// SPI error
#[derive(Debug)]
pub enum Error {
    /// Mode fault occurred
    ModeFault,
    /// Placeholder so that adding error variants later is not a breaking
    /// change.
    Extensible,
}

/// Pins that can serve as master-out-slave-in for an SPI peripheral
pub trait MOSI<SPI> {

}

impl MOSI<mkl25z4::SPI0> for PA16<Alternate2> {

}

impl MOSI<mkl25z4::SPI0> for PA17<Alternate5> {

}

impl MOSI<mkl25z4::SPI0> for PC6<Alternate2> {

}

impl MOSI<mkl25z4::SPI0> for PC7<Alternate5> {

}

impl MOSI<mkl25z4::SPI0> for PD2<Alternate2> {

}

impl MOSI<mkl25z4::SPI0> for PD3<Alternate5> {

}

impl MOSI<mkl25z4::SPI1> for PB16<Alternate2> {

}

impl MOSI<mkl25z4::SPI1> for PB17<Alternate5> {

}

impl MOSI<mkl25z4::SPI1> for PD6<Alternate2> {

}

impl MOSI<mkl25z4::SPI1> for PD7<Alternate5> {

}

impl MOSI<mkl25z4::SPI1> for PE1<Alternate2> {

}

impl MOSI<mkl25z4::SPI1> for PE3<Alternate5> {

}

/// Pins that can serve as master-in-slave-out for an SPI peripheral
pub trait MISO<SPI> {

}

impl MISO<mkl25z4::SPI0> for PA16<Alternate5> {

}

impl MISO<mkl25z4::SPI0> for PA17<Alternate2> {

}

impl MISO<mkl25z4::SPI0> for PC6<Alternate5> {

}

impl MISO<mkl25z4::SPI0> for PC7<Alternate2> {

}

impl MISO<mkl25z4::SPI0> for PD2<Alternate5> {

}

impl MISO<mkl25z4::SPI0> for PD3<Alternate2> {

}

impl MISO<mkl25z4::SPI1> for PB16<Alternate5> {

}

impl MISO<mkl25z4::SPI1> for PB17<Alternate2> {

}

impl MISO<mkl25z4::SPI1> for PD6<Alternate5> {

}

impl MISO<mkl25z4::SPI1> for PD7<Alternate2> {

}

impl MISO<mkl25z4::SPI1> for PE1<Alternate5> {

}

impl MISO<mkl25z4::SPI1> for PE3<Alternate2> {

}

/// Pins that can serve as the serial clock for an SPI peripheral
pub trait SCK<SPI> {

}

impl SCK<mkl25z4::SPI0> for PA15<Alternate2> {

}

impl SCK<mkl25z4::SPI0> for PD1<Alternate2> {

}

impl SCK<mkl25z4::SPI0> for PC5<Alternate2> {

}

impl SCK<mkl25z4::SPI1> for PB11<Alternate2> {

}

impl SCK<mkl25z4::SPI1> for PD5<Alternate2> {

}

impl SCK<mkl25z4::SPI1> for PE2<Alternate2> {

}

/// Pins that can serve as slave select for an SPI peripheral
pub trait SS<SPI> {

}

impl SS<mkl25z4::SPI0> for PA14<Alternate2> {

}

impl SS<mkl25z4::SPI0> for PC4<Alternate2> {

}

impl SS<mkl25z4::SPI0> for PD0<Alternate2> {

}

impl SS<mkl25z4::SPI1> for PB10<Alternate2> {

}

impl SS<mkl25z4::SPI1> for PD4<Alternate2> {

}

impl SS<mkl25z4::SPI1> for PE4<Alternate2> {

}

/// An SPI master owning its peripheral block and pins.
pub struct Spi<SPI, MOSIPin, MISOPin, SCKPin> {
    spi: SPI,
    mosi: MOSIPin,
    miso: MISOPin,
    sck: SCKPin,
}

/// The exponent field SPR chosen for a requested divisor: enough doublings
/// that the prescaler can reach the divisor (the prescaler scales by at
/// most 8, and each SPR step doubles), capped at the field's maximum of 8.
pub open spec fn spi_rate_exponent(divisor: u32) -> int {
    let w = bit_width(divisor as nat / 16);
    if w < 8 {
        w as int
    } else {
        8
    }
}

/// The prescaler field SPPR chosen for a requested divisor: what remains
/// of the divisor after the power of two is taken out, rounded up so that
/// an inexact match selects the next lower rate, minus one for the
/// hardware encoding, capped at the field's maximum of 7.
pub open spec fn spi_prescale(divisor: u32) -> int {
    let remaining = div_round_up(divisor as int, pow2((spi_rate_exponent(divisor) + 1) as nat) as int);
    if remaining - 1 < 7 {
        remaining - 1
    } else {
        7
    }
}

/// Computes the SPR and SPPR fields of the SPI baud rate register for a
/// requested transfer rate, from the bus clock that feeds the generator.
pub fn get_baud_rate_divisors(busclk: Hertz, freq: Hertz) -> (r: (u8, u8))
    requires
        freq.0 >= 1,
        freq.0 <= busclk.0,
    ensures
        r.0 == spi_rate_exponent(busclk.0 / freq.0),
        r.1 == spi_prescale(busclk.0 / freq.0),
{
    let divisor: u32 = busclk.0 / freq.0;
    proof {
        vstd::arithmetic::div_mod::lemma_div_non_zero(busclk.0 as int, freq.0 as int);
    }

    // spr scales exponentially and sppr by 8 at most, so: divisor < 16
    // needs spr = 0, divisor < 32 needs spr = 1, and so on.
    let mut scaled: u32 = divisor / 16;
    let mut spr: u32 = 0;
    let mut m: u32 = 2;
    proof {
        vstd::arithmetic::power2::lemma2_to64();
    }
    while scaled > 0 && spr < 8
        invariant
            spr <= 8,
            bit_width((divisor / 16) as nat) == spr + bit_width(scaled as nat),
            m == pow2((spr + 1) as nat),
        decreases scaled,
    {
        scaled = scaled / 2;
        spr = spr + 1;
        proof {
            vstd::arithmetic::power2::lemma2_to64();
            vstd::arithmetic::power2::lemma_pow2_strictly_increases(spr as nat, 9);
            vstd::arithmetic::power2::lemma_pow2_unfold((spr + 1) as nat);
        }
        m = m * 2;
    }
    proof {
        vstd::arithmetic::power2::lemma2_to64();
        assert(spr == spi_rate_exponent(divisor));
        assert(m <= 512);
    }

    // To err on the safe side, always choose the next lower rate if there
    // is no perfect match: round the remaining division up.
    let q: u32 = divisor / m;
    let remaining: u32 = if divisor % m != 0 {
        assert(q < u32::MAX) by (nonlinear_arith)
            requires
                q == divisor as int / m as int,
                m >= 2,
                divisor <= u32::MAX,
        ;
        q + 1
    } else {
        proof {
            vstd::arithmetic::div_mod::lemma_fundamental_div_mod(divisor as int, m as int);
            assert(q >= 1) by (nonlinear_arith)
                requires
                    divisor as int == m as int * (q as int),
                    divisor >= 1,
                    m >= 1,
            ;
        }
        q
    };

    let sppr: u32 = if remaining - 1 < 7 {
        remaining - 1
    } else {
        7
    };
    (spr as u8, sppr as u8)
}

} // verus!


verus! {

/// Relies on mkl25z4's SIM::scgc4 writer: gates the clock to the SPI0
/// module on.
#[verifier::external_body]
fn sim_enable_spi0_clock(sim: &mut mkl25z4::SIM) {
    sim.scgc4.modify(|_, w| w.spi0().set_bit());
}

/// Relies on mkl25z4's SIM::scgc4 writer: gates the clock to the SPI1
/// module on.
#[verifier::external_body]
fn sim_enable_spi1_clock(sim: &mut mkl25z4::SIM) {
    sim.scgc4.modify(|_, w| w.spi1().set_bit());
}

/// Relies on mkl25z4's SPI0::c1 writer: enables the peripheral in master
/// mode with interrupts and slave-select output off, taking the clock
/// polarity and phase from `mode`.
#[verifier::external_body]
fn spi0_write_control(spi: &mkl25z4::SPI0, mode: Mode) {
    spi.c1.write(
        |w|
            w.spie().clear_bit().spe().set_bit().sptie().clear_bit().mstr().set_bit().cpol().bit(
                mode.polarity == Polarity::IdleHigh,
            ).cpha().bit(mode.phase == Phase::CaptureOnSecondTransition).ssoe().clear_bit(),
    );
}

/// Relies on mkl25z4's SPI1::c1 writer, as for SPI0.
#[verifier::external_body]
fn spi1_write_control(spi: &mkl25z4::SPI1, mode: Mode) {
    spi.c1.write(
        |w|
            w.spie().clear_bit().spe().set_bit().sptie().clear_bit().mstr().set_bit().cpol().bit(
                mode.polarity == Polarity::IdleHigh,
            ).cpha().bit(mode.phase == Phase::CaptureOnSecondTransition).ssoe().clear_bit(),
    );
}

/// Relies on mkl25z4's SPI0::c2 writer: disables DMA, mode-fault detection,
/// bidirectional mode, stop-in-wait and 16-bit mode.
#[verifier::external_body]
fn spi0_write_features(spi: &mkl25z4::SPI0) {
    spi.c2.write(
        |w|
            w.spmie().clear_bit().txdmae().clear_bit().modfen().clear_bit().bidiroe()
                .clear_bit().rxdmae().clear_bit().spiswai().clear_bit().spc0().clear_bit(),
    );
}

/// Relies on mkl25z4's SPI1::c2 writer, as for SPI0.
#[verifier::external_body]
fn spi1_write_features(spi: &mkl25z4::SPI1) {
    spi.c2.write(
        |w|
            w.spmie().clear_bit().txdmae().clear_bit().modfen().clear_bit().bidiroe()
                .clear_bit().rxdmae().clear_bit().spiswai().clear_bit().spc0().clear_bit(),
    );
}

/// Relies on mkl25z4's SPI0::br writer: programs the baud rate prescale
/// divisor and the rate divisor (as its field enumeration, one arm per
/// encoding).
#[verifier::external_body]
fn spi0_write_baud_rate(spi: &mkl25z4::SPI0, spr: u8, sppr: u8)
    requires
        spr <= 8,
        sppr <= 7,
{
    spi.br.write(|w| {
        let w = w.sppr().bits(sppr);
        match spr {
            0 => w.spr()._0000(), 1 => w.spr()._0001(), 2 => w.spr()._0010(),
            3 => w.spr()._0011(), 4 => w.spr()._0100(), 5 => w.spr()._0101(),
            6 => w.spr()._0110(), 7 => w.spr()._0111(), _ => w.spr()._1000(),
        }
    });
}

/// Relies on mkl25z4's SPI1::br writer, as for SPI0.
#[verifier::external_body]
fn spi1_write_baud_rate(spi: &mkl25z4::SPI1, spr: u8, sppr: u8)
    requires
        spr <= 8,
        sppr <= 7,
{
    spi.br.write(|w| {
        let w = w.sppr().bits(sppr);
        match spr {
            0 => w.spr()._0000(), 1 => w.spr()._0001(), 2 => w.spr()._0010(),
            3 => w.spr()._0011(), 4 => w.spr()._0100(), 5 => w.spr()._0101(),
            6 => w.spr()._0110(), 7 => w.spr()._0111(), _ => w.spr()._1000(),
        }
    });
}

impl<MOSIPin, MISOPin, SCKPin> Spi<mkl25z4::SPI0, MOSIPin, MISOPin, SCKPin> {
    /// Takes ownership of the SPI0 peripheral and its pins and configures
    /// it as a master at the closest safe rate at or below `freq`.
    pub fn spi0(
        spi: mkl25z4::SPI0,
        mosi: MOSIPin,
        miso: MISOPin,
        sck: SCKPin,
        mode: Mode,
        freq: Hertz,
        clocks: Clocks,
        sim: &mut mkl25z4::SIM,
    ) -> Self where
        MOSIPin: MOSI<mkl25z4::SPI0>,
        MISOPin: MISO<mkl25z4::SPI0>,
        SCKPin: SCK<mkl25z4::SPI0>,

        requires
            freq.0 >= 1,
            freq.0 <= clocks.spec_busclk().0,
    {
        sim_enable_spi0_clock(sim);
        let (spr, sppr) = get_baud_rate_divisors(clocks.busclk(), freq);
        proof {
            vstd::arithmetic::div_mod::lemma_div_non_zero(
                clocks.spec_busclk().0 as int,
                freq.0 as int,
            );
            lemma_divisor_fields_in_range(clocks.spec_busclk().0 / freq.0);
        }
        spi0_write_control(&spi, mode);
        spi0_write_features(&spi);
        spi0_write_baud_rate(&spi, spr, sppr);
        Spi { spi, mosi, miso, sck }
    }
}

impl<MOSIPin, MISOPin, SCKPin> Spi<mkl25z4::SPI1, MOSIPin, MISOPin, SCKPin> {
    /// Takes ownership of the SPI1 peripheral and its pins and configures
    /// it as a master at the closest safe rate at or below `freq`.
    pub fn spi1(
        spi: mkl25z4::SPI1,
        mosi: MOSIPin,
        miso: MISOPin,
        sck: SCKPin,
        mode: Mode,
        freq: Hertz,
        clocks: Clocks,
        sim: &mut mkl25z4::SIM,
    ) -> Self where
        MOSIPin: MOSI<mkl25z4::SPI1>,
        MISOPin: MISO<mkl25z4::SPI1>,
        SCKPin: SCK<mkl25z4::SPI1>,

        requires
            freq.0 >= 1,
            freq.0 <= clocks.spec_busclk().0,
    {
        sim_enable_spi1_clock(sim);
        let (spr, sppr) = get_baud_rate_divisors(clocks.busclk(), freq);
        proof {
            vstd::arithmetic::div_mod::lemma_div_non_zero(
                clocks.spec_busclk().0 as int,
                freq.0 as int,
            );
            lemma_divisor_fields_in_range(clocks.spec_busclk().0 / freq.0);
        }
        spi1_write_control(&spi, mode);
        spi1_write_features(&spi);
        spi1_write_baud_rate(&spi, spr, sppr);
        Spi { spi, mosi, miso, sck }
    }
}

impl<SPI, MOSIPin, MISOPin, SCKPin> Spi<SPI, MOSIPin, MISOPin, SCKPin> {
    /// Releases the peripheral block and the pins.
    pub fn free(self) -> (SPI, MOSIPin, MISOPin, SCKPin) {
        let Spi { spi, mosi, miso, sck } = self;
        (spi, mosi, miso, sck)
    }
}

/// Whenever the prescale field does not saturate, the divisor the chosen
/// fields express — the prescaler times two to one more than the
/// exponent — is at least the requested divisor: the achieved rate errs
/// on the slow side.
pub proof fn lemma_chosen_divisor_not_faster(divisor: u32)
    requires
        divisor >= 1,
        spi_prescale(divisor) < 7,
    ensures
        (spi_prescale(divisor) + 1) * pow2((spi_rate_exponent(divisor) + 1) as nat) >= divisor,
{
    let m = pow2((spi_rate_exponent(divisor) + 1) as nat) as int;
    vstd::arithmetic::power2::lemma_pow2_pos((spi_rate_exponent(divisor) + 1) as nat);
    crate::math::lemma_div_round_up_reaches(divisor as int, m);
}

/// The chosen register fields always fit their hardware encodings: the
/// rate exponent is at most 8 and the prescale value at most 7.
pub proof fn lemma_divisor_fields_in_range(divisor: u32)
    requires
        divisor >= 1,
    ensures
        0 <= spi_rate_exponent(divisor) <= 8,
        0 <= spi_prescale(divisor) <= 7,
{
    let e = spi_rate_exponent(divisor);
    let m = pow2((e + 1) as nat) as int;
    vstd::arithmetic::power2::lemma_pow2_pos((e + 1) as nat);
    vstd::arithmetic::div_mod::lemma_div_pos_is_pos(divisor as int, m);
    vstd::arithmetic::div_mod::lemma_fundamental_div_mod(divisor as int, m);
    if divisor as int % m == 0 {
        assert(divisor as int / m >= 1) by (nonlinear_arith)
            requires
                divisor as int == m * (divisor as int / m),
                divisor >= 1,
                m >= 1,
        ;
    }
}

} // verus!
