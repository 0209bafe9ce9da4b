//! Declarations of the memory-mapped peripheral handle types.
//!
//! The register blocks of the KL25Z come from the `mkl25z4` peripheral
//! access crate (and, for the system control block, from `cortex-m`).  Each
//! handle is a zero-sized token giving exclusive access to one peripheral;
//! the declarations below make those types usable in signatures and fields.
//! The handles are opaque here: every register access goes through a small
//! trusted wrapper next to its caller.

use vstd::prelude::*;

verus! {

#[verifier::external_type_specification]
#[verifier::external_body]
pub struct ExSim(mkl25z4::SIM);

#[verifier::external_type_specification]
#[verifier::external_body]
pub struct ExOsc0(mkl25z4::OSC0);

#[verifier::external_type_specification]
#[verifier::external_body]
pub struct ExMcg(mkl25z4::MCG);

#[verifier::external_type_specification]
#[verifier::external_body]
pub struct ExPorta(mkl25z4::PORTA);

#[verifier::external_type_specification]
#[verifier::external_body]
pub struct ExPortb(mkl25z4::PORTB);

#[verifier::external_type_specification]
#[verifier::external_body]
pub struct ExPortc(mkl25z4::PORTC);

#[verifier::external_type_specification]
#[verifier::external_body]
pub struct ExPortd(mkl25z4::PORTD);

#[verifier::external_type_specification]
#[verifier::external_body]
pub struct ExPorte(mkl25z4::PORTE);

#[verifier::external_type_specification]
#[verifier::external_body]
pub struct ExPit(mkl25z4::PIT);

#[verifier::external_type_specification]
#[verifier::external_body]
pub struct ExLptmr0(mkl25z4::LPTMR0);

#[verifier::external_type_specification]
#[verifier::external_body]
pub struct ExSpi0(mkl25z4::SPI0);

#[verifier::external_type_specification]
#[verifier::external_body]
pub struct ExSpi1(mkl25z4::SPI1);

#[verifier::external_type_specification]
#[verifier::external_body]
pub struct ExSmc(mkl25z4::SMC);

#[verifier::external_type_specification]
#[verifier::external_body]
pub struct ExScb(cortex_m::peripheral::SCB);

} // verus!
