//! Clock tree configuration.
//!
//! The KL25Z derives its core and bus clocks from a multi-stage clock
//! generator.  On the internal path the frequency-locked loop (FLL)
//! multiplies a 32.768 kHz-equivalent internal reference by one of four
//! fixed ratios (640, 1280, 1920 or 2560, selected by the `range` field),
//! and the result is divided by the integer post-dividers `outdiv1` (core
//! clock) and `outdiv4` (bus clock).  Only a discrete lattice of output
//! frequencies is therefore achievable; a requested frequency is a hint and
//! the returned [`Clocks`] value records what the hardware will actually
//! produce.

use vstd::prelude::*;

use crate::gpio;
use crate::math::div_round_up;
use crate::gpio::gpioa;
use crate::time::Hertz;

verus! {

/// The FLL multiplication factor selected by the two-bit `range` value
/// (the DRST_DRS field of the clock generator).
pub open spec fn fll_factor(range: u32) -> u32 {
    if range == 0 {
        640
    } else if range == 1 {
        1280
    } else if range == 2 {
        1920
    } else {
        2560
    }
}

/// The `(outdiv1, range)` pair chosen for a requested core frequency.
///
/// Below 5.8 MHz the divider is computed by rounded division from the
/// lowest FLL ratio; above that, eleven empirically chosen bands each map
/// to a fixed pair (these are lattice points of achievable FLL outputs and
/// follow no closed formula).
pub open spec fn fll_selection(target: u32) -> (u32, u32) {
    if target < 5_800_000 {
        ((((640 * 32767 + target / 2) / (target as int)) - 1) as u32, 0u32)
    } else if target < 6_400_000 {
        (6u32, 1u32)  // 5991862 Hz
    } else if target < 6_700_000 {
        (10u32, 2u32)  // 6291456 Hz
    } else if target < 7_500_000 {
        (2u32, 0u32)  // 6990506 Hz
    } else if target < 8_000_000 {
        (7u32, 2u32)  // 7864320 Hz
    } else if target < 8_700_000 {
        (4u32, 1u32)  // 8388608 Hz
    } else if target < 9_800_000 {
        (6u32, 2u32)  // 8987794 Hz
    } else if target < 11_600_000 {
        (1u32, 0u32)  // 10485760 Hz
    } else if target < 13_300_000 {
        (4u32, 2u32)  // 12582912 Hz
    } else if target < 14_900_000 {
        (2u32, 1u32)  // 15728640 Hz
    } else if target < 18_400_000 {
        (3u32, 2u32)  // 15728640 Hz
    } else if target < 26_300_000 {
        (0u32, 0u32)  // 20971520 Hz
    } else if target < 36_800_000 {
        (1u32, 2u32)  // 31457280 Hz
    } else {
        (0u32, 1u32)  // 41943040 Hz
    }
}

/// The exact core frequency the FLL produces for a divider selection:
/// the multiplication factor times the 32768 Hz reference, divided by the
/// core post-divider.
pub open spec fn fll_frequency(outdiv1: u32, range: u32) -> int {
    fll_factor(range) * 32768 / (outdiv1 + 1)
}

/// The core frequency actually achieved for a requested core frequency.
pub open spec fn actual_core_frequency(target: u32) -> u32 {
    fll_frequency(fll_selection(target).0, fll_selection(target).1) as u32
}

/// The bus post-divider `outdiv4` derived from the achieved core frequency
/// and the requested bus frequency: divide the core down to at most the
/// request, but clamp the divisor to the hardware's range 1..=8.  The
/// stored value is the divisor minus one.
pub open spec fn bus_divider(core: u32, bus: u32) -> int {
    let d = div_round_up(core as int, bus as int);
    if d < 1 {
        0int
    } else if d > 8 {
        7int
    } else {
        d - 1
    }
}

/// The bus frequency actually achieved for a requested core and bus
/// frequency: the achieved core frequency divided by the bus divisor.
pub open spec fn actual_bus_frequency(target: u32, bus: u32) -> u32 {
    let core = actual_core_frequency(target);
    (core as int / (bus_divider(core, bus) + 1)) as u32
}

/// Selects the FLL divider and range for a requested core frequency.
///
/// For every target strictly below 5.8 MHz the result is the rounded
/// division `round(640 * 32767 / target) - 1` with range selector 0; the
/// higher bands return the fixed table pairs.
pub fn select_fll_dividers(target: u32) -> (r: (u32, u32))
    requires
        target >= 1,
    ensures
        r == fll_selection(target),
        r.1 <= 3,
        r.0 <= 23_870_880,
{
    if target < 5_800_000 {
        let scaled: u32 = 640 * 32767 + target / 2;
        let q: u32 = scaled / target;
        proof {
            vstd::arithmetic::div_mod::lemma_div_non_zero(scaled as int, target as int);
            vstd::arithmetic::div_mod::lemma_div_nonincreasing(scaled as int, target as int);
        }
        (q - 1, 0)
    } else if target < 6_400_000 {
        (6, 1)
    } else if target < 6_700_000 {
        (10, 2)
    } else if target < 7_500_000 {
        (2, 0)
    } else if target < 8_000_000 {
        (7, 2)
    } else if target < 8_700_000 {
        (4, 1)
    } else if target < 9_800_000 {
        (6, 2)
    } else if target < 11_600_000 {
        (1, 0)
    } else if target < 13_300_000 {
        (4, 2)
    } else if target < 14_900_000 {
        (2, 1)
    } else if target < 18_400_000 {
        (3, 2)
    } else if target < 26_300_000 {
        (0, 0)
    } else if target < 36_800_000 {
        (1, 2)
    } else {
        (0, 1)
    }
}

/// Computes the exact core frequency produced by a divider selection,
/// in integer arithmetic.
pub fn fll_output_frequency(outdiv1: u32, range: u32) -> (f: u32)
    requires
        outdiv1 < u32::MAX,
    ensures
        f == fll_frequency(outdiv1, range),
{
    let factor: u32 = if range == 0 {
        640
    } else if range == 1 {
        1280
    } else if range == 2 {
        1920
    } else {
        2560
    };
    factor * 32768 / (outdiv1 + 1)
}

/// Derives the bus post-divider from the achieved core frequency and the
/// requested bus frequency.  The divisor is clamped to 1..=8, so the
/// returned register value never exceeds 7.
pub fn select_bus_divider(core: u32, bus: u32) -> (outdiv4: u32)
    requires
        bus >= 1,
    ensures
        outdiv4 == bus_divider(core, bus),
        outdiv4 <= 7,
{
    let q: u32 = core / bus;
    let d: u32 = if core % bus != 0 {
        assert(q < u32::MAX) by (nonlinear_arith)
            requires
                q == core as int / bus as int,
                bus >= 1,
                core as int % bus as int != 0,
                core <= u32::MAX,
        ;
        q + 1
    } else {
        q
    };
    if d < 1 {
        0
    } else if d > 8 {
        7
    } else {
        d - 1
    }
}

/// The achieved bus clock never exceeds the achieved core clock: the bus
/// frequency is the core frequency divided by a divisor of at least one.
pub proof fn lemma_bus_not_above_core(target: u32, bus: u32)
    ensures
        actual_bus_frequency(target, bus) <= actual_core_frequency(target),
{
    let core = actual_core_frequency(target);
    let d = bus_divider(core, bus) + 1;
    assert(1 <= d <= 8);
    vstd::arithmetic::div_mod::lemma_div_pos_is_pos(core as int, d);
    vstd::arithmetic::div_mod::lemma_div_nonincreasing(core as int, d);
}

/// The operating modes of the multipurpose clock generator along the fixed
/// boot-time bring-up path, in their mandatory order: FLL engaged internal
/// (the reset state), FLL bypassed external, PLL bypassed external, and
/// finally PLL engaged external.
#[derive(Clone, Copy, Debug, PartialEq, Eq, Structural)]
pub enum McgMode {
    /// FLL engaged, internal reference (reset state).
    Fei,
    /// FLL bypassed, external reference.
    Fbe,
    /// PLL bypassed, external reference.
    Pbe,
    /// PLL engaged, external reference (terminal).
    Pee,
}

/// A snapshot of the clock generator status fields that the bring-up
/// sequence polls.  The driver of the sequence reads these from the MCG
/// status register and hands them in as plain values.
#[derive(Clone, Copy, Debug, PartialEq, Eq, Structural)]
pub struct McgStatus {
    /// IREFST: the FLL reference is currently the internal clock.
    pub fll_reference_internal: bool,
    /// CLKST: the two-bit clock-mode status field.
    pub clock_mode: u8,
    /// LOCK0: the PLL has acquired lock.
    pub pll_locked: bool,
}

/// The batch of register writes that begins the transition out of a mode.
#[derive(Clone, Copy, Debug, PartialEq, Eq, Structural)]
pub enum BringupAction {
    /// Program the oscillator and clock generator for an external
    /// reference (OSC0 reset; MCG C2 range/EREFS; C1 CLKS=2, FRDIV=3;
    /// C4 cleared; C5 PRDIV0=1; C6 cleared).
    ConfigureExternalReference,
    /// Select the PLL as the clock generator source (MCG C6 PLLS=1).
    EnablePll,
    /// Select the PLL output as the system clock (MCG C1 CLKS=0, FRDIV=3).
    SelectPllOutput,
    /// Nothing: the terminal mode has been reached.
    Stay,
}

/// The successor of each mode on the bring-up path.  The path is a chain:
/// FEI to FBE to PBE to PEE, and PEE is terminal.
pub open spec fn next_mode(mode: McgMode) -> McgMode {
    match mode {
        McgMode::Fei => McgMode::Fbe,
        McgMode::Fbe => McgMode::Pbe,
        McgMode::Pbe => McgMode::Pee,
        McgMode::Pee => McgMode::Pee,
    }
}

/// Whether the status fields show that the transition out of `mode` has
/// completed: FEI leaves once the FLL reference has switched to the
/// external clock and the clock generator reports external-reference mode;
/// FBE leaves once the PLL has locked; PBE leaves once the generator
/// reports PLL-output mode.  PEE is terminal.
pub open spec fn transition_complete(mode: McgMode, status: McgStatus) -> bool {
    match mode {
        McgMode::Fei => !status.fll_reference_internal && status.clock_mode == 2,
        McgMode::Fbe => status.pll_locked,
        McgMode::Pbe => status.clock_mode == 3,
        McgMode::Pee => true,
    }
}

/// The register writes that begin the transition out of `mode`.
pub fn bringup_entry_action(mode: McgMode) -> (a: BringupAction)
    ensures
        a == match mode {
            McgMode::Fei => BringupAction::ConfigureExternalReference,
            McgMode::Fbe => BringupAction::EnablePll,
            McgMode::Pbe => BringupAction::SelectPllOutput,
            McgMode::Pee => BringupAction::Stay,
        },
{
    match mode {
        McgMode::Fei => BringupAction::ConfigureExternalReference,
        McgMode::Fbe => BringupAction::EnablePll,
        McgMode::Pbe => BringupAction::SelectPllOutput,
        McgMode::Pee => BringupAction::Stay,
    }
}

/// One poll step of the bring-up sequence: given the current mode and the
/// observed status fields, either stay (keep spinning on the status
/// register — the sequence has no timeout) or advance to the next mode of
/// the chain.
pub fn bringup_step(mode: McgMode, status: McgStatus) -> (next: McgMode)
    ensures
        next == if transition_complete(mode, status) {
            next_mode(mode)
        } else {
            mode
        },
{
    let done = match mode {
        McgMode::Fei => !status.fll_reference_internal && status.clock_mode == 2,
        McgMode::Fbe => status.pll_locked,
        McgMode::Pbe => status.clock_mode == 3,
        McgMode::Pee => true,
    };
    if done {
        match mode {
            McgMode::Fei => McgMode::Fbe,
            McgMode::Fbe => McgMode::Pbe,
            McgMode::Pbe => McgMode::Pee,
            McgMode::Pee => McgMode::Pee,
        }
    } else {
        mode
    }
}

/// The bring-up chain is the mandated progression and nothing else: from
/// the reset mode FEI it passes through FBE and PBE to PEE, and once PEE
/// is reached no step, whatever status the hardware reports, ever leaves
/// it.
pub proof fn lemma_bringup_progression(status: McgStatus)
    ensures
        next_mode(McgMode::Fei) == McgMode::Fbe,
        next_mode(McgMode::Fbe) == McgMode::Pbe,
        next_mode(McgMode::Pbe) == McgMode::Pee,
        next_mode(McgMode::Pee) == McgMode::Pee,
        transition_complete(McgMode::Pee, status),
{
}

/// The clock frequencies the fixed bring-up path reaches.
///
/// The core clock is 48 MHz.  The recorded bus clock of 18 MHz does not
/// match the arithmetic of 48 MHz divided by 2; the value is reproduced
/// literally from the board support this derives from, where it is flagged
/// as a suspected typo.
pub fn bringup_clocks() -> (c: Clocks)
    ensures
        c.spec_coreclk().0 == 48_000_000,
        c.spec_busclk().0 == 18_000_000,
{
    Clocks { coreclk: Hertz(48_000_000), busclk: Hertz(18_000_000) }
}

/// Errors reported by [`ClockConfiguration::apply`].
#[derive(Clone, Copy, Debug, PartialEq, Eq, Structural)]
pub enum ClockError {
    /// The requested combination of clock source and frequencies has no
    /// supported derivation; nothing was written to the hardware.
    UnsupportedConfiguration,
}

#[derive(Clone, Copy)]
enum ClockSource {
    Internal,
    External(Hertz, ExternalMode),
}

#[derive(Clone, Copy)]
enum ExternalMode {
    Crystal,
    Clock,
}

/// A declarative clock request: optional desired core and bus frequencies
/// and a clock source, accumulated through chained builder calls and
/// consumed exactly once by [`ClockConfiguration::apply`].
pub struct ClockConfiguration {
    core_clock: Option<Hertz>,
    bus_clock: Option<Hertz>,
    clock_source: ClockSource,
}

impl ClockConfiguration {
    /// The requested core frequency, if one was set.
    pub closed spec fn core_setting(self) -> Option<u32> {
        match self.core_clock {
            Some(f) => Some(f.0),
            None => None,
        }
    }

    /// The requested bus frequency, if one was set.
    pub closed spec fn bus_setting(self) -> Option<u32> {
        match self.bus_clock {
            Some(f) => Some(f.0),
            None => None,
        }
    }

    /// Whether the internal reference clock is the selected source.
    pub closed spec fn internal_source(self) -> bool {
        self.clock_source is Internal
    }

    /// The frequency of the external source, where one is selected.
    pub closed spec fn external_frequency(self) -> Option<u32> {
        match self.clock_source {
            ClockSource::External(f, _) => Some(f.0),
            ClockSource::Internal => None,
        }
    }

    /// Whether the selected external source is a crystal (rather than an
    /// externally generated clock signal).
    pub closed spec fn external_crystal(self) -> bool {
        self.clock_source matches ClockSource::External(_, ExternalMode::Crystal)
    }

    /// The core frequency the derivation aims for: the request, or a safe
    /// 24 MHz default if none was made.
    pub open spec fn requested_core(self) -> u32 {
        match self.core_setting() {
            Some(f) => f,
            None => 24_000_000,
        }
    }

    /// The bus frequency the derivation aims for: the request, or the
    /// requested core frequency if none was made (the bus deliberately
    /// defaults to the core request, not to a constant of its own).
    pub open spec fn requested_bus(self) -> u32 {
        match self.bus_setting() {
            Some(f) => f,
            None => self.requested_core(),
        }
    }

    /// The derivation divides by the requested frequencies, so a request
    /// of zero hertz is not meaningful.
    pub open spec fn valid_request(self) -> bool {
        self.requested_core() >= 1 && self.requested_bus() >= 1
    }

    pub fn new() -> (r: Self)
        ensures
            r.core_setting() is None,
            r.bus_setting() is None,
            r.internal_source(),
            r.external_frequency() is None,
    {
        Self { core_clock: None, bus_clock: None, clock_source: ClockSource::Internal }
    }

    pub fn core_clock(self, freq: Hertz) -> (r: Self)
        ensures
            r.core_setting() == Some(freq.0),
            r.bus_setting() == self.bus_setting(),
            r.internal_source() == self.internal_source(),
            r.external_frequency() == self.external_frequency(),
            r.external_crystal() == self.external_crystal(),
    {
        Self { core_clock: Some(freq), ..self }
    }

    pub fn bus_clock(self, freq: Hertz) -> (r: Self)
        ensures
            r.bus_setting() == Some(freq.0),
            r.core_setting() == self.core_setting(),
            r.internal_source() == self.internal_source(),
            r.external_frequency() == self.external_frequency(),
            r.external_crystal() == self.external_crystal(),
    {
        Self { bus_clock: Some(freq), ..self }
    }

    /// Use one of the internal RC oscillators as the main clock source.
    ///
    /// Do not select frequencies near the maximum supported by the chip as
    /// the resulting frequency can be up to 20% higher than requested when
    /// using the internal reference clock.
    pub fn use_irc(self) -> (r: Self)
        ensures
            r.internal_source(),
            r.external_frequency() is None,
            r.core_setting() == self.core_setting(),
            r.bus_setting() == self.bus_setting(),
    {
        Self { clock_source: ClockSource::Internal, ..self }
    }

    /// Use an external crystal as the main clock source.
    ///
    /// The two oscillator pins are consumed: selecting the crystal removes
    /// them from the pin-allocation pool for the lifetime of the program,
    /// so no other code can later repurpose them.
    pub fn use_crystal(
        self,
        freq: Hertz,
        _extal: gpioa::PA18<gpio::Analog>,
        _xtal: gpioa::PA19<gpio::Analog>,
    ) -> (r: Self)
        ensures
            !r.internal_source(),
            r.external_frequency() == Some(freq.0),
            r.external_crystal(),
            r.core_setting() == self.core_setting(),
            r.bus_setting() == self.bus_setting(),
    {
        // Dropping the pins here is what makes the consumption permanent.
        Self { clock_source: ClockSource::External(freq, ExternalMode::Crystal), ..self }
    }

    /// Use an externally generated clock signal as the main clock source.
    ///
    /// The input pin is consumed, as for [`ClockConfiguration::use_crystal`].
    pub fn use_external_clock(self, freq: Hertz, _extal: gpioa::PA18<gpio::Analog>) -> (r: Self)
        ensures
            !r.internal_source(),
            r.external_frequency() == Some(freq.0),
            !r.external_crystal(),
            r.core_setting() == self.core_setting(),
            r.bus_setting() == self.bus_setting(),
    {
        Self { clock_source: ClockSource::External(freq, ExternalMode::Clock), ..self }
    }
}

/// An immutable snapshot of the core and bus clock frequencies actually
/// achieved by clock configuration.  Produced exactly once, then passed by
/// value to every component that needs to compute timing.
#[derive(Copy, Clone)]
pub struct Clocks {
    coreclk: Hertz,
    busclk: Hertz,
}

impl Clocks {
    /// The recorded core clock frequency.
    pub closed spec fn spec_coreclk(self) -> Hertz {
        self.coreclk
    }

    /// The recorded bus clock frequency.
    pub closed spec fn spec_busclk(self) -> Hertz {
        self.busclk
    }

    pub fn coreclk(&self) -> (r: Hertz)
        ensures
            r == self.spec_coreclk(),
    {
        self.coreclk
    }

    pub fn busclk(&self) -> (r: Hertz)
        ensures
            r == self.spec_busclk(),
    {
        self.busclk
    }
}

/// Relies on mkl25z4's SIM::sopt1 osc32ksel writer: routes the 32 kHz
/// peripheral clock ERCLK32K from the low-power oscillator.
#[verifier::external_body]
fn sim_route_erclk32k_from_lpo(sim: &mut mkl25z4::SIM) {
    sim.sopt1.modify(|_, w| w.osc32ksel()._11());
}

/// Relies on mkl25z4's SIM::copc writer: clocks the COP watchdog from the
/// always-available low-power oscillator, independent of the main source.
#[verifier::external_body]
fn sim_clock_watchdog_from_lpo(sim: &mut mkl25z4::SIM) {
    sim.copc.write(|w| w.copclks().clear_bit());
}

/// Relies on mkl25z4's SIM::sopt2 pllfllsel writer: feeds the peripheral
/// clock muxes from the FLL output.
#[verifier::external_body]
fn sim_peripheral_clock_from_fll(sim: &mut mkl25z4::SIM) {
    sim.sopt2.modify(|_, w| w.pllfllsel().clear_bit());
}

/// Relies on mkl25z4's SIM::sopt2 tpmsrc writer: clocks the TPM counter
/// from the selected PLL/FLL output.
#[verifier::external_body]
fn sim_tpm_clock_from_pllfll(sim: &mut mkl25z4::SIM) {
    sim.sopt2.modify(|_, w| w.tpmsrc()._01());
}

/// Relies on mkl25z4's OSC0::cr writer: resets the oscillator control block
/// to a known-disabled state (external reference clock off, no stop-mode
/// operation, all capacitor-load trim bits cleared).
#[verifier::external_body]
fn osc_reset(osc: &mkl25z4::OSC0) {
    osc.cr.write(
        |w|
            w.erclken().clear_bit().erefsten().clear_bit().sc2p().clear_bit().sc4p().clear_bit()
                .sc8p().clear_bit().sc16p().clear_bit(),
    );
}

/// Relies on mkl25z4's SIM::clkdiv1 writer: sets the core clock divider
/// OUTDIV1 and the bus clock divider OUTDIV4.
#[verifier::external_body]
fn sim_set_clock_dividers(sim: &mut mkl25z4::SIM, outdiv1: u8, outdiv4: u8) {
    sim.clkdiv1.modify(|_, w| w.outdiv1().bits(outdiv1).outdiv4().bits(outdiv4));
}

/// Relies on mkl25z4's MCG::c4 drst_drs writer: selects the FLL
/// multiplication range.
#[verifier::external_body]
fn mcg_set_fll_range(mcg: &mkl25z4::MCG, range: u8) {
    mcg.c4.modify(|_, w| w.drst_drs().bits(range));
}

impl ClockConfiguration {
    /// Applies the requested configuration to the hardware clock tree and
    /// returns the actually achieved frequencies.
    ///
    /// Only the internal path has a frequency derivation.  Requesting an
    /// external source reports [`ClockError::UnsupportedConfiguration`]
    /// before anything is written, rather than programming wrong clocks.
    /// On the internal path the chip is assumed to arrive here in its
    /// reset state (FLL engaged, internal reference), so no mode
    /// transition is needed: the clock dividers and the FLL range are
    /// updated in place.
    pub fn apply(self, sim: &mut mkl25z4::SIM, osc: mkl25z4::OSC0, mcg: mkl25z4::MCG) -> (r:
        Result<Clocks, ClockError>)
        requires
            self.valid_request(),
        ensures
            r is Ok <==> self.internal_source(),
            r matches Err(e) ==> e == ClockError::UnsupportedConfiguration,
            r matches Ok(c) ==> {
                &&& c.spec_coreclk().0 == actual_core_frequency(self.requested_core())
                &&& c.spec_busclk().0 == actual_bus_frequency(
                    self.requested_core(),
                    self.requested_bus(),
                )
                &&& c.spec_busclk().0 <= c.spec_coreclk().0
            },
    {
        match self.clock_source {
            ClockSource::External(_, _) => {
                // No frequency derivation exists for the external path yet;
                // fail before touching any register.
                return Err(ClockError::UnsupportedConfiguration);
            },
            ClockSource::Internal => {},
        }

        // Use safe default frequencies if not specified.
        let core_target: u32 = match self.core_clock {
            Some(f) => f.0,
            None => 24_000_000,
        };
        let bus_target: u32 = match self.bus_clock {
            Some(f) => f.0,
            None => core_target,
        };

        // ERCLK32K is provided by the LPO on the internal path.  This must
        // be routed before the FLL is reconfigured: peripherals reference
        // the 32 kHz clock immediately.
        sim_route_erclk32k_from_lpo(sim);

        // Always provide the COP (watchdog) with the LPO clock.
        sim_clock_watchdog_from_lpo(sim);

        // The PLL is not in use on the internal path, so feed the
        // peripheral muxes from the FLL output, and clock the TPM counter
        // from the same selection.
        sim_peripheral_clock_from_fll(sim);
        sim_tpm_clock_from_pllfll(sim);

        // Reset the oscillator control block to a known-disabled baseline.
        osc_reset(&osc);

        // The chip starts in FEI mode coming from a reset; stay there and
        // only update the dividers and the FLL range.
        let (outdiv1, range) = select_fll_dividers(core_target);
        let actual_core = fll_output_frequency(outdiv1, range);
        let outdiv4 = select_bus_divider(actual_core, bus_target);
        let actual_bus = actual_core / (outdiv4 + 1);

        sim_set_clock_dividers(sim, #[verifier::truncate] (outdiv1 as u8), outdiv4 as u8);
        mcg_set_fll_range(&mcg, range as u8);

        proof {
            lemma_bus_not_above_core(core_target, bus_target);
        }

        Ok(Clocks { coreclk: Hertz(actual_core), busclk: Hertz(actual_bus) })
    }
}

} // verus!


