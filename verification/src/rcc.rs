//! Reset and clock control: the clock configuration and its bring-up.

use vstd::prelude::*;
use crate::dividers::DividerField;
use crate::registers::{
    place, spec_extract, spec_place, Access, Register, RegisterBank, Traced, AHB2ENR_GPIOAEN,
    AHB2ENR_GPIOBEN, AHB2ENR_GPIOCEN, APB1ENR1_FDCANEN, APB1ENR1_USBEN, CCIPR_CLK48SEL_MASK,
    CCIPR_CLK48SEL_SHIFT, CCIPR_FDCANSEL_MASK, CCIPR_FDCANSEL_SHIFT, CFGR_HPRE_MASK,
    CFGR_HPRE_SHIFT, CFGR_MCOPRE_MASK, CFGR_MCOPRE_SHIFT, CFGR_MCOSEL_MASK, CFGR_MCOSEL_SHIFT,
    CFGR_PPRE1_MASK, CFGR_PPRE1_SHIFT, CFGR_PPRE2_MASK, CFGR_PPRE2_SHIFT, CFGR_SW_MASK,
    CFGR_SW_SHIFT, CR_HSEON, CR_HSERDY, CR_PLLON, CR_PLLRDY, PLLCFGR_PLLM_MASK,
    PLLCFGR_PLLM_SHIFT, PLLCFGR_PLLN_MASK, PLLCFGR_PLLN_SHIFT, PLLCFGR_PLLPDIV_MASK,
    PLLCFGR_PLLPDIV_SHIFT, PLLCFGR_PLLPEN, PLLCFGR_PLLQEN, PLLCFGR_PLLQ_MASK,
    PLLCFGR_PLLQ_SHIFT, PLLCFGR_PLLREN, PLLCFGR_PLLR_MASK, PLLCFGR_PLLR_SHIFT,
    PLLCFGR_PLLSRC_MASK, PLLCFGR_PLLSRC_SHIFT,
};
use crate::stm32::RCC;
use crate::time::Hertz;

verus! {

/// Frequency of the internal high-speed oscillator.
pub const HSI_FREQ: u32 = 16_000_000;

/// Frequency of the external oscillator that the divider plan is laid out
/// for, and that is assumed where the configuration names none.
pub const HSE_NOMINAL_FREQ: u32 = 8_000_000;

/// The highest system clock the device is rated for.
pub const SYSCLK_MAX: u32 = 170_000_000;

/// Code of the PLL source field that selects the external oscillator.
pub const PLLSRC_HSE: u8 = 3;

/// Code of the PLL input divider M of the plan: divide by 2.
pub const PLLM_CODE: u8 = 1;

/// Code of the PLL feedback multiplier N of the plan: multiply by 72.
pub const PLLN_CODE: u8 = 72;

/// Code of the PLL output divider P of the plan: divide by 12.
pub const PLLP_CODE: u8 = 12;

/// Code of the PLL output divider Q of the plan: divide by 6.
pub const PLLQ_CODE: u8 = 2;

/// Code of the PLL output divider R of the plan: divide by 2.
pub const PLLR_CODE: u8 = 0;

/// Code of the clock switch that selects the PLL as system clock.
pub const SW_PLL: u8 = 3;

/// Code of the AHB prescaler while the clock is switched: divide by 2.
pub const HPRE_SWITCH_CODE: u8 = 8;

/// Code of the AHB prescaler of the plan: not divided.
pub const HPRE_CODE: u8 = 0;

/// Code of the APB1 prescaler of the plan: divide by 2.
pub const PPRE1_CODE: u8 = 4;

/// Code of the APB2 prescaler of the plan: divide by 4.
pub const PPRE2_CODE: u8 = 5;

/// Code of the clock output prescaler: divide by 16.
pub const MCOPRE_CODE: u8 = 4;

/// Code of the clock output source: the system clock.
pub const MCOSEL_SYSCLK: u8 = 1;

/// Code of the FDCAN kernel clock source: the APB1 clock.
pub const FDCANSEL_PCLK1: u8 = 2;

/// Code of the 48 MHz clock source: the Q output of the PLL.
pub const CLK48SEL_PLLQ: u8 = 2;

/// Rounds of the empty loop that the core idles for while the clock switch
/// settles.
pub const SWITCH_DELAY: u32 = 10_000;

/// PLL clock frequencies.
#[derive(Clone, Copy, Debug, PartialEq, Eq, Structural)]
pub struct PLLClocks {
    /// R frequency: the main output, which feeds the system clock.
    pub r: Hertz,
    /// Q frequency, where the Q output is enabled.
    pub q: Option<Hertz>,
    /// P frequency, where the P output is enabled.
    pub p: Option<Hertz>,
}

/// Clock frequencies.
#[derive(Clone, Copy, Debug, PartialEq, Eq, Structural)]
pub struct Clocks {
    /// System frequency - SYSCLK
    pub sysclk: Hertz,
    /// Core frequency - HCLK
    pub hclk: Hertz,
    /// APB1 frequency - PCLK1
    pub pclk1: Hertz,
    /// APB2 frequency - PCLK2
    pub pclk2: Hertz,
    /// PLL frequency
    pub pll_clk: PLLClocks,
}

/// Why the clocks were not brought up.
#[derive(Clone, Copy, Debug, PartialEq, Eq, Structural)]
pub enum ClockError {
    /// The oscillator frequency gives, under the divider plan, a clock that
    /// stands still or a system clock above [`SYSCLK_MAX`].
    InvalidFrequency,
    /// The oscillator did not report ready within the poll limit.
    OscillatorStartupTimeout,
    /// The PLL did not report unlocked within the poll limit after it was
    /// switched off.
    PllDisableTimeout,
    /// The PLL did not report lock within the poll limit.
    PllLockTimeout,
}

/// The frequency at a PLL output: the input divided by `m`, multiplied by
/// `n`, divided by the output's own divider, each quotient rounded down.
///
/// `None` where a divider is zero, where the output would stand still, or
/// where the frequency is more than a `u32` holds.
pub open spec fn spec_pll_output(input: Hertz, m: u32, n: u32, div: u32) -> Option<Hertz> {
    if m == 0 || div == 0 {
        None
    } else {
        let f: int = input.0 * n / (m as int) / (div as int);
        if f == 0 || f > u32::MAX {
            None
        } else {
            Some(Hertz(f as u32))
        }
    }
}

/// See [`spec_pll_output`].
pub fn pll_output(input: Hertz, m: u32, n: u32, div: u32) -> (f: Option<Hertz>)
    ensures
        f == spec_pll_output(input, m, n, div),
{
    if m == 0 || div == 0 {
        return None;
    }
    assert(input.0 * n <= u32::MAX * u32::MAX) by (nonlinear_arith)
        requires
            0 <= input.0 <= u32::MAX,
            0 <= n <= u32::MAX,
    ;
    let product: u64 = (input.0 as u64) * (n as u64);
    let f: u64 = product / (m as u64) / (div as u64);
    if f == 0 || f > u32::MAX as u64 {
        None
    } else {
        Some(Hertz(f as u32))
    }
}

/// The ratio of a divider code of the plan; zero for a code that its field
/// does not list, which no divider accepts.
pub open spec fn spec_ratio(kind: DividerField, code: u8) -> u32 {
    match kind.spec_decode(code) {
        Some(r) => r,
        None => 0,
    }
}

/// See [`spec_ratio`].
fn ratio(kind: DividerField, code: u8) -> (r: u32)
    ensures
        r == spec_ratio(kind, code),
{
    match kind.decode(code) {
        Some(r) => r,
        None => 0,
    }
}

/// The clock tree that the divider plan makes of an oscillator at `input`:
/// each frequency follows from the codes that [`CFGR::freeze`] writes.
///
/// `None` where one of the clocks would stand still or the system clock
/// would be above [`SYSCLK_MAX`].
pub open spec fn spec_plan_clocks(input: Hertz) -> Option<Clocks> {
    let m = spec_ratio(DividerField::PllM, PLLM_CODE);
    let n = spec_ratio(DividerField::PllN, PLLN_CODE);
    let r = spec_pll_output(input, m, n, spec_ratio(DividerField::PllR, PLLR_CODE));
    let q = spec_pll_output(input, m, n, spec_ratio(DividerField::PllQ, PLLQ_CODE));
    let p = spec_pll_output(input, m, n, spec_ratio(DividerField::PllP, PLLP_CODE));
    if r is None || q is None || p is None || r.unwrap().0 > SYSCLK_MAX {
        None
    } else {
        let sysclk = r.unwrap();
        match sysclk.spec_divided_by(spec_ratio(DividerField::Ahb, HPRE_CODE)) {
            None => None,
            Some(hclk) => {
                let pclk1 = hclk.spec_divided_by(spec_ratio(DividerField::Apb, PPRE1_CODE));
                let pclk2 = hclk.spec_divided_by(spec_ratio(DividerField::Apb, PPRE2_CODE));
                if pclk1 is None || pclk2 is None {
                    None
                } else {
                    Some(
                        Clocks {
                            sysclk,
                            hclk,
                            pclk1: pclk1.unwrap(),
                            pclk2: pclk2.unwrap(),
                            pll_clk: PLLClocks { r: sysclk, q, p },
                        },
                    )
                }
            },
        }
    }
}

/// See [`spec_plan_clocks`].
pub fn plan_clocks(input: Hertz) -> (clocks: Option<Clocks>)
    ensures
        clocks == spec_plan_clocks(input),
{
    let m: u32 = ratio(DividerField::PllM, PLLM_CODE);
    let n: u32 = ratio(DividerField::PllN, PLLN_CODE);
    let r = pll_output(input, m, n, ratio(DividerField::PllR, PLLR_CODE));
    let q = pll_output(input, m, n, ratio(DividerField::PllQ, PLLQ_CODE));
    let p = pll_output(input, m, n, ratio(DividerField::PllP, PLLP_CODE));
    let sysclk = match r {
        Some(f) => f,
        None => {
            return None;
        },
    };
    if q.is_none() || p.is_none() || sysclk.0 > SYSCLK_MAX {
        return None;
    }
    let hclk = match sysclk.divided_by(ratio(DividerField::Ahb, HPRE_CODE)) {
        Some(f) => f,
        None => {
            return None;
        },
    };
    let pclk1 = match hclk.divided_by(ratio(DividerField::Apb, PPRE1_CODE)) {
        Some(f) => f,
        None => {
            return None;
        },
    };
    let pclk2 = match hclk.divided_by(ratio(DividerField::Apb, PPRE2_CODE)) {
        Some(f) => f,
        None => {
            return None;
        },
    };
    Some(Clocks { sysclk, hclk, pclk1, pclk2, pll_clk: PLLClocks { r: sysclk, q, p } })
}

/// Under the plan the system clock is eighteen times the oscillator, the Q
/// output six times and the P output three times; the core runs at the system
/// clock, the first peripheral bus at half of it and the second at a quarter.
/// The plan is valid for every oscillator from 1 Hz up to the one that puts
/// the system clock at [`SYSCLK_MAX`], and for no other.
pub proof fn lemma_plan_clocks(input: Hertz)
    ensures
        spec_plan_clocks(input) is Some <==> 1 <= input.0 && 18 * input.0 <= SYSCLK_MAX,
        (spec_plan_clocks(input) matches Some(c) ==> {
            &&& c.sysclk.0 == 18 * input.0
            &&& c.hclk.0 == 18 * input.0
            &&& c.pclk1.0 == 9 * input.0
            &&& c.pclk2.0 == (9 * input.0) / 2
            &&& c.pll_clk.r == c.sysclk
            &&& c.pll_clk.q == Some(Hertz((6 * input.0) as u32))
            &&& c.pll_clk.p == Some(Hertz((3 * input.0) as u32))
        }),
{
    let x: int = input.0 as int;
    assert(spec_ratio(DividerField::PllM, PLLM_CODE) == 2);
    assert(spec_ratio(DividerField::PllN, PLLN_CODE) == 72);
    assert(spec_ratio(DividerField::PllR, PLLR_CODE) == 2);
    assert(spec_ratio(DividerField::PllQ, PLLQ_CODE) == 6);
    assert(spec_ratio(DividerField::PllP, PLLP_CODE) == 12);
    assert(spec_ratio(DividerField::Ahb, HPRE_CODE) == 1);
    assert(spec_ratio(DividerField::Apb, PPRE1_CODE) == 2);
    assert(spec_ratio(DividerField::Apb, PPRE2_CODE) == 4);
    assert(x * 72 / 2 / 2 == 18 * x);
    assert(x * 72 / 2 / 6 == 6 * x);
    assert(x * 72 / 2 / 12 == 3 * x);
    assert(spec_pll_output(input, 2, 72, 2) == (if x == 0 || 18 * x > u32::MAX {
        None
    } else {
        Some(Hertz((18 * x) as u32))
    }));
    assert(spec_pll_output(input, 2, 72, 6) == (if x == 0 || 6 * x > u32::MAX {
        None
    } else {
        Some(Hertz((6 * x) as u32))
    }));
    assert(spec_pll_output(input, 2, 72, 12) == (if x == 0 || 3 * x > u32::MAX {
        None
    } else {
        Some(Hertz((3 * x) as u32))
    }));
}

/// Splits reset and clock control into its parts.
pub trait RccExt {
    /// Gives up the peripheral for the tokens of its register groups and an
    /// empty clock configuration.
    fn constrain(self) -> Rcc;
}

impl RccExt for RCC {
    fn constrain(self) -> (rcc: Rcc)
        ensures
            rcc.cfgr@ == CFGR::spec_default(),
    {
        Rcc {
            ahb1: AHB1 { _0: () },
            ahb2: AHB2 { _0: () },
            ahb3: AHB3 { _0: () },
            cfgr: CFGR::default(),
        }
    }
}

/// The parts of reset and clock control.
pub struct Rcc {
    /// The AHB1 enable and reset registers.
    pub ahb1: AHB1,
    /// The AHB2 enable and reset registers.
    pub ahb2: AHB2,
    /// The AHB3 enable and reset registers.
    pub ahb3: AHB3,
    /// The clock configuration.
    pub cfgr: CFGR,
}

/// The token of the AHB1 enable and reset registers.
pub struct AHB1 {
    _0: (),
}

impl AHB1 {
    /// The clock enable register of the bus.
    pub fn enr(&mut self) -> (reg: Register)
        ensures
            reg == Register::Ahb1enr,
            *final(self) == *old(self),
    {
        Register::Ahb1enr
    }

    /// The reset register of the bus.
    pub fn rstr(&mut self) -> (reg: Register)
        ensures
            reg == Register::Ahb1rstr,
            *final(self) == *old(self),
    {
        Register::Ahb1rstr
    }
}

/// The token of the AHB2 enable and reset registers.
pub struct AHB2 {
    _0: (),
}

impl AHB2 {
    /// The clock enable register of the bus.
    pub fn enr(&mut self) -> (reg: Register)
        ensures
            reg == Register::Ahb2enr,
            *final(self) == *old(self),
    {
        Register::Ahb2enr
    }

    /// The reset register of the bus.
    pub fn rstr(&mut self) -> (reg: Register)
        ensures
            reg == Register::Ahb2rstr,
            *final(self) == *old(self),
    {
        Register::Ahb2rstr
    }
}

/// The token of the AHB3 enable and reset registers.
pub struct AHB3 {
    _0: (),
}

impl AHB3 {
    /// The clock enable register of the bus.
    pub fn enr(&mut self) -> (reg: Register)
        ensures
            reg == Register::Ahb3enr,
            *final(self) == *old(self),
    {
        Register::Ahb3enr
    }

    /// The reset register of the bus.
    pub fn rstr(&mut self) -> (reg: Register)
        ensures
            reg == Register::Ahb3rstr,
            *final(self) == *old(self),
    {
        Register::Ahb3rstr
    }
}

/// What a clock configuration asks for.
#[derive(Clone, Copy, Debug, PartialEq, Eq, Structural)]
pub struct Settings {
    /// Frequency of the external oscillator, where one was named.
    pub hse: Option<u32>,
    /// The external clock is a signal fed in, not a crystal.
    pub hse_bypass: bool,
    /// The clock security system is asked for.
    pub css: bool,
    /// Wanted frequency of the AHB bus.
    pub hclk: Option<u32>,
    /// Wanted frequency of the APB1 bus.
    pub pclk1: Option<u32>,
    /// Wanted frequency of the APB2 bus.
    pub pclk2: Option<u32>,
    /// Wanted frequency of the system core.
    pub sysclk: Option<u32>,
}

/// The clock configuration under construction.
///
/// The setters only record what is asked for; nothing reaches the hardware
/// before [`CFGR::freeze`].  Of what is recorded, `freeze` acts on the
/// oscillator frequency.  The bypass flag, the clock security flag and the
/// wanted bus and core frequencies are advisory: the divider plan is fixed,
/// and `freeze` reports the frequencies that the plan gives.
pub struct CFGR {
    settings: Settings,
}

impl View for CFGR {
    type V = Settings;

    closed spec fn view(&self) -> Settings {
        self.settings
    }
}

impl Default for CFGR {
    /// A configuration that asks for nothing.
    fn default() -> (c: Self)
        ensures
            c@ == CFGR::spec_default(),
    {
        CFGR {
            settings: Settings {
                hse: None,
                hse_bypass: false,
                css: false,
                hclk: None,
                pclk1: None,
                pclk2: None,
                sysclk: None,
            },
        }
    }
}

/// The reads of the clock control register that gave `values`, in order.
pub open spec fn polls(values: Seq<u32>) -> Seq<Access> {
    Seq::new(values.len(), |i: int| Access::Read { reg: Register::Cr, value: values[i] })
}

/// Whether the bits of `value` under `mask` are in the awaited state: some of
/// them set where `set` holds, all of them clear where it does not.
pub open spec fn shows(value: u32, mask: u32, set: bool) -> bool {
    (value & mask != 0) == set
}

/// A wait that ended well: at least one poll and at most `limit`, the last of
/// them the first to show the awaited state.
pub open spec fn wait_met(values: Seq<u32>, mask: u32, set: bool, limit: u32) -> bool {
    &&& 1 <= values.len() <= limit
    &&& shows(values.last(), mask, set)
    &&& forall|i: int| 0 <= i < values.len() - 1 ==> !shows(#[trigger] values[i], mask, set)
}

/// A wait that gave up: `limit` polls, none of which showed the awaited state.
pub open spec fn wait_expired(values: Seq<u32>, mask: u32, set: bool, limit: u32) -> bool {
    &&& values.len() == limit
    &&& forall|i: int| 0 <= i < values.len() ==> !shows(#[trigger] values[i], mask, set)
}

/// The mask of the one write that programs the PLL: its source and all of its
/// dividers.
pub open spec fn spec_pll_plan_mask() -> u32 {
    PLLCFGR_PLLSRC_MASK | PLLCFGR_PLLM_MASK | PLLCFGR_PLLN_MASK | PLLCFGR_PLLPDIV_MASK
        | PLLCFGR_PLLQ_MASK | PLLCFGR_PLLR_MASK
}

/// The bits of the one write that programs the PLL.
pub open spec fn spec_pll_plan_bits() -> u32 {
    spec_place(PLLSRC_HSE, PLLCFGR_PLLSRC_SHIFT, PLLCFGR_PLLSRC_MASK) | spec_place(
        PLLM_CODE,
        PLLCFGR_PLLM_SHIFT,
        PLLCFGR_PLLM_MASK,
    ) | spec_place(PLLN_CODE, PLLCFGR_PLLN_SHIFT, PLLCFGR_PLLN_MASK) | spec_place(
        PLLP_CODE,
        PLLCFGR_PLLPDIV_SHIFT,
        PLLCFGR_PLLPDIV_MASK,
    ) | spec_place(PLLQ_CODE, PLLCFGR_PLLQ_SHIFT, PLLCFGR_PLLQ_MASK) | spec_place(
        PLLR_CODE,
        PLLCFGR_PLLR_SHIFT,
        PLLCFGR_PLLR_MASK,
    )
}

/// The three output enables of the PLL.
pub open spec fn spec_pll_outputs() -> u32 {
    PLLCFGR_PLLPEN | PLLCFGR_PLLQEN | PLLCFGR_PLLREN
}

/// The mask of the write that switches the system clock: the clock switch and
/// the three bus prescalers.
pub open spec fn spec_switch_mask() -> u32 {
    CFGR_PPRE2_MASK | CFGR_PPRE1_MASK | CFGR_HPRE_MASK | CFGR_SW_MASK
}

/// The bits of the write that switches the system clock: the PLL selected,
/// the peripheral buses at their prescalers of the plan, the AHB bus at its
/// larger prescaler for the time of the switch.
pub open spec fn spec_switch_bits() -> u32 {
    spec_place(PPRE2_CODE, CFGR_PPRE2_SHIFT, CFGR_PPRE2_MASK) | spec_place(
        PPRE1_CODE,
        CFGR_PPRE1_SHIFT,
        CFGR_PPRE1_MASK,
    ) | spec_place(HPRE_SWITCH_CODE, CFGR_HPRE_SHIFT, CFGR_HPRE_MASK) | spec_place(
        SW_PLL,
        CFGR_SW_SHIFT,
        CFGR_SW_MASK,
    )
}

/// The write that switches the external oscillator on.
pub open spec fn oscillator_on() -> Access {
    Access::Modify { reg: Register::Cr, mask: CR_HSEON, bits: CR_HSEON }
}

/// The write that switches the PLL off.
pub open spec fn pll_off() -> Access {
    Access::Modify { reg: Register::Cr, mask: CR_PLLON, bits: 0 }
}

/// The write that programs the source and the dividers of the PLL.
pub open spec fn pll_plan() -> Access {
    Access::Modify {
        reg: Register::Pllcfgr,
        mask: spec_pll_plan_mask(),
        bits: spec_pll_plan_bits(),
    }
}

/// The write that switches the PLL on.
pub open spec fn pll_on() -> Access {
    Access::Modify { reg: Register::Cr, mask: CR_PLLON, bits: CR_PLLON }
}

/// The write that switches the system clock to the PLL.
pub open spec fn clock_switch() -> Access {
    Access::Modify { reg: Register::Cfgr, mask: spec_switch_mask(), bits: spec_switch_bits() }
}

/// What follows the lock of the PLL: its outputs are enabled, the system
/// clock is switched behind the larger AHB prescaler, the core idles, the AHB
/// prescaler is put back, the clock output is set up, and the peripheral
/// clocks are gated and selected.
pub open spec fn after_lock() -> Seq<Access> {
    seq![
        Access::Modify {
            reg: Register::Pllcfgr,
            mask: spec_pll_outputs(),
            bits: spec_pll_outputs(),
        },
        clock_switch(),
        Access::Delay { iterations: SWITCH_DELAY },
        Access::Modify {
            reg: Register::Cfgr,
            mask: CFGR_HPRE_MASK,
            bits: spec_place(HPRE_CODE, CFGR_HPRE_SHIFT, CFGR_HPRE_MASK),
        },
        Access::Modify {
            reg: Register::Cfgr,
            mask: CFGR_MCOPRE_MASK,
            bits: spec_place(MCOPRE_CODE, CFGR_MCOPRE_SHIFT, CFGR_MCOPRE_MASK),
        },
        Access::Modify {
            reg: Register::Cfgr,
            mask: CFGR_MCOSEL_MASK,
            bits: spec_place(MCOSEL_SYSCLK, CFGR_MCOSEL_SHIFT, CFGR_MCOSEL_MASK),
        },
        Access::Modify { reg: Register::Apb1enr1, mask: APB1ENR1_FDCANEN, bits: APB1ENR1_FDCANEN },
        Access::Modify {
            reg: Register::Ccipr,
            mask: CCIPR_FDCANSEL_MASK,
            bits: spec_place(FDCANSEL_PCLK1, CCIPR_FDCANSEL_SHIFT, CCIPR_FDCANSEL_MASK),
        },
        Access::Modify { reg: Register::Ahb2enr, mask: AHB2ENR_GPIOAEN, bits: AHB2ENR_GPIOAEN },
        Access::Modify { reg: Register::Ahb2enr, mask: AHB2ENR_GPIOBEN, bits: AHB2ENR_GPIOBEN },
        Access::Modify { reg: Register::Ahb2enr, mask: AHB2ENR_GPIOCEN, bits: AHB2ENR_GPIOCEN },
        Access::Modify {
            reg: Register::Ccipr,
            mask: CCIPR_CLK48SEL_MASK,
            bits: spec_place(CLK48SEL_PLLQ, CCIPR_CLK48SEL_SHIFT, CCIPR_CLK48SEL_MASK),
        },
        Access::Modify { reg: Register::Apb1enr1, mask: APB1ENR1_USBEN, bits: APB1ENR1_USBEN },
    ]
}

/// Everything that a bring-up does to the hardware, in order, where its three
/// waits polled `a`, `b` and `c` and it ended in `outcome`.
///
/// A bring-up that is refused does nothing.  One that times out stops with
/// the polls of the wait that expired.
pub open spec fn transcript(
    a: Seq<u32>,
    b: Seq<u32>,
    c: Seq<u32>,
    outcome: Result<Clocks, ClockError>,
) -> Seq<Access> {
    match outcome {
        Err(ClockError::InvalidFrequency) => Seq::empty(),
        Err(ClockError::OscillatorStartupTimeout) => seq![oscillator_on()] + polls(a),
        Err(ClockError::PllDisableTimeout) => seq![oscillator_on()] + polls(a) + seq![pll_off()]
            + polls(b),
        Err(ClockError::PllLockTimeout) => seq![oscillator_on()] + polls(a) + seq![pll_off()]
            + polls(b) + seq![pll_plan(), pll_on()] + polls(c),
        Ok(_) => seq![oscillator_on()] + polls(a) + seq![pll_off()] + polls(b) + seq![
            pll_plan(),
            pll_on(),
        ] + polls(c) + after_lock(),
    }
}

/// How a bring-up from an oscillator at `input` ends, given what its three
/// waits polled.
///
/// It is refused exactly where the plan is not valid for the oscillator.
/// Otherwise it waits for the oscillator to be ready, then for the PLL to be
/// unlocked, then for the PLL to be locked; the first wait that expires ends
/// it with that wait's error, and where all three are met it succeeds with
/// the clocks of the plan.
pub open spec fn bring_up(
    input: Hertz,
    limit: u32,
    a: Seq<u32>,
    b: Seq<u32>,
    c: Seq<u32>,
    outcome: Result<Clocks, ClockError>,
) -> bool {
    match outcome {
        Err(ClockError::InvalidFrequency) => spec_plan_clocks(input) is None,
        Err(ClockError::OscillatorStartupTimeout) => {
            &&& spec_plan_clocks(input) is Some
            &&& wait_expired(a, CR_HSERDY, true, limit)
        },
        Err(ClockError::PllDisableTimeout) => {
            &&& spec_plan_clocks(input) is Some
            &&& wait_met(a, CR_HSERDY, true, limit)
            &&& wait_expired(b, CR_PLLRDY, false, limit)
        },
        Err(ClockError::PllLockTimeout) => {
            &&& spec_plan_clocks(input) is Some
            &&& wait_met(a, CR_HSERDY, true, limit)
            &&& wait_met(b, CR_PLLRDY, false, limit)
            &&& wait_expired(c, CR_PLLRDY, true, limit)
        },
        Ok(clocks) => {
            &&& spec_plan_clocks(input) == Some(clocks)
            &&& wait_met(a, CR_HSERDY, true, limit)
            &&& wait_met(b, CR_PLLRDY, false, limit)
            &&& wait_met(c, CR_PLLRDY, true, limit)
        },
    }
}

/// Polls the clock control register until the bits under `mask` show the
/// awaited state, `limit` times at most.
fn wait_for<B: RegisterBank>(
    regs: &mut Traced<B>,
    mask: u32,
    set: bool,
    limit: u32,
) -> (r: (bool, Ghost<Seq<u32>>))
    ensures
        final(regs).trace() == old(regs).trace() + polls(r.1@),
        final(regs).spec_bank().setup() == old(regs).spec_bank().setup(),
        final(regs).spec_bank().history() == old(regs).spec_bank().history() + polls(r.1@),
        r.0 ==> wait_met(r.1@, mask, set, limit),
        !r.0 ==> wait_expired(r.1@, mask, set, limit),
{
    let ghost start: Seq<Access> = regs.trace();
    let ghost before: Seq<Access> = regs.spec_bank().history();
    let ghost mut seen: Seq<u32> = Seq::empty();
    let mut n: u32 = 0;
    assert(start + polls(seen) =~= start);
    assert(before + polls(seen) =~= before);
    while n < limit
        invariant
            n <= limit,
            seen.len() == n,
            start == old(regs).trace(),
            before == old(regs).spec_bank().history(),
            regs.trace() == start + polls(seen),
            regs.spec_bank().setup() == old(regs).spec_bank().setup(),
            regs.spec_bank().history() == before + polls(seen),
            forall|i: int| 0 <= i < seen.len() ==> !shows(#[trigger] seen[i], mask, set),
        decreases limit - n,
    {
        let value: u32 = regs.read(Register::Cr);
        proof {
            assert((start + polls(seen)).push(Access::Read { reg: Register::Cr, value }) =~= start
                + polls(seen.push(value)));
            assert((before + polls(seen)).push(Access::Read { reg: Register::Cr, value })
                =~= before + polls(seen.push(value)));
            seen = seen.push(value);
        }
        n = n + 1;
        if ((value & mask) != 0) == set {
            return (true, Ghost(seen));
        }
    }
    (false, Ghost(seen))
}

impl CFGR {
    /// The settings that ask for nothing.
    pub open spec fn spec_default() -> Settings {
        Settings {
            hse: None,
            hse_bypass: false,
            css: false,
            hclk: None,
            pclk1: None,
            pclk2: None,
            sysclk: None,
        }
    }

    /// What was asked for so far.
    pub fn settings(&self) -> (s: Settings)
        ensures
            s == self@,
    {
        self.settings
    }

    /// Uses `HSE` (high speed external oscillator) instead of `HSI` (high speed
    /// internal oscillator) as the clock source.
    ///
    /// Any frequency is recorded; [`CFGR::freeze`] refuses the ones that the
    /// divider plan is not valid for.
    pub fn use_hse(self, freq: Hertz) -> (c: Self)
        ensures
            c@ == (Settings { hse: Some(freq.0), ..self@ }),
    {
        CFGR { settings: Settings { hse: Some(freq.0), ..self.settings } }
    }

    /// Records that the external clock is a signal fed in, not a crystal.
    pub fn bypass_hse(self) -> (c: Self)
        ensures
            c@ == (Settings { hse_bypass: true, ..self@ }),
    {
        CFGR { settings: Settings { hse_bypass: true, ..self.settings } }
    }

    /// Asks for the clock security system.
    pub fn enable_css(self) -> (c: Self)
        ensures
            c@ == (Settings { css: true, ..self@ }),
    {
        CFGR { settings: Settings { css: true, ..self.settings } }
    }

    /// Sets a frequency for the HCLK AHB bus
    ///
    /// Maximum of 170 MHz
    pub fn hclk(self, freq: Hertz) -> (c: Self)
        ensures
            c@ == (Settings { hclk: Some(freq.0), ..self@ }),
    {
        CFGR { settings: Settings { hclk: Some(freq.0), ..self.settings } }
    }

    /// Sets a frequency for the APB1 bus
    ///
    /// Maximum of 170 MHz
    pub fn pclk1(self, freq: Hertz) -> (c: Self)
        ensures
            c@ == (Settings { pclk1: Some(freq.0), ..self@ }),
    {
        CFGR { settings: Settings { pclk1: Some(freq.0), ..self.settings } }
    }

    /// Sets a frequency for the APB2 bus
    ///
    /// Maximum of 170 MHz
    pub fn pclk2(self, freq: Hertz) -> (c: Self)
        ensures
            c@ == (Settings { pclk2: Some(freq.0), ..self@ }),
    {
        CFGR { settings: Settings { pclk2: Some(freq.0), ..self.settings } }
    }

    /// Sets a frequency for the system core
    ///
    /// Maximum of 170 MHz
    pub fn sysclk(self, freq: Hertz) -> (c: Self)
        ensures
            c@ == (Settings { sysclk: Some(freq.0), ..self@ }),
    {
        CFGR { settings: Settings { sysclk: Some(freq.0), ..self.settings } }
    }

    /// The oscillator that [`CFGR::freeze`] builds on: the external one, at
    /// the frequency that was named, or at [`HSE_NOMINAL_FREQ`] where none was.
    pub open spec fn spec_oscillator(&self) -> Hertz {
        match self@.hse {
            Some(f) => Hertz(f),
            None => Hertz(HSE_NOMINAL_FREQ),
        }
    }

    /// See [`CFGR::spec_oscillator`].
    pub fn oscillator(&self) -> (f: Hertz)
        ensures
            f == self.spec_oscillator(),
    {
        match self.settings.hse {
            Some(f) => Hertz(f),
            None => Hertz(HSE_NOMINAL_FREQ),
        }
    }

    /// Brings the clocks up and hands out the frequencies they run at.
    ///
    /// Where the divider plan is not valid for the oscillator, nothing is
    /// done and the configuration is refused.  Otherwise the sequence is:
    /// oscillator on, wait until it is ready; PLL off, wait until it is
    /// unlocked; program the PLL in one write; PLL on, wait until it is
    /// locked; enable the PLL outputs; switch the system clock to the PLL
    /// behind a larger AHB prescaler; idle; put the AHB prescaler back; set up
    /// the clock output; gate and select the peripheral clocks.  Each wait
    /// polls the clock control register `poll_limit` times at most, and the
    /// first one that expires ends the bring-up with its error.
    ///
    /// To be called once after power-on: a second bring-up would work on a
    /// PLL that drives the core.
    pub fn freeze<B: RegisterBank>(
        self,
        regs: &mut Traced<B>,
        poll_limit: u32,
    ) -> (result: Result<Clocks, ClockError>)
        ensures
            result == Err::<Clocks, ClockError>(ClockError::InvalidFrequency) <==> spec_plan_clocks(
                self.spec_oscillator(),
            ) is None,
            result matches Ok(clocks) ==> spec_plan_clocks(self.spec_oscillator()) == Some(clocks),
            final(regs).spec_bank().setup() == old(regs).spec_bank().setup(),
            (exists|a: Seq<u32>, b: Seq<u32>, c: Seq<u32>|
                #![trigger bring_up(self.spec_oscillator(), poll_limit, a, b, c, result)]
                bring_up(self.spec_oscillator(), poll_limit, a, b, c, result)
                    && final(regs).trace() == old(regs).trace() + transcript(a, b, c, result)
                    && final(regs).spec_bank().history() == old(regs).spec_bank().history()
                    + transcript(a, b, c, result)),
    {
        let ghost start: Seq<Access> = regs.trace();
        let ghost before: Seq<Access> = regs.spec_bank().history();
        let ghost input: Hertz = self.spec_oscillator();
        let ghost none: Seq<u32> = Seq::empty();
        let clocks = match plan_clocks(self.oscillator()) {
            Some(clocks) => clocks,
            None => {
                let result = Err(ClockError::InvalidFrequency);
                proof {
                    assert(start + transcript(none, none, none, result) =~= start);
                    assert(before + transcript(none, none, none, result) =~= before);
                    assert(bring_up(input, poll_limit, none, none, none, result));
                }
                return result;
            },
        };

        regs.modify(Register::Cr, CR_HSEON, CR_HSEON);
        let (ready, Ghost(a)) = wait_for(regs, CR_HSERDY, true, poll_limit);
        if !ready {
            let result = Err(ClockError::OscillatorStartupTimeout);
            proof {
                assert(regs.trace() =~= start + transcript(a, none, none, result));
                assert(regs.spec_bank().history() =~= before + transcript(a, none, none, result));
                assert(bring_up(input, poll_limit, a, none, none, result));
            }
            return result;
        }
        regs.modify(Register::Cr, CR_PLLON, 0);
        let (unlocked, Ghost(b)) = wait_for(regs, CR_PLLRDY, false, poll_limit);
        if !unlocked {
            let result = Err(ClockError::PllDisableTimeout);
            proof {
                assert(regs.trace() =~= start + transcript(a, b, none, result));
                assert(regs.spec_bank().history() =~= before + transcript(a, b, none, result));
                assert(bring_up(input, poll_limit, a, b, none, result));
            }
            return result;
        }
        regs.modify(Register::Pllcfgr, pll_plan_mask(), pll_plan_bits());
        regs.modify(Register::Cr, CR_PLLON, CR_PLLON);
        let (locked, Ghost(c)) = wait_for(regs, CR_PLLRDY, true, poll_limit);
        if !locked {
            let result = Err(ClockError::PllLockTimeout);
            proof {
                assert(regs.trace() =~= start + transcript(a, b, c, result));
                assert(regs.spec_bank().history() =~= before + transcript(a, b, c, result));
                assert(bring_up(input, poll_limit, a, b, c, result));
            }
            return result;
        }
        let ghost locked_trace: Seq<Access> = regs.trace();
        let ghost locked_history: Seq<Access> = regs.spec_bank().history();
        switch_to_pll(regs);
        let result = Ok(clocks);
        proof {
            assert(locked_trace =~= start + seq![oscillator_on()] + polls(a) + seq![pll_off()]
                + polls(b) + seq![pll_plan(), pll_on()] + polls(c));
            assert(locked_history =~= before + seq![oscillator_on()] + polls(a) + seq![pll_off()]
                + polls(b) + seq![pll_plan(), pll_on()] + polls(c));
            assert(regs.trace() =~= start + transcript(a, b, c, result));
            assert(regs.spec_bank().history() =~= before + transcript(a, b, c, result));
            assert(bring_up(input, poll_limit, a, b, c, result));
        }
        result
    }
}

/// Whether the access writes into the clock switch, the field that selects
/// the source of the system clock.
pub open spec fn writes_clock_switch(x: Access) -> bool {
    x matches Access::Modify { reg, mask, .. } && reg == Register::Cfgr && mask & CFGR_SW_MASK
        != 0
}

/// Whether the access is a read of the clock control register that found the
/// PLL locked.
pub open spec fn observes_lock(x: Access) -> bool {
    x matches Access::Read { reg, value } && reg == Register::Cr && value & CR_PLLRDY != 0
}

/// Whether the access writes the clock control register.
pub open spec fn writes_clock_control(x: Access) -> bool {
    x matches Access::Modify { reg, .. } && reg == Register::Cr
}

/// In `t`, the PLL is switched on at `k`, found locked at `j`, and left alone
/// from there to `i`.
pub open spec fn locked_since(t: Seq<Access>, k: int, j: int, i: int) -> bool {
    &&& 0 <= k < j < i <= t.len()
    &&& t[k] == pll_on()
    &&& observes_lock(t[j])
    &&& forall|m: int| k < m < i ==> !writes_clock_control(#[trigger] t[m])
}

/// The clock switch is written once at most in a bring-up, by the write of
/// which [`lemma_switch_selects_pll`] says that it selects the PLL, and only
/// after the PLL was switched on, then found locked, and not touched since.
pub proof fn lemma_switch_follows_lock(
    input: Hertz,
    limit: u32,
    a: Seq<u32>,
    b: Seq<u32>,
    c: Seq<u32>,
    outcome: Result<Clocks, ClockError>,
    i: int,
)
    requires
        bring_up(input, limit, a, b, c, outcome),
        0 <= i < transcript(a, b, c, outcome).len(),
        writes_clock_switch(transcript(a, b, c, outcome)[i]),
    ensures
        outcome is Ok,
        transcript(a, b, c, outcome)[i] == clock_switch(),
        i == a.len() + b.len() + c.len() + 5,
        exists|k: int, j: int| #[trigger] locked_since(transcript(a, b, c, outcome), k, j, i),
{
    let t = transcript(a, b, c, outcome);
    let head = seq![oscillator_on()] + polls(a) + seq![pll_off()] + polls(b) + seq![
        pll_plan(),
        pll_on(),
    ] + polls(c);
    assert(CFGR_HPRE_MASK & CFGR_SW_MASK == 0) by (bit_vector);
    assert(CFGR_MCOPRE_MASK & CFGR_SW_MASK == 0) by (bit_vector);
    assert(CFGR_MCOSEL_MASK & CFGR_SW_MASK == 0) by (bit_vector);
    lemma_switch_selects_pll();
    assert forall|m: int| 0 <= m < head.len() implies !writes_clock_switch(#[trigger] head[m])
        && (writes_clock_control(head[m]) ==> m == 0 || m == a.len() + 1 || m == a.len() + b.len()
        + 3) by {}
    match outcome {
        Ok(_) => {
            assert(t =~= head + after_lock());
            let k: int = (a.len() + b.len() + 3) as int;
            let j: int = (a.len() + b.len() + c.len() + 3) as int;
            assert(i >= head.len());
            assert(t[i] == after_lock()[i - head.len()]);
            assert(i - head.len() == 1);
            assert(t[k] == head[k]);
            assert(t[j] == head[j]);
            assert(head[j] == polls(c)[c.len() - 1]);
            assert(shows(c.last(), CR_PLLRDY, true));
            assert forall|m: int| k < m < i implies !writes_clock_control(#[trigger] t[m]) by {
                if m < head.len() {
                    assert(t[m] == head[m]);
                } else {
                    assert(t[m] == after_lock()[m - head.len()]);
                }
            }
            assert(locked_since(t, k, j, i));
        },
        Err(e) => {
            assert(t =~= head.subrange(0, t.len() as int));
            assert(t[i] == head[i]);
        },
    }
}

/// The write that switches the system clock selects the PLL, sets the
/// peripheral buses to their prescalers of the plan, and holds the AHB bus at
/// a larger prescaler than the plan's for the time of the switch.
pub proof fn lemma_switch_selects_pll()
    ensures
        spec_switch_mask() & CFGR_SW_MASK == CFGR_SW_MASK,
        spec_extract(spec_switch_bits(), CFGR_SW_SHIFT, CFGR_SW_MASK) == SW_PLL,
        spec_extract(spec_switch_bits(), CFGR_HPRE_SHIFT, CFGR_HPRE_MASK) == HPRE_SWITCH_CODE,
        spec_extract(spec_switch_bits(), CFGR_PPRE1_SHIFT, CFGR_PPRE1_MASK) == PPRE1_CODE,
        spec_extract(spec_switch_bits(), CFGR_PPRE2_SHIFT, CFGR_PPRE2_MASK) == PPRE2_CODE,
        spec_ratio(DividerField::Ahb, HPRE_SWITCH_CODE) > spec_ratio(DividerField::Ahb, HPRE_CODE),
{
    assert(spec_switch_mask() & CFGR_SW_MASK == CFGR_SW_MASK) by (bit_vector);
    assert(spec_extract(spec_switch_bits(), CFGR_SW_SHIFT, CFGR_SW_MASK) == SW_PLL)
        by (bit_vector);
    assert(spec_extract(spec_switch_bits(), CFGR_HPRE_SHIFT, CFGR_HPRE_MASK) == HPRE_SWITCH_CODE)
        by (bit_vector);
    assert(spec_extract(spec_switch_bits(), CFGR_PPRE1_SHIFT, CFGR_PPRE1_MASK) == PPRE1_CODE)
        by (bit_vector);
    assert(spec_extract(spec_switch_bits(), CFGR_PPRE2_SHIFT, CFGR_PPRE2_MASK) == PPRE2_CODE)
        by (bit_vector);
}

/// The one write that programs the PLL selects the external oscillator and
/// holds every divider code of the plan.
pub proof fn lemma_pll_plan_holds_codes()
    ensures
        spec_extract(spec_pll_plan_bits(), PLLCFGR_PLLSRC_SHIFT, PLLCFGR_PLLSRC_MASK)
            == PLLSRC_HSE,
        spec_extract(spec_pll_plan_bits(), PLLCFGR_PLLM_SHIFT, PLLCFGR_PLLM_MASK) == PLLM_CODE,
        spec_extract(spec_pll_plan_bits(), PLLCFGR_PLLN_SHIFT, PLLCFGR_PLLN_MASK) == PLLN_CODE,
        spec_extract(spec_pll_plan_bits(), PLLCFGR_PLLPDIV_SHIFT, PLLCFGR_PLLPDIV_MASK)
            == PLLP_CODE,
        spec_extract(spec_pll_plan_bits(), PLLCFGR_PLLQ_SHIFT, PLLCFGR_PLLQ_MASK) == PLLQ_CODE,
        spec_extract(spec_pll_plan_bits(), PLLCFGR_PLLR_SHIFT, PLLCFGR_PLLR_MASK) == PLLR_CODE,
        spec_pll_plan_bits() & !spec_pll_plan_mask() == 0,
{
    assert(spec_extract(spec_pll_plan_bits(), PLLCFGR_PLLSRC_SHIFT, PLLCFGR_PLLSRC_MASK)
        == PLLSRC_HSE) by (bit_vector);
    assert(spec_extract(spec_pll_plan_bits(), PLLCFGR_PLLM_SHIFT, PLLCFGR_PLLM_MASK) == PLLM_CODE)
        by (bit_vector);
    assert(spec_extract(spec_pll_plan_bits(), PLLCFGR_PLLN_SHIFT, PLLCFGR_PLLN_MASK) == PLLN_CODE)
        by (bit_vector);
    assert(spec_extract(spec_pll_plan_bits(), PLLCFGR_PLLPDIV_SHIFT, PLLCFGR_PLLPDIV_MASK)
        == PLLP_CODE) by (bit_vector);
    assert(spec_extract(spec_pll_plan_bits(), PLLCFGR_PLLQ_SHIFT, PLLCFGR_PLLQ_MASK) == PLLQ_CODE)
        by (bit_vector);
    assert(spec_extract(spec_pll_plan_bits(), PLLCFGR_PLLR_SHIFT, PLLCFGR_PLLR_MASK) == PLLR_CODE)
        by (bit_vector);
    assert(spec_pll_plan_bits() & !spec_pll_plan_mask() == 0) by (bit_vector);
}

/// The ratio that a divider field stands for in a word that holds it; zero
/// where the field holds a code that is not listed.
pub open spec fn programmed_ratio(kind: DividerField, word: u32, shift: u32, mask: u32) -> u32 {
    spec_ratio(kind, spec_extract(word, shift, mask) as u8)
}

/// The clocks that a bring-up reports are those that follow from the words
/// it writes: the PLL outputs from the dividers in the write that programs
/// the PLL, the core clock from the AHB prescaler that is put back after the
/// switch, the peripheral bus clocks from the prescalers in the write that
/// switches.
pub proof fn lemma_clocks_follow_programmed_dividers(input: Hertz)
    ensures
        (spec_plan_clocks(input) matches Some(clocks) ==> {
            let pll = spec_pll_plan_bits();
            let m = programmed_ratio(DividerField::PllM, pll, PLLCFGR_PLLM_SHIFT, PLLCFGR_PLLM_MASK);
            let n = programmed_ratio(DividerField::PllN, pll, PLLCFGR_PLLN_SHIFT, PLLCFGR_PLLN_MASK);
            let p = programmed_ratio(
                DividerField::PllP,
                pll,
                PLLCFGR_PLLPDIV_SHIFT,
                PLLCFGR_PLLPDIV_MASK,
            );
            let q = programmed_ratio(DividerField::PllQ, pll, PLLCFGR_PLLQ_SHIFT, PLLCFGR_PLLQ_MASK);
            let r = programmed_ratio(DividerField::PllR, pll, PLLCFGR_PLLR_SHIFT, PLLCFGR_PLLR_MASK);
            let ahb = programmed_ratio(
                DividerField::Ahb,
                spec_place(HPRE_CODE, CFGR_HPRE_SHIFT, CFGR_HPRE_MASK),
                CFGR_HPRE_SHIFT,
                CFGR_HPRE_MASK,
            );
            let apb1 = programmed_ratio(
                DividerField::Apb,
                spec_switch_bits(),
                CFGR_PPRE1_SHIFT,
                CFGR_PPRE1_MASK,
            );
            let apb2 = programmed_ratio(
                DividerField::Apb,
                spec_switch_bits(),
                CFGR_PPRE2_SHIFT,
                CFGR_PPRE2_MASK,
            );
            &&& Some(clocks.sysclk) == spec_pll_output(input, m, n, r)
            &&& clocks.pll_clk.r == clocks.sysclk
            &&& clocks.pll_clk.q == spec_pll_output(input, m, n, q)
            &&& clocks.pll_clk.p == spec_pll_output(input, m, n, p)
            &&& Some(clocks.hclk) == clocks.sysclk.spec_divided_by(ahb)
            &&& Some(clocks.pclk1) == clocks.hclk.spec_divided_by(apb1)
            &&& Some(clocks.pclk2) == clocks.hclk.spec_divided_by(apb2)
        }),
{
    lemma_pll_plan_holds_codes();
    lemma_switch_selects_pll();
    assert(spec_extract(
        spec_place(HPRE_CODE, CFGR_HPRE_SHIFT, CFGR_HPRE_MASK),
        CFGR_HPRE_SHIFT,
        CFGR_HPRE_MASK,
    ) == HPRE_CODE) by (bit_vector);
}

/// Makes the accesses that follow the lock of the PLL.
fn switch_to_pll<B: RegisterBank>(regs: &mut Traced<B>)
    ensures
        final(regs).trace() == old(regs).trace() + after_lock(),
        final(regs).spec_bank().setup() == old(regs).spec_bank().setup(),
        final(regs).spec_bank().history() == old(regs).spec_bank().history() + after_lock(),
{
    let ghost start: Seq<Access> = regs.trace();
    let ghost before: Seq<Access> = regs.spec_bank().history();
    regs.modify(Register::Pllcfgr, pll_outputs(), pll_outputs());
    regs.modify(Register::Cfgr, switch_mask(), switch_bits());
    regs.delay(SWITCH_DELAY);
    regs.modify(
        Register::Cfgr,
        CFGR_HPRE_MASK,
        place(HPRE_CODE, CFGR_HPRE_SHIFT, CFGR_HPRE_MASK),
    );
    regs.modify(
        Register::Cfgr,
        CFGR_MCOPRE_MASK,
        place(MCOPRE_CODE, CFGR_MCOPRE_SHIFT, CFGR_MCOPRE_MASK),
    );
    regs.modify(
        Register::Cfgr,
        CFGR_MCOSEL_MASK,
        place(MCOSEL_SYSCLK, CFGR_MCOSEL_SHIFT, CFGR_MCOSEL_MASK),
    );
    regs.modify(Register::Apb1enr1, APB1ENR1_FDCANEN, APB1ENR1_FDCANEN);
    regs.modify(
        Register::Ccipr,
        CCIPR_FDCANSEL_MASK,
        place(FDCANSEL_PCLK1, CCIPR_FDCANSEL_SHIFT, CCIPR_FDCANSEL_MASK),
    );
    regs.modify(Register::Ahb2enr, AHB2ENR_GPIOAEN, AHB2ENR_GPIOAEN);
    regs.modify(Register::Ahb2enr, AHB2ENR_GPIOBEN, AHB2ENR_GPIOBEN);
    regs.modify(Register::Ahb2enr, AHB2ENR_GPIOCEN, AHB2ENR_GPIOCEN);
    regs.modify(
        Register::Ccipr,
        CCIPR_CLK48SEL_MASK,
        place(CLK48SEL_PLLQ, CCIPR_CLK48SEL_SHIFT, CCIPR_CLK48SEL_MASK),
    );
    regs.modify(Register::Apb1enr1, APB1ENR1_USBEN, APB1ENR1_USBEN);
    assert(regs.trace() =~= start + after_lock());
    assert(regs.spec_bank().history() =~= before + after_lock());
}

/// The mask of the one write that programs the PLL.
fn pll_plan_mask() -> (m: u32)
    ensures
        m == spec_pll_plan_mask(),
{
    PLLCFGR_PLLSRC_MASK | PLLCFGR_PLLM_MASK | PLLCFGR_PLLN_MASK | PLLCFGR_PLLPDIV_MASK
        | PLLCFGR_PLLQ_MASK | PLLCFGR_PLLR_MASK
}

/// The bits of the one write that programs the PLL.
fn pll_plan_bits() -> (b: u32)
    ensures
        b == spec_pll_plan_bits(),
{
    place(PLLSRC_HSE, PLLCFGR_PLLSRC_SHIFT, PLLCFGR_PLLSRC_MASK) | place(
        PLLM_CODE,
        PLLCFGR_PLLM_SHIFT,
        PLLCFGR_PLLM_MASK,
    ) | place(PLLN_CODE, PLLCFGR_PLLN_SHIFT, PLLCFGR_PLLN_MASK) | place(
        PLLP_CODE,
        PLLCFGR_PLLPDIV_SHIFT,
        PLLCFGR_PLLPDIV_MASK,
    ) | place(PLLQ_CODE, PLLCFGR_PLLQ_SHIFT, PLLCFGR_PLLQ_MASK) | place(
        PLLR_CODE,
        PLLCFGR_PLLR_SHIFT,
        PLLCFGR_PLLR_MASK,
    )
}

/// The three output enables of the PLL.
fn pll_outputs() -> (m: u32)
    ensures
        m == spec_pll_outputs(),
{
    PLLCFGR_PLLPEN | PLLCFGR_PLLQEN | PLLCFGR_PLLREN
}

/// The mask of the write that switches the system clock.
fn switch_mask() -> (m: u32)
    ensures
        m == spec_switch_mask(),
{
    CFGR_PPRE2_MASK | CFGR_PPRE1_MASK | CFGR_HPRE_MASK | CFGR_SW_MASK
}

/// The bits of the write that switches the system clock.
fn switch_bits() -> (b: u32)
    ensures
        b == spec_switch_bits(),
{
    place(PPRE2_CODE, CFGR_PPRE2_SHIFT, CFGR_PPRE2_MASK) | place(
        PPRE1_CODE,
        CFGR_PPRE1_SHIFT,
        CFGR_PPRE1_MASK,
    ) | place(HPRE_SWITCH_CODE, CFGR_HPRE_SHIFT, CFGR_HPRE_MASK) | place(
        SW_PLL,
        CFGR_SW_SHIFT,
        CFGR_SW_MASK,
    )
}

} // verus!
