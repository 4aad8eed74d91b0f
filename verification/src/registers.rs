//! The registers that the clock bring-up touches, and the interface through
//! which it touches them.

use vstd::prelude::*;

verus! {

/// A memory-mapped register of the reset-and-clock-control block, or of the
/// flash interface.
#[derive(Clone, Copy, Debug, PartialEq, Eq, Structural)]
pub enum Register {
    /// Clock control: oscillator and PLL enables with their status bits.
    Cr,
    /// Clock configuration: clock switch, bus prescalers, clock output.
    Cfgr,
    /// PLL configuration: source, dividers, output enables.
    Pllcfgr,
    /// AHB1 peripheral reset.
    Ahb1rstr,
    /// AHB2 peripheral reset.
    Ahb2rstr,
    /// AHB3 peripheral reset.
    Ahb3rstr,
    /// APB1 peripheral reset, first word.
    Apb1rstr1,
    /// AHB1 peripheral clock enable.
    Ahb1enr,
    /// AHB2 peripheral clock enable.
    Ahb2enr,
    /// AHB3 peripheral clock enable.
    Ahb3enr,
    /// APB1 peripheral clock enable, first word.
    Apb1enr1,
    /// Peripheral independent clock configuration.
    Ccipr,
    /// Flash access control.
    FlashAcr,
}

impl Register {
    /// The address of the register on the bus.
    pub open spec fn spec_address(self) -> u32 {
        match self {
            Register::Cr => 0x4002_1000,
            Register::Cfgr => 0x4002_1008,
            Register::Pllcfgr => 0x4002_100C,
            Register::Ahb1rstr => 0x4002_1028,
            Register::Ahb2rstr => 0x4002_102C,
            Register::Ahb3rstr => 0x4002_1030,
            Register::Apb1rstr1 => 0x4002_1038,
            Register::Ahb1enr => 0x4002_1048,
            Register::Ahb2enr => 0x4002_104C,
            Register::Ahb3enr => 0x4002_1050,
            Register::Apb1enr1 => 0x4002_1058,
            Register::Ccipr => 0x4002_1088,
            Register::FlashAcr => 0x4002_2000,
        }
    }

    /// The address of the register on the bus.
    pub fn address(self) -> (a: u32)
        ensures
            a == self.spec_address(),
    {
        match self {
            Register::Cr => 0x4002_1000,
            Register::Cfgr => 0x4002_1008,
            Register::Pllcfgr => 0x4002_100C,
            Register::Ahb1rstr => 0x4002_1028,
            Register::Ahb2rstr => 0x4002_102C,
            Register::Ahb3rstr => 0x4002_1030,
            Register::Apb1rstr1 => 0x4002_1038,
            Register::Ahb1enr => 0x4002_1048,
            Register::Ahb2enr => 0x4002_104C,
            Register::Ahb3enr => 0x4002_1050,
            Register::Apb1enr1 => 0x4002_1058,
            Register::Ccipr => 0x4002_1088,
            Register::FlashAcr => 0x4002_2000,
        }
    }
}

/// Two registers never share an address.
pub proof fn lemma_addresses_distinct(a: Register, b: Register)
    ensures
        a.spec_address() == b.spec_address() <==> a == b,
{
}

/// One access to the hardware, as the bring-up makes it.
#[derive(Clone, Copy, Debug, PartialEq, Eq, Structural)]
pub enum Access {
    /// The register was read and held `value`.
    Read { reg: Register, value: u32 },
    /// A read-modify-write: the bits under `mask` were replaced by those of
    /// `bits`, the others kept.
    Modify { reg: Register, mask: u32, bits: u32 },
    /// The core idled for `iterations` rounds of an empty loop.
    Delay { iterations: u32 },
}

/// What a register holds after a read-modify-write that found `before` in it.
pub open spec fn spec_merge(before: u32, mask: u32, bits: u32) -> u32 {
    (before & !mask) | (bits & mask)
}

/// What a register holds after a read-modify-write that found `before` in it.
pub fn merge(before: u32, mask: u32, bits: u32) -> (after: u32)
    ensures
        after == spec_merge(before, mask, bits),
{
    (before & !mask) | (bits & mask)
}

/// A read-modify-write changes nothing outside its mask, and puts the given
/// bits under it.
pub proof fn lemma_merge(before: u32, mask: u32, bits: u32)
    ensures
        spec_merge(before, mask, bits) & !mask == before & !mask,
        spec_merge(before, mask, bits) & mask == bits & mask,
{
    assert(((before & !mask) | (bits & mask)) & !mask == before & !mask) by (bit_vector);
    assert(((before & !mask) | (bits & mask)) & mask == bits & mask) by (bit_vector);
}

/// Oscillator and PLL bits of the clock control register.
pub const CR_HSEON: u32 = 0x0001_0000;

pub const CR_HSERDY: u32 = 0x0002_0000;

pub const CR_PLLON: u32 = 0x0100_0000;

pub const CR_PLLRDY: u32 = 0x0200_0000;

/// Fields of the PLL configuration register: for each its mask, and for the
/// ones wider than a bit the position of its lowest bit.
pub const PLLCFGR_PLLSRC_MASK: u32 = 0x0000_0003;

pub const PLLCFGR_PLLSRC_SHIFT: u32 = 0;

pub const PLLCFGR_PLLM_MASK: u32 = 0x0000_00F0;

pub const PLLCFGR_PLLM_SHIFT: u32 = 4;

pub const PLLCFGR_PLLN_MASK: u32 = 0x0000_7F00;

pub const PLLCFGR_PLLN_SHIFT: u32 = 8;

pub const PLLCFGR_PLLPEN: u32 = 0x0001_0000;

pub const PLLCFGR_PLLQEN: u32 = 0x0010_0000;

pub const PLLCFGR_PLLQ_MASK: u32 = 0x0060_0000;

pub const PLLCFGR_PLLQ_SHIFT: u32 = 21;

pub const PLLCFGR_PLLREN: u32 = 0x0100_0000;

pub const PLLCFGR_PLLR_MASK: u32 = 0x0600_0000;

pub const PLLCFGR_PLLR_SHIFT: u32 = 25;

pub const PLLCFGR_PLLPDIV_MASK: u32 = 0xF800_0000;

pub const PLLCFGR_PLLPDIV_SHIFT: u32 = 27;

/// Fields of the clock configuration register.
pub const CFGR_SW_MASK: u32 = 0x0000_0003;

pub const CFGR_SW_SHIFT: u32 = 0;

pub const CFGR_HPRE_MASK: u32 = 0x0000_00F0;

pub const CFGR_HPRE_SHIFT: u32 = 4;

pub const CFGR_PPRE1_MASK: u32 = 0x0000_0700;

pub const CFGR_PPRE1_SHIFT: u32 = 8;

pub const CFGR_PPRE2_MASK: u32 = 0x0000_3800;

pub const CFGR_PPRE2_SHIFT: u32 = 11;

pub const CFGR_MCOSEL_MASK: u32 = 0x0F00_0000;

pub const CFGR_MCOSEL_SHIFT: u32 = 24;

pub const CFGR_MCOPRE_MASK: u32 = 0x7000_0000;

pub const CFGR_MCOPRE_SHIFT: u32 = 28;

/// Bits of the bus enable and reset registers.
pub const AHB2ENR_GPIOAEN: u32 = 0x0000_0001;

pub const AHB2ENR_GPIOBEN: u32 = 0x0000_0002;

pub const AHB2ENR_GPIOCEN: u32 = 0x0000_0004;

pub const APB1ENR1_USBEN: u32 = 0x0080_0000;

pub const APB1ENR1_FDCANEN: u32 = 0x0200_0000;

pub const APB1RSTR1_USBRST: u32 = 0x0080_0000;

/// Fields of the peripheral independent clock configuration register.
pub const CCIPR_FDCANSEL_MASK: u32 = 0x0300_0000;

pub const CCIPR_FDCANSEL_SHIFT: u32 = 24;

pub const CCIPR_CLK48SEL_MASK: u32 = 0x0C00_0000;

pub const CCIPR_CLK48SEL_SHIFT: u32 = 26;

/// The wait-state field of the flash access control register.
pub const FLASH_ACR_LATENCY_MASK: u32 = 0x0000_000F;

pub const FLASH_ACR_LATENCY_SHIFT: u32 = 0;

/// The word that holds `code` in the field that `mask` selects and that
/// begins at bit `shift`, and zeros elsewhere.  Bits of `code` that the field
/// has no room for are dropped.
pub open spec fn spec_place(code: u8, shift: u32, mask: u32) -> u32 {
    ((code as u32) << shift) & mask
}

/// See [`spec_place`].
pub fn place(code: u8, shift: u32, mask: u32) -> (word: u32)
    requires
        shift < 32,
    ensures
        word == spec_place(code, shift, mask),
{
    ((code as u32) << shift) & mask
}

/// What the field that `mask` selects, and that begins at bit `shift`, holds
/// in `word`.
pub open spec fn spec_extract(word: u32, shift: u32, mask: u32) -> u32 {
    (word & mask) >> shift
}

/// See [`spec_extract`].
pub fn extract(word: u32, shift: u32, mask: u32) -> (code: u32)
    requires
        shift < 32,
    ensures
        code == spec_extract(word, shift, mask),
{
    (word & mask) >> shift
}

/// A code that the field has room for is read back as it was placed, also
/// after a read-modify-write that placed it over anything.
pub proof fn lemma_place_extract(code: u8, shift: u32, mask: u32, before: u32)
    requires
        shift < 32,
        (mask >> shift) & (code as u32) == code as u32,
    ensures
        spec_extract(spec_place(code, shift, mask), shift, mask) == code,
        spec_extract(spec_merge(before, mask, spec_place(code, shift, mask)), shift, mask) == code,
{
    let c: u32 = code as u32;
    assert((((c << shift) & mask) & mask) >> shift == c) by (bit_vector)
        requires
            shift < 32,
            (mask >> shift) & c == c,
    ;
    assert((((before & !mask) | (((c << shift) & mask) & mask)) & mask) >> shift == c)
        by (bit_vector)
        requires
            shift < 32,
            (mask >> shift) & c == c,
    ;
}

/// A record of accesses, oldest first.
pub type History = Seq<Access>;

/// The way to the registers.
///
/// On the device an implementation reads and writes the addresses that
/// [`Register::address`] gives; on a host, [`crate::sim::SimulatedRcc`] stands
/// in for the silicon.  Nothing is promised of what a read returns: status
/// bits change on their own, and the bring-up is verified for every answer.
/// What is promised is that nothing happens behind the history: every call
/// is one more access in it, and no call changes what the bank was made with.
pub trait RegisterBank {
    /// What a bank is made with and keeps for good.
    type Setup;

    /// What this bank was made with.
    spec fn setup(&self) -> Self::Setup;

    /// The accesses made to the bank so far, oldest first.
    spec fn history(&self) -> History;

    /// Reads the register.
    fn read(&mut self, reg: Register) -> (value: u32)
        ensures
            final(self).setup() == old(self).setup(),
            final(self).history() == old(self).history().push(Access::Read { reg, value }),
    ;

    /// Replaces the bits of the register that `mask` selects by those of
    /// `bits`, in one read-modify-write, as [`merge`] computes it.
    fn modify(&mut self, reg: Register, mask: u32, bits: u32)
        ensures
            final(self).setup() == old(self).setup(),
            final(self).history() == old(self).history().push(Access::Modify { reg, mask, bits }),
    ;

    /// Idles for `iterations` rounds of an empty loop.
    fn delay(&mut self, iterations: u32)
        ensures
            final(self).setup() == old(self).setup(),
            final(self).history() == old(self).history().push(Access::Delay { iterations }),
    ;
}

/// A register bank together with the record of what was done through it.
///
/// The record is ghost: it costs nothing on the device.  It holds the
/// accesses that went through this value, and each of them is also the next
/// entry of the bank's own history.
pub struct Traced<B: RegisterBank> {
    bank: B,
    log: Ghost<Seq<Access>>,
}

impl<B: RegisterBank> Traced<B> {
    /// The accesses made through this value so far, oldest first.
    pub closed spec fn trace(&self) -> Seq<Access> {
        self.log@
    }

    /// The bank behind the record.
    pub closed spec fn spec_bank(&self) -> B {
        self.bank
    }

    /// Starts an empty record over `bank`.
    pub fn new(bank: B) -> (t: Self)
        ensures
            t.trace() == Seq::<Access>::empty(),
            t.spec_bank() == bank,
    {
        Traced { bank, log: Ghost(Seq::empty()) }
    }

    /// The bank behind the record.
    pub fn bank(&self) -> (b: &B)
        ensures
            *b == self.spec_bank(),
    {
        &self.bank
    }

    /// Gives the bank back.
    pub fn into_bank(self) -> (b: B)
        ensures
            b == self.spec_bank(),
    {
        self.bank
    }

    /// Reads the register, and records the read with the value it gave.
    pub fn read(&mut self, reg: Register) -> (value: u32)
        ensures
            final(self).trace() == old(self).trace().push(Access::Read { reg, value }),
            final(self).spec_bank().setup() == old(self).spec_bank().setup(),
            final(self).spec_bank().history() == old(self).spec_bank().history().push(
                Access::Read { reg, value },
            ),
    {
        let value: u32 = self.bank.read(reg);
        proof {
            self.log@ = self.log@.push(Access::Read { reg, value });
        }
        value
    }

    /// Performs the read-modify-write, and records it.
    pub fn modify(&mut self, reg: Register, mask: u32, bits: u32)
        ensures
            final(self).trace() == old(self).trace().push(Access::Modify { reg, mask, bits }),
            final(self).spec_bank().setup() == old(self).spec_bank().setup(),
            final(self).spec_bank().history() == old(self).spec_bank().history().push(
                Access::Modify { reg, mask, bits },
            ),
    {
        self.bank.modify(reg, mask, bits);
        proof {
            self.log@ = self.log@.push(Access::Modify { reg, mask, bits });
        }
    }

    /// Idles, and records that.
    pub fn delay(&mut self, iterations: u32)
        ensures
            final(self).trace() == old(self).trace().push(Access::Delay { iterations }),
            final(self).spec_bank().setup() == old(self).spec_bank().setup(),
            final(self).spec_bank().history() == old(self).spec_bank().history().push(
                Access::Delay { iterations },
            ),
    {
        self.bank.delay(iterations);
        proof {
            self.log@ = self.log@.push(Access::Delay { iterations });
        }
    }
}

} // verus!
