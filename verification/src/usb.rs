//! USB Peripheral

use vstd::prelude::*;
use crate::registers::{
    Access, Register, RegisterBank, Traced, APB1ENR1_USBEN, APB1RSTR1_USBRST,
};
use crate::stm32::USB;

verus! {

/// Address of the USB register block.
pub const REGISTERS: u32 = 0x4000_5C00;

/// The USB_DP line has a pull-up resistor built in.
pub const DP_PULL_UP_FEATURE: bool = true;

/// Address of the endpoint memory.
pub const EP_MEMORY: u32 = 0x4000_6000;

/// Size of the endpoint memory, in bytes.
pub const EP_MEMORY_SIZE: usize = 1024;

/// Core cycles to idle after the peripheral leaves power-down: a microsecond
/// at the highest system clock.
pub const STARTUP_DELAY_CYCLES: u32 = 170;

/// USB Peripheral
///
/// Constructs the peripheral, which
/// then gets passed to the bus driver.
pub struct Peripheral {
    /// USB Register Block
    pub usb: USB,
}

/// What [`Peripheral::enable`] does to the hardware: the bus clock of the
/// peripheral is enabled, then its reset is asserted and released.
pub open spec fn enable_writes() -> Seq<Access> {
    seq![
        Access::Modify { reg: Register::Apb1enr1, mask: APB1ENR1_USBEN, bits: APB1ENR1_USBEN },
        Access::Modify {
            reg: Register::Apb1rstr1,
            mask: APB1RSTR1_USBRST,
            bits: APB1RSTR1_USBRST,
        },
        Access::Modify { reg: Register::Apb1rstr1, mask: APB1RSTR1_USBRST, bits: 0 },
    ]
}

impl Peripheral {
    /// Enables the peripheral on its bus and resets it.
    ///
    /// To be run with interrupts masked.
    pub fn enable<B: RegisterBank>(regs: &mut Traced<B>)
        ensures
            final(regs).trace() == old(regs).trace() + enable_writes(),
            final(regs).spec_bank().setup() == old(regs).spec_bank().setup(),
            final(regs).spec_bank().history() == old(regs).spec_bank().history() + enable_writes(),
    {
        let ghost start: Seq<Access> = regs.trace();
        let ghost before: Seq<Access> = regs.spec_bank().history();
        regs.modify(Register::Apb1enr1, APB1ENR1_USBEN, APB1ENR1_USBEN);
        regs.modify(Register::Apb1rstr1, APB1RSTR1_USBRST, APB1RSTR1_USBRST);
        regs.modify(Register::Apb1rstr1, APB1RSTR1_USBRST, 0);
        assert(regs.trace() =~= start + enable_writes());
        assert(regs.spec_bank().history() =~= before + enable_writes());
    }

    /// The core cycles to idle for at start-up.
    pub fn startup_delay() -> (cycles: u32)
        ensures
            cycles == STARTUP_DELAY_CYCLES,
    {
        STARTUP_DELAY_CYCLES
    }
}

} // verus!
