//! Flash wait states.

use vstd::prelude::*;
use crate::flash::ACR;
use crate::rcc::Rcc;
use crate::registers::{
    place, spec_place, Access, Register, RegisterBank, Traced, FLASH_ACR_LATENCY_MASK,
    FLASH_ACR_LATENCY_SHIFT,
};

verus! {

/// What [`set_wait_states`] does to the hardware: one read-modify-write, which
/// sets the wait-state field of the flash access control register to the low
/// four bits of `wait_states`.
pub open spec fn wait_state_writes(wait_states: u8) -> Seq<Access> {
    seq![
        Access::Modify {
            reg: Register::FlashAcr,
            mask: FLASH_ACR_LATENCY_MASK,
            bits: spec_place(wait_states, FLASH_ACR_LATENCY_SHIFT, FLASH_ACR_LATENCY_MASK),
        },
    ]
}

/// Sets the number of wait states of flash reads.
///
/// The number has to suit the core frequency, and has to be in place before
/// the frequency is raised: call this before [`crate::rcc::CFGR::freeze`].
/// The clock control is borrowed for the time of the call and left as it is:
/// no register of it is touched.
pub fn set_wait_states<B: RegisterBank>(
    wait_states: u8,
    acr: &mut ACR,
    rcc: &mut Rcc,
    regs: &mut Traced<B>,
)
    ensures
        final(regs).trace() == old(regs).trace() + wait_state_writes(wait_states),
        final(regs).spec_bank().setup() == old(regs).spec_bank().setup(),
        final(regs).spec_bank().history() == old(regs).spec_bank().history() + wait_state_writes(
            wait_states,
        ),
        *final(acr) == *old(acr),
        *final(rcc) == *old(rcc),
{
    let ghost start: Seq<Access> = regs.trace();
    let ghost before: Seq<Access> = regs.spec_bank().history();
    let control = acr.acr();
    regs.modify(
        control,
        FLASH_ACR_LATENCY_MASK,
        place(wait_states, FLASH_ACR_LATENCY_SHIFT, FLASH_ACR_LATENCY_MASK),
    );
    assert(regs.trace() =~= start + wait_state_writes(wait_states));
    assert(regs.spec_bank().history() =~= before + wait_state_writes(wait_states));
}

} // verus!
