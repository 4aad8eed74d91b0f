//! Flash memory

use vstd::prelude::*;
use crate::registers::Register;
use crate::stm32::FLASH;

verus! {

/// Splits the flash interface into its parts.
pub trait FlashExt {
    /// Gives up the peripheral for the tokens of its registers.
    fn constrain(self) -> Parts;
}

impl FlashExt for FLASH {
    fn constrain(self) -> Parts {
        Parts { acr: ACR { _0: () } }
    }
}

/// The parts of the flash interface.
pub struct Parts {
    /// The access control register.
    pub acr: ACR,
}

/// The token of the flash access control register.
pub struct ACR {
    _0: (),
}

impl ACR {
    /// The register that the token stands for.
    pub fn acr(&mut self) -> (reg: Register)
        ensures
            reg == Register::FlashAcr,
            *final(self) == *old(self),
    {
        Register::FlashAcr
    }
}

} // verus!
