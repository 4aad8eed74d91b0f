//! Clock-tree bring-up for STM32G4 microcontrollers.
//!
//! The crate takes the device from its reset clock to a system clock that is
//! derived from the external oscillator through the main PLL.  Every register
//! access goes through a [`registers::RegisterBank`], so the same sequence runs
//! against the memory-mapped hardware and against the register model in
//! [`sim`].

pub mod clock_setup;
pub mod dividers;
pub mod flash;
pub mod rcc;
pub mod registers;
pub mod sim;
pub mod stm32;
pub mod time;
pub mod usb;
