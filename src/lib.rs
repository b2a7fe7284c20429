//! Push-button to LED mirroring on an STM32F3-class microcontroller.
//!
//! The peripheral registers are modelled as plain values: every operation
//! here is a verified function from register contents to register contents.
//! Moving those values to and from the memory-mapped hardware is left to
//! the firmware around the library.

pub mod gpio;
pub mod exti;
pub mod control;
