//! Pin configuration, digital I/O and external-interrupt routing for the general
//! purpose I/O ports of a family of microcontrollers.
//!
//! Hardware registers are modelled as plain words: every operation is a verified
//! function from register contents to register contents, and the code that moves
//! words to and from memory-mapped I/O only has to copy what these functions compute.

pub mod field;
pub mod types;
pub mod registers;
pub mod clocks;
pub mod gpio;
pub mod exti;

pub use field::{field_mask, get_field, put_field, write_field, read_field};
pub use types::{CfgLock, Edge, OutputSpeed, OutputType, PinMode, PinState, Port, Pull, ResetState};
pub use registers::{field_loc, locate, set_reset, Field, FieldLoc, GpioReg, RegisterBlock};
pub use clocks::{port_bit, PortClocks};
pub use gpio::{bsrr_bits, bsrr_word, is_high, is_low, level, mode_applied, regs, set_high, set_low, Gpio, Pin};
pub use exti::{locate_route, route_loc, with_line, Exti, LineMux, MuxLayout, RouteLoc};
