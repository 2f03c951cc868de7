//! Panic reporting for bare-metal ARM Cortex-M firmware.
//!
//! When firmware hits an unrecoverable error, the reporter masks interrupts,
//! tries to print one line describing the panic on the host's debug console,
//! traps into the debugger and then spins forever.  This crate holds the part
//! of that routine that can be reasoned about without the hardware: the text
//! of the line, and the order in which the device operations are asked for.
//! The operations themselves are carried out by the caller, which tells the
//! [`reporter::Reporter`] how each one ended.

pub mod decimal;
pub mod payload;
pub mod report;
pub mod reporter;

pub use crate::payload::PanicPayload;
pub use crate::report::{format_location, format_report};
pub use crate::reporter::{Action, Outcome, Phase, Reporter};
