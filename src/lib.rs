//! Command protocol layer for the ST7701S display driver: typed register
//! commands, bit-field encoding of their parameter bytes, the Command2 bank
//! guard, the two-phase half-duplex wire format, and the power-up sequences
//! built from them.

pub mod bank;
pub mod command;
pub mod fields;
pub mod instructions;
pub mod panel;
pub mod sequence_linux_kernel;
pub mod sequence_tdo;
pub mod step;

pub use bank::{confirm_switch, validate, Command2Selection, GuardError};
pub use command::Command;
pub use instructions::{BK0Command2, BK1Command2, CommandsGeneral, RegisterDescriptor};
pub use panel::Mode;
pub use step::Step;
