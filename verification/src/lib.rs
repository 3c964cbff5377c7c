//! Safe, verified view of the load-command table of a parsed Mach-O image.
//!
//! A native parsing engine owns the object graph of a parsed image; this
//! crate re-exposes the already-computed records safely. Every wrapped
//! command is anchored to the [`binary::Binary`] that owns it, classified
//! into a closed set of variants by its raw discriminator, and read through
//! the shared [`commands::Command`] capability.

pub mod binary;
pub mod commands;

pub use binary::Binary;
pub use commands::{Command, CommandKind, CommandRecord, Commands};
