//! Linker and disassembler for a modular stack-machine bytecode format.
//!
//! A compiled script references external modules only through symbolic
//! handles (an address identifier plus a name identifier).  This crate
//! resolves those handles against a caller-supplied set of compiled
//! modules, exposes the linked program for queries, walks the script's
//! call graph to produce a structured disassembly report, and lowers a
//! restricted subset of the bytecode into a small target stack-machine
//! instruction set.
//!
//! Decoding raw bytes into the structured object model, file access and
//! rendering are left to the surrounding application; this crate works
//! on plain, already-decoded values.

pub mod disasm;
pub mod errors;
pub mod helpers;
pub mod model;
pub mod move_d;
pub mod resolver;
pub mod transpile;

pub use errors::MoveError;
pub use move_d::MoveCode;
