//! Edits symbol tables of ELF and Mach-O objects in place: renaming symbols
//! and forcing their link-time visibility to hidden or default, by emitting a
//! list of length-preserving byte patches against the original buffer.

pub mod config;
pub mod error;
pub mod pattern;
pub mod policy;
pub mod record;
pub mod rename;
pub mod transform;
