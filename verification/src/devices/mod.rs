//! The emulated video adapters.
pub mod mda;
pub mod vga;
