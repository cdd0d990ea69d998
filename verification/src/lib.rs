//! Register logic of the IBM MDA and VGA video adapters: the MDA card's
//! video-card interface (clocking, cursor, palette, text dump, debug state)
//! and the VGA sequencer registers.
pub mod devices;
pub mod strfmt;
pub mod videocard;
