//! The IBM Video Graphics Array: its sequencer register file.
pub mod vga_sequencer_regs;

use vstd::prelude::*;

use self::vga_sequencer_regs::{
    SCharacterMapSelect, SClockingModeRegister, SMemoryMode, SequencerRegister,
};

verus! {

/// The state of a VGA card that its sequencer registers hold.
pub struct VGACard {
    /// The last byte written to the Sequencer Address register, masked to five bits.
    pub sequencer_address_byte: u8,
    /// The register that a Sequencer Data access reaches.
    pub sequencer_register_selected: SequencerRegister,
    /// Reset register (index 00h): two bits.
    pub sequencer_reset: u8,
    /// Clocking Mode register (index 01h).
    pub sequencer_clocking_mode: SClockingModeRegister,
    /// Map Mask register (index 02h): four bits, one per plane.
    pub sequencer_map_mask: u8,
    /// Character Map Select register (index 03h).
    pub sequencer_character_map_select: SCharacterMapSelect,
    /// Number (0-7) of font A, from the Character Map Select register.
    pub sequencer_character_map_a: u8,
    /// Number (0-7) of font B, from the Character Map Select register.
    pub sequencer_character_map_b: u8,
    /// Memory Mode register (index 04h).
    pub sequencer_memory_mode: SMemoryMode,
}

impl VGACard {
    /// A card whose sequencer registers are all zero, with the Reset register selected.
    pub fn new() -> (card: Self)
        ensures
            card.sequencer_address_byte == 0,
            card.sequencer_register_selected == SequencerRegister::Reset,
            card.sequencer_reset == 0,
            card.sequencer_clocking_mode@ == 0,
            card.sequencer_map_mask == 0,
            card.sequencer_character_map_select@ == 0,
            card.sequencer_character_map_a == 0,
            card.sequencer_character_map_b == 0,
            card.sequencer_memory_mode@ == 0,
    {
        VGACard {
            sequencer_address_byte: 0,
            sequencer_register_selected: SequencerRegister::Reset,
            sequencer_reset: 0,
            sequencer_clocking_mode: SClockingModeRegister::new(),
            sequencer_map_mask: 0,
            sequencer_character_map_select: SCharacterMapSelect::new(),
            sequencer_character_map_a: 0,
            sequencer_character_map_b: 0,
            sequencer_memory_mode: SMemoryMode::new(),
        }
    }
}

} // verus!
