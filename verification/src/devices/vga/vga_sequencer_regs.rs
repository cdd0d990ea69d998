//! The Sequencer registers of the IBM VGA card: the index register that
//! selects one of five sequencer registers, and the data port that writes or
//! reads the selected one. Three of them are bit fields, packed here by hand
//! from the least significant bit up.
use vstd::prelude::*;

use crate::devices::vga::VGACard;

verus! {

/// The registers that the Sequencer Address register can select.
#[derive(Copy, Clone, Debug, PartialEq, Eq, Structural)]
pub enum SequencerRegister {
    Reset,
    ClockingMode,
    MapMask,
    CharacterMapSelect,
    MemoryMode,
}

/// Whether the shift registers load every character clock or every fourth.
#[derive(Copy, Clone, Debug, PartialEq, Eq, Structural)]
pub enum ShiftFour {
    EveryClock,
    EightDots,
}

/// The width of a character cell, in dots.
#[derive(Copy, Clone, Debug, PartialEq, Eq, Structural)]
pub enum CharacterClock {
    EightDots,
    NineDots,
}

/// Whether the dot clock runs at the master clock rate or half of it.
#[derive(Copy, Clone, Debug, PartialEq, Eq, Structural)]
pub enum DotClock {
    Native,
    HalfClock,
}

/// Bit `i` of `b`, as 0 or 1.
pub open spec fn bit_of(b: u8, i: u8) -> u8 {
    (b >> i) & 1
}

/// The Clocking Mode register (index 01h). Bits, from bit 0: character
/// clock, bandwidth, shift/load, dot clock, shift four, screen off, two
/// unused bits.
#[derive(Copy, Clone)]
pub struct SClockingModeRegister {
    /// The register's byte.
    pub bits: u8,
}

/// The Character Map Select register (index 03h). Bits, from bit 0: font B
/// select (2 bits), font A select (2 bits), font B high bit, font A high bit,
/// two unused bits.
#[derive(Copy, Clone)]
pub struct SCharacterMapSelect {
    /// The register's byte.
    pub bits: u8,
}

/// The Memory Mode register (index 04h). Bits, from bit 0: unused, extended
/// memory, odd/even enable, chain four enable, four unused bits.
#[derive(Copy, Clone)]
pub struct SMemoryMode {
    /// The register's byte.
    pub bits: u8,
}

impl View for SClockingModeRegister {
    type V = u8;

    /// The register's byte.
    open spec fn view(&self) -> u8 {
        self.bits
    }
}

impl View for SCharacterMapSelect {
    type V = u8;

    /// The register's byte.
    open spec fn view(&self) -> u8 {
        self.bits
    }
}

impl View for SMemoryMode {
    type V = u8;

    /// The register's byte.
    open spec fn view(&self) -> u8 {
        self.bits
    }
}

impl SClockingModeRegister {
    /// A register with every bit clear.
    pub fn new() -> (r: Self)
        ensures
            r@ == 0,
    {
        SClockingModeRegister { bits: 0 }
    }

    /// The register that holds `bytes[0]`, every bit of it kept.
    pub fn from_bytes(bytes: [u8; 1]) -> (r: Self)
        ensures
            r@ == bytes[0],
    {
        SClockingModeRegister { bits: bytes[0] }
    }

    /// The register's byte.
    pub fn into_bytes(self) -> (bytes: [u8; 1])
        ensures
            bytes[0] == self@,
    {
        [self.bits]
    }

    /// Bit 0: nine-dot (1) or eight-dot (0) character cells.
    pub fn character_clock(&self) -> (c: CharacterClock)
        ensures
            c == (if bit_of(self@, 0) == 0 {
                CharacterClock::EightDots
            } else {
                CharacterClock::NineDots
            }),
    {
        let b = self.bits;
        assert(b & 1 == (b >> 0) & 1) by (bit_vector);
        if b & 1 == 0 {
            CharacterClock::EightDots
        } else {
            CharacterClock::NineDots
        }
    }

    /// Bit 1: memory bandwidth (unused on the VGA).
    pub fn bandwidth(&self) -> (v: u8)
        ensures
            v == bit_of(self@, 1),
    {
        (self.bits >> 1) & 1
    }

    /// Bit 2: shift/load rate.
    pub fn shift_load(&self) -> (v: u8)
        ensures
            v == bit_of(self@, 2),
    {
        (self.bits >> 2) & 1
    }

    /// Bit 3: dot clock divided by two (1) or native (0).
    pub fn dot_clock(&self) -> (c: DotClock)
        ensures
            c == (if bit_of(self@, 3) == 0 {
                DotClock::Native
            } else {
                DotClock::HalfClock
            }),
    {
        if (self.bits >> 3) & 1 == 0 {
            DotClock::Native
        } else {
            DotClock::HalfClock
        }
    }

    /// Bit 4: load the shift registers every fourth character clock.
    pub fn shift_four(&self) -> (c: ShiftFour)
        ensures
            c == (if bit_of(self@, 4) == 0 {
                ShiftFour::EveryClock
            } else {
                ShiftFour::EightDots
            }),
    {
        if (self.bits >> 4) & 1 == 0 {
            ShiftFour::EveryClock
        } else {
            ShiftFour::EightDots
        }
    }

    /// Bit 5: screen off.
    pub fn screen_off(&self) -> (b: bool)
        ensures
            b == (bit_of(self@, 5) == 1),
    {
        (self.bits >> 5) & 1 == 1
    }
}

impl SCharacterMapSelect {
    /// A register with every bit clear.
    pub fn new() -> (r: Self)
        ensures
            r@ == 0,
    {
        SCharacterMapSelect { bits: 0 }
    }

    /// The register that holds `bytes[0]`, every bit of it kept.
    pub fn from_bytes(bytes: [u8; 1]) -> (r: Self)
        ensures
            r@ == bytes[0],
    {
        SCharacterMapSelect { bits: bytes[0] }
    }

    /// The register's byte.
    pub fn into_bytes(self) -> (bytes: [u8; 1])
        ensures
            bytes[0] == self@,
    {
        [self.bits]
    }

    /// Bits 0-1: low bits of the font used when attribute bit 3 is clear.
    pub fn select_generator_b(&self) -> (v: u8)
        ensures
            v == self@ & 3,
    {
        self.bits & 3
    }

    /// Bits 2-3: low bits of the font used when attribute bit 3 is set.
    pub fn select_generator_a(&self) -> (v: u8)
        ensures
            v == (self@ >> 2) & 3,
    {
        (self.bits >> 2) & 3
    }

    /// Bit 4: high bit of font B.
    pub fn sbh_bit(&self) -> (v: u8)
        ensures
            v == bit_of(self@, 4),
    {
        (self.bits >> 4) & 1
    }

    /// Bit 5: high bit of font A.
    pub fn sah_bit(&self) -> (v: u8)
        ensures
            v == bit_of(self@, 5),
    {
        (self.bits >> 5) & 1
    }
}

impl SMemoryMode {
    /// A register with every bit clear.
    pub fn new() -> (r: Self)
        ensures
            r@ == 0,
    {
        SMemoryMode { bits: 0 }
    }

    /// The register that holds `bytes[0]`, every bit of it kept.
    pub fn from_bytes(bytes: [u8; 1]) -> (r: Self)
        ensures
            r@ == bytes[0],
    {
        SMemoryMode { bits: bytes[0] }
    }

    /// The register's byte.
    pub fn into_bytes(self) -> (bytes: [u8; 1])
        ensures
            bytes[0] == self@,
    {
        [self.bits]
    }

    /// Bit 1: more than 64K of video memory is present.
    pub fn extended_memory(&self) -> (b: bool)
        ensures
            b == (bit_of(self@, 1) == 1),
    {
        (self.bits >> 1) & 1 == 1
    }

    /// Bit 2: odd/even addressing is enabled.
    pub fn odd_even_enable(&self) -> (b: bool)
        ensures
            b == (bit_of(self@, 2) == 1),
    {
        (self.bits >> 2) & 1 == 1
    }

    /// Bit 3: chain-four addressing is enabled.
    pub fn chain4_enable(&self) -> (b: bool)
        ensures
            b == (bit_of(self@, 3) == 1),
    {
        (self.bits >> 3) & 1 == 1
    }
}

/// The register that the Sequencer Address register selects when `index`
/// (already masked to five bits) is written, or `current` where `index`
/// names no register.
pub open spec fn selected_by(index: u8, current: SequencerRegister) -> SequencerRegister {
    if index == 0 {
        SequencerRegister::Reset
    } else if index == 1 {
        SequencerRegister::ClockingMode
    } else if index == 2 {
        SequencerRegister::MapMask
    } else if index == 3 {
        SequencerRegister::CharacterMapSelect
    } else if index == 4 {
        SequencerRegister::MemoryMode
    } else {
        current
    }
}

/// Font A's full number (0-7) that a Character Map Select byte gives.
pub open spec fn character_map_a_of(b: u8) -> u8 {
    ((b >> 2) & 3) | (bit_of(b, 5) << 2)
}

/// Font B's full number (0-7) that a Character Map Select byte gives.
pub open spec fn character_map_b_of(b: u8) -> u8 {
    (b & 3) | (bit_of(b, 4) << 2)
}

/// The card after `byte` is written to the Sequencer Address register.
pub open spec fn after_address_write(card: VGACard, byte: u8) -> VGACard {
    VGACard {
        sequencer_address_byte: byte & 0x1F,
        sequencer_register_selected: selected_by(byte & 0x1F, card.sequencer_register_selected),
        ..card
    }
}

/// The card after `byte` is written to the Sequencer Data register.
pub open spec fn after_data_write(card: VGACard, byte: u8) -> VGACard {
    match card.sequencer_register_selected {
        SequencerRegister::Reset => VGACard { sequencer_reset: byte & 0x03, ..card },
        SequencerRegister::ClockingMode => VGACard {
            sequencer_clocking_mode: SClockingModeRegister { bits: byte },
            ..card
        },
        SequencerRegister::MapMask => VGACard { sequencer_map_mask: byte & 0x0F, ..card },
        SequencerRegister::CharacterMapSelect => VGACard {
            sequencer_character_map_select: SCharacterMapSelect { bits: byte },
            sequencer_character_map_a: character_map_a_of(byte),
            sequencer_character_map_b: character_map_b_of(byte),
            ..card
        },
        SequencerRegister::MemoryMode => VGACard {
            sequencer_memory_mode: SMemoryMode { bits: byte },
            ..card
        },
    }
}

/// What a read of the Sequencer Data register returns.
pub open spec fn data_read(card: VGACard) -> u8 {
    match card.sequencer_register_selected {
        SequencerRegister::Reset => card.sequencer_reset,
        SequencerRegister::ClockingMode => card.sequencer_clocking_mode@,
        SequencerRegister::MapMask => card.sequencer_map_mask,
        SequencerRegister::CharacterMapSelect => card.sequencer_character_map_select@,
        SequencerRegister::MemoryMode => card.sequencer_memory_mode@,
    }
}

/// The part of a byte written to sequencer register `reg` that a read of it
/// gives back: two bits of Reset, four of Map Mask, all of the others.
pub open spec fn retained_bits(reg: SequencerRegister, byte: u8) -> u8 {
    match reg {
        SequencerRegister::Reset => byte & 0x03,
        SequencerRegister::MapMask => byte & 0x0F,
        _ => byte,
    }
}

/// The Sequencer Address register selects by index: 0 Reset, 1 Clocking Mode,
/// 2 Map Mask, 3 Character Map Select, 4 Memory Mode (of the index's low five
/// bits); any other index keeps the selection.
pub proof fn lemma_sequencer_register_indices(card: VGACard, byte: u8)
    ensures
        byte & 0x1F == 0 ==> after_address_write(card, byte).sequencer_register_selected
            == SequencerRegister::Reset,
        byte & 0x1F == 1 ==> after_address_write(card, byte).sequencer_register_selected
            == SequencerRegister::ClockingMode,
        byte & 0x1F == 2 ==> after_address_write(card, byte).sequencer_register_selected
            == SequencerRegister::MapMask,
        byte & 0x1F == 3 ==> after_address_write(card, byte).sequencer_register_selected
            == SequencerRegister::CharacterMapSelect,
        byte & 0x1F == 4 ==> after_address_write(card, byte).sequencer_register_selected
            == SequencerRegister::MemoryMode,
        byte & 0x1F > 4 ==> after_address_write(card, byte).sequencer_register_selected
            == card.sequencer_register_selected,
        after_address_write(card, byte).sequencer_address_byte == byte & 0x1F,
{
}

/// A data write after selecting index `index` reaches that register, and only
/// it: index 0 stores the low two bits in Reset, 1 the byte in Clocking Mode,
/// 2 the low four bits in Map Mask, 3 the byte in Character Map Select (with
/// font A = bits 2-3 plus bit 5 as its high bit, font B = bits 0-1 plus bit 4),
/// 4 the byte in Memory Mode.
pub proof fn lemma_data_write_reaches_indexed_register(card: VGACard, index: u8, byte: u8)
    ensures
        ({
            let c = after_data_write(after_address_write(card, index), byte);
            &&& index & 0x1F == 0 ==> c.sequencer_reset == byte & 0x03
                && c.sequencer_clocking_mode == card.sequencer_clocking_mode
                && c.sequencer_map_mask == card.sequencer_map_mask
                && c.sequencer_character_map_select == card.sequencer_character_map_select
                && c.sequencer_memory_mode == card.sequencer_memory_mode
            &&& index & 0x1F == 1 ==> c.sequencer_clocking_mode@ == byte
                && c.sequencer_reset == card.sequencer_reset
                && c.sequencer_map_mask == card.sequencer_map_mask
                && c.sequencer_character_map_select == card.sequencer_character_map_select
                && c.sequencer_memory_mode == card.sequencer_memory_mode
            &&& index & 0x1F == 2 ==> c.sequencer_map_mask == byte & 0x0F
                && c.sequencer_reset == card.sequencer_reset
                && c.sequencer_clocking_mode == card.sequencer_clocking_mode
                && c.sequencer_character_map_select == card.sequencer_character_map_select
                && c.sequencer_memory_mode == card.sequencer_memory_mode
            &&& index & 0x1F == 3 ==> c.sequencer_character_map_select@ == byte
                && c.sequencer_character_map_a == ((byte >> 2) & 3) + 4 * ((byte >> 5) & 1)
                && c.sequencer_character_map_b == (byte & 3) + 4 * ((byte >> 4) & 1)
                && c.sequencer_reset == card.sequencer_reset
                && c.sequencer_clocking_mode == card.sequencer_clocking_mode
                && c.sequencer_map_mask == card.sequencer_map_mask
                && c.sequencer_memory_mode == card.sequencer_memory_mode
            &&& index & 0x1F == 4 ==> c.sequencer_memory_mode@ == byte
                && c.sequencer_reset == card.sequencer_reset
                && c.sequencer_clocking_mode == card.sequencer_clocking_mode
                && c.sequencer_map_mask == card.sequencer_map_mask
                && c.sequencer_character_map_select == card.sequencer_character_map_select
        }),
{
    lemma_character_maps_in_range(byte);
}

/// Reading back after selecting index `index` and writing `byte` gives: at
/// index 0 the low two bits, at 2 the low four bits, at 1, 3 and 4 the whole
/// byte.
pub proof fn lemma_read_back_by_index(card: VGACard, index: u8, byte: u8)
    ensures
        index & 0x1F == 0 ==> data_read(after_data_write(after_address_write(card, index), byte))
            == byte & 0x03,
        index & 0x1F == 1 ==> data_read(after_data_write(after_address_write(card, index), byte))
            == byte,
        index & 0x1F == 2 ==> data_read(after_data_write(after_address_write(card, index), byte))
            == byte & 0x0F,
        index & 0x1F == 3 ==> data_read(after_data_write(after_address_write(card, index), byte))
            == byte,
        index & 0x1F == 4 ==> data_read(after_data_write(after_address_write(card, index), byte))
            == byte,
{
}

/// Selecting a sequencer register by its index, writing a byte to the data
/// port and reading the data port back gives the byte, less the bits that the
/// register does not hold (Reset keeps two, Map Mask four).
pub proof fn lemma_read_after_write(card: VGACard, index: u8, byte: u8)
    requires
        index & 0x1F < 5,
    ensures
        data_read(after_data_write(after_address_write(card, index), byte)) == retained_bits(
            after_address_write(card, index).sequencer_register_selected,
            byte,
        ),
        after_address_write(card, index).sequencer_register_selected == selected_by(
            index & 0x1F,
            card.sequencer_register_selected,
        ),
{
}

/// A write to the data port leaves the address register and the selection
/// as they were, so that successive data writes reach the same register.
pub proof fn lemma_data_write_keeps_selection(card: VGACard, byte: u8)
    ensures
        after_data_write(card, byte).sequencer_register_selected
            == card.sequencer_register_selected,
        after_data_write(card, byte).sequencer_address_byte == card.sequencer_address_byte,
{
}

/// The address register holds five bits, and an index above 4 leaves the
/// selection unchanged.
pub proof fn lemma_address_write(card: VGACard, byte: u8)
    ensures
        after_address_write(card, byte).sequencer_address_byte <= 0x1F,
        byte & 0x1F >= 5 ==> after_address_write(card, byte).sequencer_register_selected
            == card.sequencer_register_selected,
{
    assert(byte & 0x1F <= 0x1F) by (bit_vector);
}

/// The font numbers that a Character Map Select byte gives are each below 8:
/// the register's two low bits for a font with its high bit above them.
pub proof fn lemma_character_maps_in_range(byte: u8)
    ensures
        character_map_a_of(byte) < 8,
        character_map_b_of(byte) < 8,
        character_map_a_of(byte) == ((byte >> 2) & 3) + 4 * bit_of(byte, 5),
        character_map_b_of(byte) == (byte & 3) + 4 * bit_of(byte, 4),
{
    assert(((byte >> 2) & 3) | (((byte >> 5) & 1) << 2) < 8) by (bit_vector);
    assert((byte & 3) | (((byte >> 4) & 1) << 2) < 8) by (bit_vector);
    assert(((byte >> 2) & 3) | (((byte >> 5) & 1) << 2) == ((byte >> 2) & 3) + 4 * ((byte >> 5)
        & 1)) by (bit_vector);
    assert((byte & 3) | (((byte >> 4) & 1) << 2) == (byte & 3) + 4 * ((byte >> 4) & 1))
        by (bit_vector);
}

impl VGACard {
    /// Handle a write to the Sequencer Address register.
    ///
    /// The value written to this register controls which register will be written to
    /// when a byte is sent to the Sequencer Data register. An index that names no
    /// register leaves the selection as it was.
    pub fn write_sequencer_address(&mut self, byte: u8)
        ensures
            *final(self) == after_address_write(*old(self), byte),
    {
        self.sequencer_address_byte = byte & 0x1F;
        self.sequencer_register_selected = match self.sequencer_address_byte {
            0x00 => SequencerRegister::Reset,
            0x01 => SequencerRegister::ClockingMode,
            0x02 => SequencerRegister::MapMask,
            0x03 => SequencerRegister::CharacterMapSelect,
            0x04 => SequencerRegister::MemoryMode,
            _ => self.sequencer_register_selected,
        };
    }

    /// Handle a write to the Sequencer Data register.
    ///
    /// Will write to the internal register selected by the Sequencer Address Register.
    /// The card's display mode and timings, which the rest of the VGA derives
    /// from these registers, are not held by this library and are not
    /// recalculated here.
    pub fn write_sequencer_data(&mut self, byte: u8)
        ensures
            *final(self) == after_data_write(*old(self), byte),
    {
        match self.sequencer_register_selected {
            SequencerRegister::Reset => {
                self.sequencer_reset = byte & 0x03;
            },
            SequencerRegister::ClockingMode => {
                self.sequencer_clocking_mode = SClockingModeRegister::from_bytes([byte]);
            },
            SequencerRegister::MapMask => {
                self.sequencer_map_mask = byte & 0x0F;
            },
            SequencerRegister::CharacterMapSelect => {
                self.sequencer_character_map_select = SCharacterMapSelect::from_bytes([byte]);
                // Calculate actual values from extra bits
                self.sequencer_character_map_a =
                    self.sequencer_character_map_select.select_generator_a()
                    | self.sequencer_character_map_select.sah_bit() << 2;
                self.sequencer_character_map_b =
                    self.sequencer_character_map_select.select_generator_b()
                    | self.sequencer_character_map_select.sbh_bit() << 2;
            },
            SequencerRegister::MemoryMode => {
                self.sequencer_memory_mode = SMemoryMode::from_bytes([byte]);
            },
        }
    }

    /// Handle a read from the Sequencer Data register. 0x3C5 (VGA Only)
    ///
    /// The Sequencer Data registers are only readable on the VGA.
    pub fn read_sequencer_data(&mut self) -> (byte: u8)
        ensures
            byte == data_read(*old(self)),
            *final(self) == *old(self),
    {
        let byte = match self.sequencer_register_selected {
            SequencerRegister::Reset => self.sequencer_reset,
            SequencerRegister::ClockingMode => self.sequencer_clocking_mode.into_bytes()[0],
            SequencerRegister::MapMask => self.sequencer_map_mask,
            SequencerRegister::CharacterMapSelect => self.sequencer_character_map_select.into_bytes()[0],
            SequencerRegister::MemoryMode => self.sequencer_memory_mode.into_bytes()[0],
        };
        byte
    }
}

} // verus!
