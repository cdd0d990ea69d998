use marty_core::devices::vga::vga_sequencer_regs::{
    CharacterClock, DotClock, SCharacterMapSelect, SClockingModeRegister, SMemoryMode,
    SequencerRegister, ShiftFour,
};
use marty_core::devices::vga::VGACard;

#[test]
fn address_write_selects_register() {
    let mut card = VGACard::new();
    card.write_sequencer_address(0x03);
    assert_eq!(card.sequencer_address_byte, 0x03);
    assert_eq!(card.sequencer_register_selected, SequencerRegister::CharacterMapSelect);
    card.write_sequencer_address(0x24);
    assert_eq!(card.sequencer_address_byte, 0x04);
    assert_eq!(card.sequencer_register_selected, SequencerRegister::MemoryMode);
}

#[test]
fn invalid_index_keeps_selection() {
    let mut card = VGACard::new();
    card.write_sequencer_address(0x02);
    card.write_sequencer_address(0x07);
    assert_eq!(card.sequencer_address_byte, 0x07);
    assert_eq!(card.sequencer_register_selected, SequencerRegister::MapMask);
}

#[test]
fn read_after_write_each_register() {
    let expected = [(0u8, 0x03u8), (1, 0xFF), (2, 0x0F), (3, 0xFF), (4, 0xFF)];
    for (index, want) in expected {
        let mut card = VGACard::new();
        card.write_sequencer_address(index);
        card.write_sequencer_data(0xFF);
        assert_eq!(card.read_sequencer_data(), want, "register {}", index);
    }
}

#[test]
fn reset_and_map_mask_drop_high_bits() {
    let mut card = VGACard::new();
    card.write_sequencer_address(0);
    card.write_sequencer_data(0xA6);
    assert_eq!(card.sequencer_reset, 0x02);
    card.write_sequencer_address(2);
    card.write_sequencer_data(0xA6);
    assert_eq!(card.sequencer_map_mask, 0x06);
    assert_eq!(card.read_sequencer_data(), 0x06);
}

#[test]
fn character_map_select_computes_fonts() {
    let mut card = VGACard::new();
    card.write_sequencer_address(3);
    // font B low bits 01, font A low bits 10, sbh 1, sah 0
    card.write_sequencer_data(0b0001_1001);
    assert_eq!(card.sequencer_character_map_b, 0b101);
    assert_eq!(card.sequencer_character_map_a, 0b010);
    card.write_sequencer_data(0b0010_0100);
    assert_eq!(card.sequencer_character_map_a, 0b101);
    assert_eq!(card.sequencer_character_map_b, 0b000);
    assert_eq!(card.read_sequencer_data(), 0b0010_0100);
}

#[test]
fn data_write_touches_only_selected_register() {
    let mut card = VGACard::new();
    card.write_sequencer_address(1);
    card.write_sequencer_data(0x21);
    card.write_sequencer_address(4);
    card.write_sequencer_data(0x0E);
    card.write_sequencer_address(1);
    assert_eq!(card.read_sequencer_data(), 0x21);
    card.write_sequencer_address(4);
    assert_eq!(card.read_sequencer_data(), 0x0E);
    assert_eq!(card.sequencer_reset, 0);
}

#[test]
fn clocking_mode_fields() {
    let r = SClockingModeRegister::from_bytes([0b0011_1001]);
    assert!(matches!(r.character_clock(), CharacterClock::NineDots));
    assert_eq!(r.bandwidth(), 0);
    assert_eq!(r.shift_load(), 0);
    assert!(matches!(r.dot_clock(), DotClock::HalfClock));
    assert!(matches!(r.shift_four(), ShiftFour::EightDots));
    assert!(r.screen_off());
    assert_eq!(r.into_bytes(), [0b0011_1001]);
    let z = SClockingModeRegister::new();
    assert!(matches!(z.character_clock(), CharacterClock::EightDots));
    assert!(!z.screen_off());
}

#[test]
fn character_map_fields() {
    let r = SCharacterMapSelect::from_bytes([0b1111_0110]);
    assert_eq!(r.select_generator_b(), 2);
    assert_eq!(r.select_generator_a(), 1);
    assert_eq!(r.sbh_bit(), 1);
    assert_eq!(r.sah_bit(), 1);
    assert_eq!(r.into_bytes(), [0b1111_0110]);
}

#[test]
fn memory_mode_fields() {
    let r = SMemoryMode::from_bytes([0b0000_1010]);
    assert!(r.extended_memory());
    assert!(!r.odd_even_enable());
    assert!(r.chain4_enable());
    assert_eq!(SMemoryMode::new().into_bytes(), [0]);
}
