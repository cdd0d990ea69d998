use marty_core::devices::mda::MDACard;
use marty_core::videocard::ClockingMode;

#[test]
fn cycle_mode_runs_every_clock() {
    let mut card = MDACard::new(ClockingMode::Cycle);
    card.run(100);
    assert_eq!(card.cycles, 100);
    assert_eq!(card.cur_screen_cycles, 100);
    assert_eq!(card.clocks_accum, 0);
    assert_eq!(card.ticks_advanced, 0);
}

#[test]
fn ticks_advanced_are_deducted() {
    let mut card = MDACard::new(ClockingMode::Cycle);
    card.ticks_advanced = 30;
    card.run(100);
    assert_eq!(card.cycles, 70);
    assert_eq!(card.ticks_advanced, 0);
}

#[test]
fn character_mode_keeps_remainder() {
    let mut card = MDACard::new(ClockingMode::Character);
    card.run(100);
    // 100 dots: characters of 9 run while more than 9 are left: 11 run, 1 remains.
    assert_eq!(card.cycles, 99);
    assert_eq!(card.clocks_accum, 1);
    assert_eq!(card.cycles + card.clocks_accum as u64, 100);
}

#[test]
fn character_mode_exact_values() {
    let mut card = MDACard::new(ClockingMode::Dynamic);
    card.run(18);
    assert_eq!(card.cycles, 9);
    assert_eq!(card.clocks_accum, 9);
    card.run(1);
    assert_eq!(card.cycles, 18);
    assert_eq!(card.clocks_accum, 1);
}

#[test]
fn owed_clocks_run_first() {
    let mut card = MDACard::new(ClockingMode::Character);
    card.pixel_clocks_owed = 4;
    card.run(22);
    // 4 single dots, then 18 left: one character runs, 9 remain.
    assert_eq!(card.pixel_clocks_owed, 0);
    assert_eq!(card.cycles, 13);
    assert_eq!(card.clocks_accum, 9);
}

#[test]
fn run_ends_while_catching_up() {
    let mut card = MDACard::new(ClockingMode::Character);
    card.pixel_clocks_owed = 5;
    card.last_rw_tick = 7;
    card.slot_idx = 3;
    card.run(3);
    assert_eq!(card.cycles, 3);
    assert_eq!(card.pixel_clocks_owed, 2);
    assert_eq!(card.clocks_accum, 0);
    assert_eq!(card.slot_idx, 0);
    assert_eq!(card.last_rw_tick, 7);
}

#[test]
fn run_with_nothing_due_still_pays_one_owed_clock() {
    let mut card = MDACard::new(ClockingMode::Default);
    card.pixel_clocks_owed = 2;
    card.ticks_advanced = 5;
    card.run(5);
    assert_eq!(card.cycles, 1);
    assert_eq!(card.pixel_clocks_owed, 1);
}

#[test]
fn run_resets_slots() {
    let mut card = MDACard::new(ClockingMode::Cycle);
    card.last_rw_tick = 7;
    card.slot_idx = 3;
    card.run(1);
    assert_eq!(card.last_rw_tick, 0);
    assert_eq!(card.slot_idx, 0);
}

#[test]
fn debug_tick_character_mode() {
    let mut card = MDACard::new(ClockingMode::Character);
    card.debug_tick(20);
    assert_eq!(card.cycles, 20);
    card.char_clock = 8;
    card.debug_tick(20);
    // 2 single dots and 2 characters of 8
    assert_eq!(card.cycles, 20 + 2 + 16);
}

#[test]
fn debug_tick_cycle_and_other_modes() {
    let mut card = MDACard::new(ClockingMode::Cycle);
    card.debug_tick(7);
    assert_eq!(card.cycles, 7);
    card.set_clocking_mode(ClockingMode::Scanline);
    card.debug_tick(7);
    assert_eq!(card.cycles, 7);
}

#[test]
fn tick_and_tick_hchar() {
    let mut card = MDACard::new(ClockingMode::Cycle);
    card.tick();
    card.tick_hchar();
    assert_eq!(card.cycles, 10);
    assert_eq!(card.cur_screen_cycles, 10);
}

#[test]
fn cycle_run_agrees_with_debug_tick() {
    let mut a = MDACard::new(ClockingMode::Cycle);
    let mut b = MDACard::new(ClockingMode::Cycle);
    a.clocks_accum = 3;
    a.ticks_advanced = 2;
    a.pixel_clocks_owed = 4;
    a.run(10);
    b.debug_tick(3 + 10 - 2);
    assert_eq!(a.cycles, b.cycles);
    assert_eq!(a.cur_screen_cycles, b.cur_screen_cycles);
    assert_eq!(a.beam_x, b.beam_x);
    assert_eq!(a.scanline, b.scanline);
}
