//! Clocking the MDA: running it for the dot clocks the system grants, and
//! stepping it by hand for debugging.
use vstd::prelude::*;

use crate::devices::mda::{MDACard, MDA_CHAR_CLOCK};
use crate::videocard::ClockingMode;

verus! {

/// The card is clocked by whole characters in this mode.
pub open spec fn is_character_clocked(mode: ClockingMode) -> bool {
    mode is Character || mode is Dynamic
}

/// Dot clocks that `run(hdots)` has to run: those already granted, plus
/// `hdots`, less those the card ran ahead.
pub open spec fn clocks_due(card: MDACard, hdots: u32) -> int {
    card.clocks_accum + hdots - card.ticks_advanced
}

/// `run` ends while still catching up with the character clock: the dot
/// clocks owed use up all that are due.
pub open spec fn ends_in_catch_up(card: MDACard, hdots: u32) -> bool {
    card.pixel_clocks_owed > 0 && clocks_due(card, hdots) <= card.pixel_clocks_owed
}

/// How many whole characters of `c` dots run while more than one
/// character's worth is left of `a` dots.
pub open spec fn char_ticks_for(a: int, c: int) -> int {
    if a <= 0 {
        0
    } else {
        (a - 1) / c
    }
}

/// The inputs on which `run(hdots)` neither panics nor runs forever, and on
/// which the dot counters cannot overflow.
pub open spec fn run_requires(card: MDACard, hdots: u32) -> bool {
    &&& hdots > 0
    &&& card.ticks_advanced <= hdots
    &&& clocks_due(card, hdots) <= u32::MAX
    &&& (is_character_clocked(card.clock_mode) || card.clock_mode is Cycle || ends_in_catch_up(
        card,
        hdots,
    ))
    &&& (is_character_clocked(card.clock_mode) && clocks_due(card, hdots) > card.pixel_clocks_owed
        ==> card.char_clock > 0)
    &&& card.can_advance(
        if card.pixel_clocks_owed >= clocks_due(card, hdots) {
            card.pixel_clocks_owed as int
        } else {
            clocks_due(card, hdots)
        },
    )
}

/// The card after `run(hdots)`.
///
/// First the dot clocks owed run one at a time, each using up one due clock;
/// where the due clocks run out first, the run ends there. Then, clocked by
/// character, whole characters run while more than one character is due; clocked
/// by cycle, every due clock runs.
pub open spec fn run_result(card: MDACard, hdots: u32) -> MDACard {
    let a = clocks_due(card, hdots);
    let o = card.pixel_clocks_owed as int;
    if ends_in_catch_up(card, hdots) {
        let t = if a == 0 {
            1
        } else {
            a
        };
        MDACard {
            clocks_accum: 0,
            pixel_clocks_owed: (o - t) as u32,
            ticks_advanced: 0,
            slot_idx: 0,
            ..card.advanced_by(t)
        }
    } else {
        let a1 = a - o;
        let adv = if card.clock_mode is Cycle {
            a1
        } else {
            char_ticks_for(a1, card.char_clock as int) * card.char_clock
        };
        MDACard {
            clocks_accum: (a1 - adv) as u32,
            pixel_clocks_owed: 0,
            ticks_advanced: 0,
            last_rw_tick: 0,
            slot_idx: 0,
            ..card.advanced_by(o + adv)
        }
    }
}

/// The dot clocks that `debug_tick(ticks)` runs.
pub open spec fn debug_tick_advance(card: MDACard, ticks: u32) -> int {
    if is_character_clocked(card.clock_mode) {
        (ticks % MDA_CHAR_CLOCK) + (ticks / MDA_CHAR_CLOCK) * card.char_clock
    } else if card.clock_mode is Cycle {
        ticks as int
    } else {
        0
    }
}

/// When `x` dots are left and whole characters of `c` dots have run while
/// more than a character was left, `q` characters have run.
proof fn lemma_char_ticks(a: int, c: int, q: int)
    requires
        c > 0,
        a >= 0,
        q >= 0,
        q * c <= a,
        a - q * c <= c,
        q > 0 ==> a - q * c > 0,
    ensures
        q == char_ticks_for(a, c),
{
    if a > 0 {
        let r = a - q * c;
        if q == 0 {
            vstd::arithmetic::div_mod::lemma_fundamental_div_mod_converse(a - 1, c, 0, a - 1);
        } else {
            vstd::arithmetic::div_mod::lemma_fundamental_div_mod_converse(a - 1, c, q, r - 1);
        }
    } else {
        assert(q == 0) by (nonlinear_arith)
            requires
                c > 0,
                q >= 0,
                q * c <= a,
                a <= 0,
        ;
    }
}

/// A run neither loses nor invents dot clocks: what it runs, plus what it
/// keeps for the next call, is what was due. (When nothing at all is due but a
/// clock is owed, one clock still runs; that input is left out.)
pub proof fn lemma_run_conserves_clocks(card: MDACard, hdots: u32)
    requires
        run_requires(card, hdots),
        clocks_due(card, hdots) > 0 || card.pixel_clocks_owed == 0,
    ensures
        run_result(card, hdots).cycles + run_result(card, hdots).clocks_accum == card.cycles
            + clocks_due(card, hdots),
        run_result(card, hdots).cur_screen_cycles + run_result(card, hdots).clocks_accum
            == card.cur_screen_cycles + clocks_due(card, hdots),
{
    let a = clocks_due(card, hdots);
    let o = card.pixel_clocks_owed as int;
    if !ends_in_catch_up(card, hdots) && is_character_clocked(card.clock_mode) {
        let a1 = a - o;
        let c = card.char_clock as int;
        if a1 > 0 {
            lemma_char_ticks_bounds(a1, c);
        }
    }
}

/// After a run, the clocks run ahead are used up; the clocks owed are paid
/// unless the run ended while paying them; clocked by cycle nothing is kept,
/// and clocked by character less than one character (and nothing only if
/// nothing was left to run) is kept.
pub proof fn lemma_run_leaves_less_than_a_character(card: MDACard, hdots: u32)
    requires
        run_requires(card, hdots),
    ensures
        run_result(card, hdots).ticks_advanced == 0,
        run_result(card, hdots).slot_idx == 0,
        !ends_in_catch_up(card, hdots) ==> run_result(card, hdots).pixel_clocks_owed == 0,
        ends_in_catch_up(card, hdots) ==> run_result(card, hdots).clocks_accum == 0,
        !ends_in_catch_up(card, hdots) && card.clock_mode is Cycle ==> run_result(
            card,
            hdots,
        ).clocks_accum == 0,
        !ends_in_catch_up(card, hdots) && is_character_clocked(card.clock_mode) ==> run_result(
            card,
            hdots,
        ).clocks_accum <= card.char_clock,
        !ends_in_catch_up(card, hdots) && is_character_clocked(card.clock_mode) && clocks_due(
            card,
            hdots,
        ) > card.pixel_clocks_owed ==> run_result(card, hdots).clocks_accum > 0,
{
    let a = clocks_due(card, hdots);
    let o = card.pixel_clocks_owed as int;
    if !ends_in_catch_up(card, hdots) && is_character_clocked(card.clock_mode) {
        let a1 = a - o;
        let c = card.char_clock as int;
        if a1 > 0 {
            lemma_char_ticks_bounds(a1, c);
        }
    }
}

/// Clocked by cycle, running the card for some system ticks and stepping it
/// by hand for the dot clocks that were due (at least one) leave it in the
/// same state, apart from the clock bookkeeping of `run`: the accumulator,
/// the clocks owed and run ahead, and the slot and last-tick fields.
pub proof fn lemma_run_agrees_with_debug_tick(card: MDACard, hdots: u32)
    requires
        run_requires(card, hdots),
        card.clock_mode is Cycle,
        clocks_due(card, hdots) > 0,
    ensures
        run_result(card, hdots) == (MDACard {
            clocks_accum: run_result(card, hdots).clocks_accum,
            pixel_clocks_owed: run_result(card, hdots).pixel_clocks_owed,
            ticks_advanced: run_result(card, hdots).ticks_advanced,
            slot_idx: run_result(card, hdots).slot_idx,
            last_rw_tick: run_result(card, hdots).last_rw_tick,
            ..card.advanced_by(debug_tick_advance(card, clocks_due(card, hdots) as u32))
        }),
{
}

/// Clocked by character (with a character clock of at least one dot), a run
/// past the owed clocks advances the card by whole characters only.
pub proof fn lemma_run_advances_by_characters(card: MDACard, hdots: u32)
    requires
        run_requires(card, hdots),
        is_character_clocked(card.clock_mode),
        card.char_clock > 0,
        !ends_in_catch_up(card, hdots),
    ensures
        (run_result(card, hdots).cycles - card.cycles - card.pixel_clocks_owed) % (
        card.char_clock as int) == 0,
{
    let a = clocks_due(card, hdots);
    let o = card.pixel_clocks_owed as int;
    let a1 = a - o;
    let c = card.char_clock as int;
    if a1 > 0 {
        lemma_char_ticks_bounds(a1, c);
        vstd::arithmetic::div_mod::lemma_mod_multiples_basic(char_ticks_for(a1, c), c);
    } else {
        assert(0int % c == 0) by (nonlinear_arith)
            requires
                c > 0,
        ;
    }
}

/// Clocked by character with the MDA's nine-dot character clock, or clocked
/// by cycle, `debug_tick(ticks)` runs exactly `ticks` dot clocks.
pub proof fn lemma_debug_tick_runs_ticks(card: MDACard, ticks: u32)
    requires
        card.clock_mode is Cycle || (is_character_clocked(card.clock_mode) && card.char_clock
            == MDA_CHAR_CLOCK),
    ensures
        debug_tick_advance(card, ticks) == ticks,
{
}

/// With `a` dots left (`a` > 0) and `c` dots per character, the characters
/// that run leave between one dot and a whole character.
proof fn lemma_char_ticks_bounds(a: int, c: int)
    requires
        a > 0,
        c > 0,
    ensures
        0 <= char_ticks_for(a, c),
        0 < a - char_ticks_for(a, c) * c <= c,
{
    let q = (a - 1) / c;
    vstd::arithmetic::div_mod::lemma_fundamental_div_mod(a - 1, c);
    assert(0 <= (a - 1) % c < c) by {
        vstd::arithmetic::div_mod::lemma_mod_bound(a - 1, c);
    }
    assert(q >= 0) by {
        vstd::arithmetic::div_mod::lemma_div_pos_is_pos(a - 1, c);
    }
    assert(a - 1 == c * q + (a - 1) % c);
    assert(c * q == q * c) by (nonlinear_arith);
}

impl MDACard {
    /// Clock by pixel clock to catch up with the character clock: run the
    /// dots owed one at a time, each using up one clock of the accumulator.
    /// Returns `false` where the accumulator runs out first.
    #[verifier::rlimit(30)]
    fn catch_up(&mut self) -> (caught_up: bool)
        requires
            old(self).can_advance(
                if old(self).pixel_clocks_owed >= old(self).clocks_accum {
                    old(self).pixel_clocks_owed as int
                } else {
                    old(self).clocks_accum as int
                },
            ),
        ensures
            ({
                let a = old(self).clocks_accum as int;
                let o = old(self).pixel_clocks_owed as int;
                if o > 0 && a <= o {
                    let t = if a == 0 {
                        1
                    } else {
                        a
                    };
                    &&& !caught_up
                    &&& *final(self) == (MDACard {
                        clocks_accum: 0,
                        pixel_clocks_owed: (o - t) as u32,
                        ..old(self).advanced_by(t)
                    })
                } else {
                    &&& caught_up
                    &&& *final(self) == (MDACard {
                        clocks_accum: (a - o) as u32,
                        pixel_clocks_owed: 0,
                        ..old(self).advanced_by(o)
                    })
                }
            }),
    {
        let ghost card1 = *self;
        let ghost a = card1.clocks_accum as int;
        let ghost o = card1.pixel_clocks_owed as int;
        let ghost mut i: int = 0;
        while self.pixel_clocks_owed > 0
            invariant
                0 <= i <= o,
                card1 == *old(self),
                a == card1.clocks_accum,
                o == card1.pixel_clocks_owed,
                card1.can_advance(if o >= a { o } else { a }),
                *self == (MDACard {
                    pixel_clocks_owed: (o - i) as u32,
                    clocks_accum: (a - i) as u32,
                    ..card1.advanced_by(i)
                }),
                i > 0 ==> a > i,
            decreases o - i,
        {
            self.tick();
            self.pixel_clocks_owed -= 1;
            self.clocks_accum = self.clocks_accum.saturating_sub(1);
            proof {
                i = i + 1;
            }
            if self.clocks_accum == 0 {
                proof {
                    assert(i == (if a == 0 { 1 } else { a }));
                }
                return false;
            }
        }
        true
    }

    /// Drain the accumulator by character clock: whole characters run while
    /// more than one character's worth is left.
    #[verifier::rlimit(30)]
    fn drain_by_character(&mut self)
        requires
            old(self).clocks_accum > old(self).char_clock ==> old(self).char_clock > 0,
            old(self).can_advance(old(self).clocks_accum as int),
        ensures
            ({
                let a = old(self).clocks_accum as int;
                let adv = char_ticks_for(a, old(self).char_clock as int) * old(self).char_clock;
                *final(self) == (MDACard { clocks_accum: (a - adv) as u32, ..old(self).advanced_by(adv) })
            }),
    {
        let ghost card2 = *self;
        let ghost a1 = card2.clocks_accum as int;
        let ghost c = card2.char_clock as int;
        let ghost mut q: int = 0;
        while self.clocks_accum > self.char_clock
            invariant
                card2 == *old(self),
                c == card2.char_clock,
                card2.clocks_accum == a1,
                0 <= q,
                q * c <= a1,
                q > 0 ==> a1 - q * c > 0,
                a1 > c ==> c > 0,
                card2.can_advance(a1),
                *self == (MDACard { clocks_accum: (a1 - q * c) as u32, ..card2.advanced_by(q * c) }),
            decreases a1 - q * c,
        {
            proof {
                assert((q + 1) * c == q * c + c) by (nonlinear_arith);
            }
            // Drain by the character clock in force before this character runs.
            let old_char_clock = self.char_clock;
            self.tick_hchar();
            self.clocks_accum = self.clocks_accum.saturating_sub(old_char_clock);
            proof {
                q = q + 1;
            }
        }
        proof {
            if a1 > 0 || q > 0 {
                if c == 0 {
                    assert(q * c == 0) by (nonlinear_arith)
                        requires
                            c == 0,
                    ;
                } else {
                    lemma_char_ticks(a1, c, q);
                }
            }
        }
    }

    /// Drain the accumulator by cycle: every clock in it runs as a dot.
    fn drain_by_cycle(&mut self)
        requires
            old(self).can_advance(old(self).clocks_accum as int),
        ensures
            *final(self) == (MDACard {
                clocks_accum: 0,
                ..old(self).advanced_by(old(self).clocks_accum as int)
            }),
    {
        let ghost card2 = *self;
        let ghost a1 = card2.clocks_accum as int;
        let ghost mut j: int = 0;
        while self.clocks_accum > 0
            invariant
                card2 == *old(self),
                card2.clocks_accum == a1,
                0 <= j <= a1,
                card2.can_advance(a1),
                *self == (MDACard { clocks_accum: (a1 - j) as u32, ..card2.advanced_by(j) }),
            decreases a1 - j,
        {
            self.tick();
            self.clocks_accum = self.clocks_accum.saturating_sub(1);
            proof {
                j = j + 1;
            }
        }
    }

    /// Run the card for `hdots` dot clocks of the system.
    ///
    /// The clocks the card already ran ahead are deducted; the clocks owed to
    /// bring the card back in phase with the character clock run first, one
    /// at a time; then the card runs by character or by cycle, as its clocking
    /// mode says, and what is left of less than a character is kept for the
    /// next call. The dots run only advance the card's dot counters: the
    /// card's CRT controller and beam are not emulated here.
    #[verifier::rlimit(60)]
    pub fn run(&mut self, hdots: u32)
        requires
            run_requires(*old(self), hdots),
        ensures
            *final(self) == run_result(*old(self), hdots),
    {
        let ghost card0 = *self;
        let ghost a = clocks_due(card0, hdots);
        let ghost o = card0.pixel_clocks_owed as int;
        let mut hdots_left = hdots;
        hdots_left -= self.ticks_advanced;
        self.clocks_accum += hdots_left;
        self.ticks_advanced = 0;
        let ghost card1 = *self;
        assert(card1 == (MDACard { clocks_accum: a as u32, ticks_advanced: 0, ..card0 }));

        if !self.catch_up() {
            self.slot_idx = 0;
            proof {
                let t = if a == 0 {
                    1
                } else {
                    a
                };
                assert(ends_in_catch_up(card0, hdots));
                assert(*self == (MDACard {
                    clocks_accum: 0,
                    pixel_clocks_owed: (o - t) as u32,
                    ticks_advanced: 0,
                    slot_idx: 0,
                    ..card0.advanced_by(t)
                }));
            }
            return;
        }
        // We should be back in phase with character clock now.
        let ghost card2 = *self;
        let ghost a1 = a - o;
        assert(!ends_in_catch_up(card0, hdots));
        assert(card2 == (MDACard {
            clocks_accum: a1 as u32,
            pixel_clocks_owed: 0,
            ticks_advanced: 0,
            ..card0.advanced_by(o)
        }));
        let ghost adv = if card0.clock_mode is Cycle {
            a1
        } else {
            char_ticks_for(a1, card0.char_clock as int) * card0.char_clock
        };
        match self.clock_mode {
            ClockingMode::Character | ClockingMode::Dynamic => {
                self.drain_by_character();
            },
            ClockingMode::Cycle => {
                self.drain_by_cycle();
            },
            _ => {
                proof {
                    assert(false);
                }
            },
        }
        assert(*self == (MDACard { clocks_accum: (a1 - adv) as u32, ..card2.advanced_by(adv) }));

        // Reset rwop slots for next CPU step.
        self.last_rw_tick = 0;
        self.slot_idx = 0;
        assert(*self == (MDACard {
            clocks_accum: (a1 - adv) as u32,
            pixel_clocks_owed: 0,
            ticks_advanced: 0,
            last_rw_tick: 0,
            slot_idx: 0,
            ..card0.advanced_by(o + adv)
        }));
    }

    /// Run `n` single dots.
    fn tick_dots(&mut self, n: u32)
        requires
            old(self).can_advance(n as int),
        ensures
            *final(self) == old(self).advanced_by(n as int),
    {
        let ghost card0 = *self;
        let mut i: u32 = 0;
        while i < n
            invariant
                card0 == *old(self),
                i <= n,
                card0.can_advance(n as int),
                *self == card0.advanced_by(i as int),
            decreases n - i,
        {
            self.tick();
            i = i + 1;
        }
    }

    /// Run `n` characters of `char_clock` dots.
    fn tick_chars(&mut self, n: u32)
        requires
            old(self).can_advance(n * old(self).char_clock),
        ensures
            *final(self) == old(self).advanced_by(n * old(self).char_clock),
    {
        let ghost card0 = *self;
        let ghost c = card0.char_clock as int;
        let mut k: u32 = 0;
        while k < n
            invariant
                card0 == *old(self),
                c == card0.char_clock,
                k <= n,
                card0.can_advance(n * c),
                *self == card0.advanced_by(k * c),
            decreases n - k,
        {
            proof {
                assert((k + 1) * c == k * c + c && (k + 1) * c <= n * c) by (nonlinear_arith)
                    requires
                        k < n,
                        c >= 0,
                ;
            }
            self.tick_hchar();
            k = k + 1;
        }
    }

    /// Tick the MDA the specified number of video clock cycles.
    ///
    /// Clocked by character, the ticks run as single dots for the remainder
    /// below a whole character and as characters for the rest; clocked by
    /// cycle, they run as single dots; in any other mode nothing runs. The
    /// dots run only advance the card's dot counters.
    pub fn debug_tick(&mut self, ticks: u32)
        requires
            old(self).can_advance(debug_tick_advance(*old(self), ticks)),
        ensures
            *final(self) == old(self).advanced_by(debug_tick_advance(*old(self), ticks)),
    {
        match self.clock_mode {
            ClockingMode::Character | ClockingMode::Dynamic => {
                let pixel_ticks = ticks % MDA_CHAR_CLOCK;
                let char_ticks = ticks / MDA_CHAR_CLOCK;
                proof {
                    assert(char_ticks * self.char_clock >= 0) by (nonlinear_arith)
                        requires
                            char_ticks >= 0,
                            self.char_clock >= 0,
                    ;
                }
                self.tick_dots(pixel_ticks);
                self.tick_chars(char_ticks);
            },
            ClockingMode::Cycle => {
                self.tick_dots(ticks);
            },
            _ => {},
        }
    }
}

} // verus!
