//! The IBM Monochrome Display Adapter: the card's registers, counters and
//! clock, and what it reports through the video card interface.
pub mod clocking;
pub mod state;
pub mod videocard;

use vstd::prelude::*;

use crate::videocard::{ClockingMode, DisplayMode};

verus! {

/// Width of a character cell on the MDA, in dots: the card's character clock.
pub const MDA_CHAR_CLOCK: u32 = 9;

/// Size of the card's video memory, in bytes.
pub const MDA_MEM_SIZE: usize = 0x4000;

/// Bit of the Color Control register that selects bright colors.
pub const CC_BRIGHT_BIT: u8 = 0b0001_0000;

/// Bit of the Color Control register that selects the magenta/cyan/white palette.
pub const CC_PALETTE_BIT: u8 = 0b0010_0000;

/// The state of an MDA card.
pub struct MDACard {
    // CRTC registers.
    pub crtc_horizontal_total: u8,
    pub crtc_horizontal_displayed: u8,
    pub crtc_horizontal_sync_pos: u8,
    pub crtc_sync_width: u8,
    pub crtc_vertical_total: u8,
    pub crtc_vertical_total_adjust: u8,
    pub crtc_vertical_displayed: u8,
    pub crtc_vertical_sync_pos: u8,
    pub crtc_interlace_mode: u8,
    pub crtc_maximum_scanline_address: u8,
    pub crtc_cursor_start_line: u8,
    pub crtc_cursor_end_line: u8,
    pub crtc_start_address_ho: u8,
    pub crtc_start_address_lo: u8,
    /// The start address that the two Start Address registers held when the frame began.
    pub crtc_start_address: usize,
    pub crtc_cursor_address_ho: u8,
    pub crtc_cursor_address_lo: u8,
    // CRTC counters.
    pub hcc_c0: u8,
    pub vlc_c9: u8,
    pub vcc_c4: u8,
    pub vsc_c3h: u8,
    pub hsc_c3l: u8,
    pub vtac_c5: u8,
    pub vma: usize,
    pub vma_t: usize,
    pub vmws: usize,
    pub rba: usize,
    // Raster status.
    pub in_display_area: bool,
    pub in_crtc_hblank: bool,
    pub in_crtc_vblank: bool,
    pub hborder: bool,
    pub vborder: bool,
    pub beam_x: u32,
    pub beam_y: u32,
    pub scanline: u32,
    // Mode and color control.
    pub display_mode: DisplayMode,
    pub mode_enable: bool,
    pub mode_graphics: bool,
    pub mode_bw: bool,
    pub mode_hires_gfx: bool,
    pub cc_register: u8,
    pub cc_altcolor: u8,
    pub cursor_status: bool,
    pub cursor_attr: u8,
    pub enable_snow: bool,
    pub snow_count: u64,
    // Clocking.
    pub clock_mode: ClockingMode,
    pub clock_divisor: u32,
    /// Dots per character clock.
    pub char_clock: u32,
    /// Dot clocks run since power-on.
    pub cycles: u64,
    /// Dot clocks run since the current frame began.
    pub cur_screen_cycles: u64,
    pub frame_count: u64,
    pub cycles_per_vsync: u64,
    pub status_reads: u64,
    pub missed_hsyncs: u64,
    /// Dot clocks already run ahead of the next `run` call.
    pub ticks_advanced: u32,
    /// Dot clocks granted and not yet run.
    pub clocks_accum: u32,
    /// Dot clocks still to run, one at a time, to reach a character boundary.
    pub pixel_clocks_owed: u32,
    pub last_rw_tick: u32,
    pub slot_idx: usize,
    // Memory.
    /// Video memory.
    pub mem: Vec<u8>,
    /// The two frame buffers.
    pub buf: [Vec<u8>; 2],
    pub back_buf: usize,
    pub front_buf: usize,
}

/// The state of a card at power-on, clocked in `clock_mode`: registers,
/// counters and flags at zero (the clock divisor at 1 and the character clock
/// at nine dots), the display disabled, video memory zeroed, and both frame
/// buffers empty, the first one the back buffer.
pub open spec fn is_power_on_state(card: MDACard, clock_mode: ClockingMode) -> bool {
    &&& card.clock_mode == clock_mode
    &&& card.mem@ == Seq::new(MDA_MEM_SIZE as nat, |i: int| 0u8)
    &&& card.buf[0]@.len() == 0
    &&& card.buf[1]@.len() == 0
    &&& card.crtc_horizontal_total == 0
    &&& card.crtc_horizontal_displayed == 0
    &&& card.crtc_horizontal_sync_pos == 0
    &&& card.crtc_sync_width == 0
    &&& card.crtc_vertical_total == 0
    &&& card.crtc_vertical_total_adjust == 0
    &&& card.crtc_vertical_displayed == 0
    &&& card.crtc_vertical_sync_pos == 0
    &&& card.crtc_interlace_mode == 0
    &&& card.crtc_maximum_scanline_address == 0
    &&& card.crtc_cursor_start_line == 0
    &&& card.crtc_cursor_end_line == 0
    &&& card.crtc_start_address_ho == 0
    &&& card.crtc_start_address_lo == 0
    &&& card.crtc_start_address == 0
    &&& card.crtc_cursor_address_ho == 0
    &&& card.crtc_cursor_address_lo == 0
    &&& card.hcc_c0 == 0
    &&& card.vlc_c9 == 0
    &&& card.vcc_c4 == 0
    &&& card.vsc_c3h == 0
    &&& card.hsc_c3l == 0
    &&& card.vtac_c5 == 0
    &&& card.vma == 0
    &&& card.vma_t == 0
    &&& card.vmws == 0
    &&& card.rba == 0
    &&& card.in_display_area == false
    &&& card.in_crtc_hblank == false
    &&& card.in_crtc_vblank == false
    &&& card.hborder == false
    &&& card.vborder == false
    &&& card.beam_x == 0
    &&& card.beam_y == 0
    &&& card.scanline == 0
    &&& card.display_mode == DisplayMode::Disabled
    &&& card.mode_enable == false
    &&& card.mode_graphics == false
    &&& card.mode_bw == false
    &&& card.mode_hires_gfx == false
    &&& card.cc_register == 0
    &&& card.cc_altcolor == 0
    &&& card.cursor_status == false
    &&& card.cursor_attr == 0
    &&& card.enable_snow == false
    &&& card.snow_count == 0
    &&& card.clock_divisor == 1
    &&& card.char_clock == MDA_CHAR_CLOCK
    &&& card.cycles == 0
    &&& card.cur_screen_cycles == 0
    &&& card.frame_count == 0
    &&& card.cycles_per_vsync == 0
    &&& card.status_reads == 0
    &&& card.missed_hsyncs == 0
    &&& card.ticks_advanced == 0
    &&& card.clocks_accum == 0
    &&& card.pixel_clocks_owed == 0
    &&& card.last_rw_tick == 0
    &&& card.slot_idx == 0
    &&& card.back_buf == 0
    &&& card.front_buf == 1
}

impl MDACard {
    /// A powered-on card with its registers and counters at zero, the display
    /// disabled, zeroed video memory, empty frame buffers, and the given
    /// clocking mode.
    pub fn new(clock_mode: ClockingMode) -> (card: Self)
        ensures
            is_power_on_state(card, clock_mode),
    {
        let mem: Vec<u8> = vec![0u8; MDA_MEM_SIZE];
        proof {
            assert(mem@ =~= Seq::new(MDA_MEM_SIZE as nat, |i: int| 0u8));
        }
        MDACard {
            crtc_horizontal_total: 0,
            crtc_horizontal_displayed: 0,
            crtc_horizontal_sync_pos: 0,
            crtc_sync_width: 0,
            crtc_vertical_total: 0,
            crtc_vertical_total_adjust: 0,
            crtc_vertical_displayed: 0,
            crtc_vertical_sync_pos: 0,
            crtc_interlace_mode: 0,
            crtc_maximum_scanline_address: 0,
            crtc_cursor_start_line: 0,
            crtc_cursor_end_line: 0,
            crtc_start_address_ho: 0,
            crtc_start_address_lo: 0,
            crtc_start_address: 0,
            crtc_cursor_address_ho: 0,
            crtc_cursor_address_lo: 0,
            hcc_c0: 0,
            vlc_c9: 0,
            vcc_c4: 0,
            vsc_c3h: 0,
            hsc_c3l: 0,
            vtac_c5: 0,
            vma: 0,
            vma_t: 0,
            vmws: 0,
            rba: 0,
            in_display_area: false,
            in_crtc_hblank: false,
            in_crtc_vblank: false,
            hborder: false,
            vborder: false,
            beam_x: 0,
            beam_y: 0,
            scanline: 0,
            display_mode: DisplayMode::Disabled,
            mode_enable: false,
            mode_graphics: false,
            mode_bw: false,
            mode_hires_gfx: false,
            cc_register: 0,
            cc_altcolor: 0,
            cursor_status: false,
            cursor_attr: 0,
            enable_snow: false,
            snow_count: 0,
            clock_mode,
            clock_divisor: 1,
            char_clock: MDA_CHAR_CLOCK,
            cycles: 0,
            cur_screen_cycles: 0,
            frame_count: 0,
            cycles_per_vsync: 0,
            status_reads: 0,
            missed_hsyncs: 0,
            ticks_advanced: 0,
            clocks_accum: 0,
            pixel_clocks_owed: 0,
            last_rw_tick: 0,
            slot_idx: 0,
            mem,
            buf: [Vec::new(), Vec::new()],
            back_buf: 0,
            front_buf: 1,
        }
    }

    /// Return every register, counter and buffer to its power-on state; the
    /// clocking mode is kept.
    fn reset_private(&mut self)
        ensures
            is_power_on_state(*final(self), old(self).clock_mode),
    {
        *self = MDACard::new(self.clock_mode);
    }

    /// The card after it has run `n` more dot clocks.
    pub open spec fn advanced_by(self, n: int) -> MDACard {
        MDACard {
            cycles: (self.cycles + n) as u64,
            cur_screen_cycles: (self.cur_screen_cycles + n) as u64,
            ..self
        }
    }

    /// The dot-clock counters can advance by `n` without overflowing.
    pub open spec fn can_advance(self, n: int) -> bool {
        self.cycles + n <= u64::MAX && self.cur_screen_cycles + n <= u64::MAX
    }

    /// Clock the card by one dot: the dot counters advance by one. The card's
    /// CRT controller, beam and drawing are not emulated by this library, so
    /// nothing else changes.
    pub fn tick(&mut self)
        requires
            old(self).can_advance(1),
        ensures
            *final(self) == old(self).advanced_by(1),
    {
        self.cycles = self.cycles + 1;
        self.cur_screen_cycles = self.cur_screen_cycles + 1;
    }

    /// Clock the card by one character: the dot counters advance by
    /// `char_clock` dots at once. As with `tick`, the CRT controller, beam and
    /// drawing are not emulated, so nothing else changes.
    pub fn tick_hchar(&mut self)
        requires
            old(self).can_advance(old(self).char_clock as int),
        ensures
            *final(self) == old(self).advanced_by(old(self).char_clock as int),
    {
        self.cycles = self.cycles + self.char_clock as u64;
        self.cur_screen_cycles = self.cur_screen_cycles + self.char_clock as u64;
    }

    /// The 16-bit cursor address that the two Cursor Address registers hold.
    pub fn get_cursor_address(&self) -> (addr: usize)
        ensures
            addr == self.crtc_cursor_address_ho * 256 + self.crtc_cursor_address_lo,
    {
        let ho = self.crtc_cursor_address_ho as usize;
        let lo = self.crtc_cursor_address_lo as usize;
        assert((ho << 8) | lo == ho * 256 + lo) by (bit_vector)
            requires
                ho < 256,
                lo < 256,
        ;
        (ho << 8) | lo
    }

    /// Whether the cursor is shown at this point of its blink cycle.
    pub fn get_cursor_status(&self) -> (visible: bool)
        ensures
            visible == self.cursor_status,
    {
        self.cursor_status
    }

    /// The card's video memory.
    pub fn get_mem(&self) -> (mem: &[u8])
        ensures
            mem@ == self.mem@,
    {
        self.mem.as_slice()
    }
}

} // verus!
