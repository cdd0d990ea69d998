//! The video card interface of the MDA: what the card reports of its
//! display, cursor, palette and frame buffers.
use vstd::prelude::*;

use crate::devices::mda::{is_power_on_state, CC_BRIGHT_BIT, CC_PALETTE_BIT, MDACard, MDA_CHAR_CLOCK};
use crate::videocard::{
    cga_color_from_nibble, cga_color_spec, BufferSelect, CGAColor, CGAPalette, ClockingMode, CursorInfo,
    DisplayMode, RenderBpp, RenderMode, VideoOption, VideoType,
};

verus! {

/// The display mode shows 40 columns of text or a 320-dot-wide graphics mode.
pub open spec fn is_40_column_mode(mode: DisplayMode) -> bool {
    mode is Mode0TextBw40 || mode is Mode1TextCo40 || mode is Mode4LowResGraphics
        || mode is Mode5LowResAltPalette
}

/// The cursor report for a card: row and column in a 40- or 80-column text
/// mode, all zero in any other mode.
pub open spec fn cursor_info_spec(card: MDACard) -> CursorInfo {
    let addr = card.crtc_cursor_address_ho * 256 + card.crtc_cursor_address_lo;
    let info = |columns: int|
        CursorInfo {
            addr: addr as usize,
            pos_x: (addr % columns) as u32,
            pos_y: (addr / columns) as u32,
            line_start: card.crtc_cursor_start_line,
            line_end: card.crtc_cursor_end_line,
            visible: card.cursor_status,
        };
    if card.display_mode is Mode0TextBw40 || card.display_mode is Mode1TextCo40 {
        info(40)
    } else if card.display_mode is Mode2TextBw80 || card.display_mode is Mode3TextCo80 {
        info(80)
    } else {
        CursorInfo { addr: 0, pos_x: 0, pos_y: 0, line_start: 0, line_end: 0, visible: false }
    }
}

/// The palette and intensity that the Color Control and mode registers select.
pub open spec fn cga_palette_spec(card: MDACard) -> (CGAPalette, bool) {
    let intensity = card.cc_register & CC_BRIGHT_BIT != 0;
    let alt_color = cga_color_spec(card.cc_register);
    if card.mode_hires_gfx {
        (CGAPalette::Monochrome(alt_color), true)
    } else if card.mode_bw && card.mode_graphics {
        (CGAPalette::RedCyanWhite(alt_color), intensity)
    } else if card.cc_register & CC_PALETTE_BIT != 0 {
        (CGAPalette::MagentaCyanWhite(alt_color), intensity)
    } else {
        (CGAPalette::RedGreenYellow(alt_color), intensity)
    }
}

/// What the text dump shows of a byte of video memory: printable ASCII as
/// it is, a control character or a byte above 0x7F as a space.
pub open spec fn text_cell_char(b: u8) -> char {
    if 0x20 <= b && b < 0x80 {
        b as char
    } else {
        ' '
    }
}

/// The address at which text row `r` of the display starts: two bytes
/// (character and attribute) per displayed column.
pub open spec fn text_row_start(card: MDACard, r: int) -> int {
    card.crtc_start_address + r * (2 * card.crtc_horizontal_displayed)
}

/// The end of the memory range read for text row `r`: one row on, wrapped at
/// 16K.
pub open spec fn text_row_end(card: MDACard, r: int) -> int {
    (text_row_start(card, r) + 2 * card.crtc_horizontal_displayed) % 0x4000
}

/// Every displayed text row is a range of video memory that does not run
/// backwards (as it would where a row wraps at 16K) and whose end the address
/// arithmetic reaches without overflow.
pub open spec fn text_rows_readable(card: MDACard) -> bool {
    forall|r: int|
        0 <= r < card.crtc_vertical_displayed ==> {
            &&& #[trigger] text_row_start(card, r) + 2 * card.crtc_horizontal_displayed <= usize::MAX
            &&& text_row_start(card, r) <= text_row_end(card, r) <= card.mem.len()
        }
}

/// The characters of every second byte of `mem` from `from` up to `to`.
pub open spec fn text_of_range(mem: Seq<u8>, from: int, to: int) -> Seq<char> {
    Seq::new(((to - from + 1) / 2) as nat, |k: int| text_cell_char(mem[from + 2 * k]))
}

/// Text row `r` as the text dump shows it.
pub open spec fn text_row(card: MDACard, r: int) -> Seq<char> {
    text_of_range(card.mem@, text_row_start(card, r), text_row_end(card, r))
}

/// The text of the character bytes (every second byte) of `mem[from..to]`.
fn text_line(mem: &Vec<u8>, from: usize, to: usize) -> (line: String)
    requires
        from <= to <= mem.len(),
    ensures
        line@ == text_of_range(mem@, from as int, to as int),
{
    let span = to - from;
    let n = span / 2 + span % 2;
    let mut line = String::new();
    let mut k: usize = 0;
    while k < n
        invariant
            from <= to <= mem.len(),
            span == to - from,
            n == span / 2 + span % 2,
            k <= n,
            line@ =~= Seq::new(k as nat, |j: int| text_cell_char(mem@[from + 2 * j])),
        decreases n - k,
    {
        let byte = mem[from + 2 * k];
        let ascii_byte = match byte {
            0x00..=0x1F => 0x20,
            0x80..=0xFF => 0x20,
            _ => byte,
        };
        crate::strfmt::push_char(&mut line, ascii_byte as char);
        k = k + 1;
    }
    assert(n == (span + 1) / 2);
    line
}

/// The low four bits of a color number select the color: 0 black, 1 blue,
/// 2 green, 3 cyan, 4 red, 5 magenta, 6 brown, 7 white, and 8-15 their
/// bright versions (14 being yellow).
pub proof fn lemma_cga_color_table(n: u8)
    ensures
        n & 0x0F == 0 ==> cga_color_spec(n) == CGAColor::Black,
        n & 0x0F == 1 ==> cga_color_spec(n) == CGAColor::Blue,
        n & 0x0F == 2 ==> cga_color_spec(n) == CGAColor::Green,
        n & 0x0F == 3 ==> cga_color_spec(n) == CGAColor::Cyan,
        n & 0x0F == 4 ==> cga_color_spec(n) == CGAColor::Red,
        n & 0x0F == 5 ==> cga_color_spec(n) == CGAColor::Magenta,
        n & 0x0F == 6 ==> cga_color_spec(n) == CGAColor::Brown,
        n & 0x0F == 7 ==> cga_color_spec(n) == CGAColor::White,
        n & 0x0F == 8 ==> cga_color_spec(n) == CGAColor::BlackBright,
        n & 0x0F == 9 ==> cga_color_spec(n) == CGAColor::BlueBright,
        n & 0x0F == 10 ==> cga_color_spec(n) == CGAColor::GreenBright,
        n & 0x0F == 11 ==> cga_color_spec(n) == CGAColor::CyanBright,
        n & 0x0F == 12 ==> cga_color_spec(n) == CGAColor::RedBright,
        n & 0x0F == 13 ==> cga_color_spec(n) == CGAColor::MagentaBright,
        n & 0x0F == 14 ==> cga_color_spec(n) == CGAColor::Yellow,
        n & 0x0F == 15 ==> cga_color_spec(n) == CGAColor::WhiteBright,
{
    assert(n & 0x0F == n % 16) by (bit_vector);
}

/// The palette: in high-resolution graphics, monochrome with intensity set;
/// otherwise the hidden red/cyan/white palette where the black-and-white bit
/// is set in (low-resolution) graphics, else magenta/cyan/white or
/// red/green/yellow by Color Control bit 5, with intensity Color Control bit
/// 4. The color is always the one the low four bits of Color Control select.
pub proof fn lemma_palette_selection(card: MDACard)
    ensures
        card.mode_hires_gfx ==> cga_palette_spec(card) == (
            CGAPalette::Monochrome(cga_color_spec(card.cc_register)),
            true,
        ),
        !card.mode_hires_gfx ==> cga_palette_spec(card).1 == (card.cc_register & 0x10 != 0),
        !card.mode_hires_gfx && card.mode_bw && card.mode_graphics ==> cga_palette_spec(card).0
            == CGAPalette::RedCyanWhite(cga_color_spec(card.cc_register)),
        !card.mode_hires_gfx && !(card.mode_bw && card.mode_graphics) && card.cc_register & 0x20
            != 0 ==> cga_palette_spec(card).0 == CGAPalette::MagentaCyanWhite(
            cga_color_spec(card.cc_register),
        ),
        !card.mode_hires_gfx && !(card.mode_bw && card.mode_graphics) && card.cc_register & 0x20
            == 0 ==> cga_palette_spec(card).0 == CGAPalette::RedGreenYellow(
            cga_color_spec(card.cc_register),
        ),
        cga_palette_spec(card).0 is RedCyanWhite <==> (card.mode_bw && card.mode_graphics
            && !card.mode_hires_gfx),
{
}

/// In a 40- or 80-column text mode the cursor report carries the Cursor
/// Address registers' address (high byte times 256 plus low byte), the start
/// and end scan lines of the Cursor Start and End registers, in that order,
/// and the blink state; in any other mode the report is all zero.
pub proof fn lemma_cursor_fields(card: MDACard)
    ensures
        (card.display_mode is Mode0TextBw40 || card.display_mode is Mode1TextCo40
            || card.display_mode is Mode2TextBw80 || card.display_mode is Mode3TextCo80) ==> {
            &&& cursor_info_spec(card).addr == card.crtc_cursor_address_ho * 256
                + card.crtc_cursor_address_lo
            &&& cursor_info_spec(card).line_start == card.crtc_cursor_start_line
            &&& cursor_info_spec(card).line_end == card.crtc_cursor_end_line
            &&& cursor_info_spec(card).visible == card.cursor_status
        },
        !(card.display_mode is Mode0TextBw40 || card.display_mode is Mode1TextCo40
            || card.display_mode is Mode2TextBw80 || card.display_mode is Mode3TextCo80)
            ==> cursor_info_spec(card) == (CursorInfo {
            addr: 0,
            pos_x: 0,
            pos_y: 0,
            line_start: 0,
            line_end: 0,
            visible: false,
        }),
{
}

/// The 40-column modes are the 40-column text modes and the two 320-dot
/// graphics modes; every other mode is not.
pub proof fn lemma_40_column_modes()
    ensures
        is_40_column_mode(DisplayMode::Mode0TextBw40),
        is_40_column_mode(DisplayMode::Mode1TextCo40),
        is_40_column_mode(DisplayMode::Mode4LowResGraphics),
        is_40_column_mode(DisplayMode::Mode5LowResAltPalette),
        !is_40_column_mode(DisplayMode::Disabled),
        !is_40_column_mode(DisplayMode::Mode2TextBw80),
        !is_40_column_mode(DisplayMode::Mode3TextCo80),
        !is_40_column_mode(DisplayMode::ModeTextAndGraphicsHack),
        !is_40_column_mode(DisplayMode::Mode6HiResGraphics),
        !is_40_column_mode(DisplayMode::Mode7LowResComposite),
        !is_40_column_mode(DisplayMode::Mode8LowResTweaked),
{
}

/// Character `k` of text row `r` comes from the byte at the row's start
/// address (the start address plus two bytes per column per row before it)
/// plus `2 * k`: that byte as a character where it is printable ASCII
/// (0x20 to 0x7F), a space otherwise. Every character is ASCII, and the row
/// holds every second byte up to the row's end (one row on, wrapped at 16K).
pub proof fn lemma_text_rows_show_ascii(card: MDACard, r: int, k: int)
    requires
        text_rows_readable(card),
        0 <= r < card.crtc_vertical_displayed,
        0 <= k < text_row(card, r).len(),
    ensures
        ({
            let start = card.crtc_start_address + r * (2 * card.crtc_horizontal_displayed);
            let b = card.mem@[start + 2 * k];
            let c = text_row(card, r)[k];
            &&& 0x20 <= b && b < 0x80 ==> c == b as char
            &&& !(0x20 <= b && b < 0x80) ==> c == ' '
            &&& (c as int) < 0x80
            &&& text_row(card, r).len() == (((start + 2 * card.crtc_horizontal_displayed) % 0x4000)
                - start + 1) / 2
        }),
{
    let start = card.crtc_start_address + r * (2 * card.crtc_horizontal_displayed);
    let b = card.mem@[start + 2 * k];
    let c = text_row(card, r)[k];
    assert(text_row_start(card, r) + 2 * card.crtc_horizontal_displayed <= usize::MAX);
    assert(c == text_cell_char(b));
    if 0x20 <= b && b < 0x80 {
        assert(((b as char) as int) == b as int);
        assert((c as int) < 0x80);
    } else {
        assert(c == ' ');
        assert((' ' as int) == 32);
    }
}

/// In a text mode, the cursor's row and column give back its address: row
/// times the columns per row, plus the column; the column is within the row.
pub proof fn lemma_cursor_position_recomposes(card: MDACard)
    requires
        card.display_mode is Mode0TextBw40 || card.display_mode is Mode1TextCo40
            || card.display_mode is Mode2TextBw80 || card.display_mode is Mode3TextCo80,
    ensures
        cursor_info_spec(card).pos_y * (if is_40_column_mode(card.display_mode) {
            40int
        } else {
            80int
        }) + cursor_info_spec(card).pos_x == cursor_info_spec(card).addr,
        cursor_info_spec(card).pos_x < (if is_40_column_mode(card.display_mode) {
            40int
        } else {
            80int
        }),
{
    let addr = card.crtc_cursor_address_ho * 256 + card.crtc_cursor_address_lo;
    let cols: int = if is_40_column_mode(card.display_mode) {
        40
    } else {
        80
    };
    vstd::arithmetic::div_mod::lemma_fundamental_div_mod(addr, cols);
    vstd::arithmetic::div_mod::lemma_mod_bound(addr, cols);
    vstd::arithmetic::div_mod::lemma_div_pos_is_pos(addr, cols);
    assert(addr / cols <= addr) by (nonlinear_arith)
        requires
            addr >= 0,
            cols >= 1,
            addr / cols >= 0,
            addr == cols * (addr / cols) + addr % cols,
            addr % cols >= 0,
    ;
    assert(cols * (addr / cols) == (addr / cols) * cols) by (nonlinear_arith);
}

/// A text row that ends below the 16K wrap shows one character per
/// displayed column.
pub proof fn lemma_text_row_length(card: MDACard, r: int)
    requires
        text_row_start(card, r) >= 0,
        text_row_start(card, r) + 2 * card.crtc_horizontal_displayed < 0x4000,
    ensures
        text_row(card, r).len() == card.crtc_horizontal_displayed,
{
}

impl MDACard {
    /// The sync and blanking state: vertical blank, horizontal blank,
    /// display enable, and whether the beam is in the border.
    pub fn get_sync(&self) -> (sync: (bool, bool, bool, bool))
        ensures
            sync == (
                self.in_crtc_vblank,
                self.in_crtc_hblank,
                self.in_display_area,
                self.hborder || self.vborder,
            ),
    {
        (self.in_crtc_vblank, self.in_crtc_hblank, self.in_display_area, self.hborder || self.vborder)
    }

    /// Apply a run-time option.
    pub fn set_video_option(&mut self, opt: VideoOption)
        ensures
            match opt {
                VideoOption::EnableSnow(state) => *final(self) == (MDACard {
                    enable_snow: state,
                    ..*old(self)
                }),
            },
    {
        match opt {
            VideoOption::EnableSnow(state) => {
                self.enable_snow = state;
            },
        }
    }

    /// The adapter type: always MDA.
    pub fn get_video_type(&self) -> (t: VideoType)
        ensures
            t == VideoType::MDA,
    {
        VideoType::MDA
    }

    /// The card renders directly into its frame buffer.
    pub fn get_render_mode(&self) -> (m: RenderMode)
        ensures
            m == RenderMode::Direct,
    {
        RenderMode::Direct
    }

    /// The card's frame buffer holds four bits per pixel.
    pub fn get_render_depth(&self) -> (d: RenderBpp)
        ensures
            d == RenderBpp::Four,
    {
        RenderBpp::Four
    }

    /// The current display mode.
    pub fn get_display_mode(&self) -> (m: DisplayMode)
        ensures
            m == self.display_mode,
    {
        self.display_mode
    }

    /// Set the clocking mode.
    pub fn set_clocking_mode(&mut self, mode: ClockingMode)
        ensures
            *final(self) == (MDACard { clock_mode: mode, ..*old(self) }),
    {
        // Switching from cycle clocking mode to character clocking mode
        // must be deferred until character-clock boundaries.
        // For now we only support falling back to cycle clocking mode and
        // staying there.
        self.clock_mode = mode;
    }

    /// The size of the displayed window, in dots: the displayed characters
    /// times the character width, by the displayed rows times the scan lines
    /// per row. The MDA has a single fixed font, so the size is always
    /// HorizontalDisplayed * 9 by VerticalDisplayed * (MaximumScanlineAddress + 1)
    /// (excepting CRTC tricks that delay vsync).
    pub fn get_display_size(&self) -> (size: (u32, u32))
        ensures
            size.0 == self.crtc_horizontal_displayed * MDA_CHAR_CLOCK,
            size.1 == self.crtc_vertical_displayed * (self.crtc_maximum_scanline_address + 1),
    {
        let width = self.crtc_horizontal_displayed as u32 * MDA_CHAR_CLOCK;
        proof {
            assert(self.crtc_vertical_displayed * (self.crtc_maximum_scanline_address + 1) <= 255
                * 256) by (nonlinear_arith)
                requires
                    self.crtc_vertical_displayed <= 255,
                    self.crtc_maximum_scanline_address <= 255,
            ;
        }
        let height = self.crtc_vertical_displayed as u32 * (self.crtc_maximum_scanline_address as u32
            + 1);
        (width, height)
    }

    /// Get the position of the electron beam.
    pub fn get_beam_pos(&self) -> (pos: Option<(u32, u32)>)
        ensures
            pos == Some((self.beam_x, self.beam_y)),
    {
        Some((self.beam_x, self.beam_y))
    }

    /// The overscan (border) color: black in high-resolution graphics, where the
    /// color control register sets the foreground, else the alternate color.
    pub fn get_overscan_color(&self) -> (color: u8)
        ensures
            color == (if self.mode_hires_gfx {
                0
            } else {
                self.cc_altcolor
            }),
    {
        if self.mode_hires_gfx {
            // In highres mode, the color control register controls the foreground color, not overscan
            // so overscan must be black.
            0
        } else {
            self.cc_altcolor
        }
    }

    /// Get the current scanline being rendered.
    pub fn get_scanline(&self) -> (s: u32)
        ensures
            s == self.scanline,
    {
        self.scanline
    }

    /// Whether to double scanlines for this video device: always.
    pub fn get_scanline_double(&self) -> (b: bool)
        ensures
            b,
    {
        true
    }

    /// The bytes of the requested frame buffer.
    pub fn get_buf(&self, buf_select: BufferSelect) -> (buf: &[u8])
        requires
            match buf_select {
                BufferSelect::Back => self.back_buf < 2,
                BufferSelect::Front => self.front_buf < 2,
            },
        ensures
            buf@ == (match buf_select {
                BufferSelect::Back => self.buf[self.back_buf as int]@,
                BufferSelect::Front => self.buf[self.front_buf as int]@,
            }),
    {
        match buf_select {
            BufferSelect::Back => self.buf[self.back_buf].as_slice(),
            BufferSelect::Front => self.buf[self.front_buf].as_slice(),
        }
    }

    /// The bytes of the front buffer (direct rendering only).
    pub fn get_display_buf(&self) -> (buf: &[u8])
        requires
            self.front_buf < 2,
        ensures
            buf@ == self.buf[self.front_buf as int]@,
    {
        self.buf[self.front_buf].as_slice()
    }

    /// The display refresh rate, in Hz: always 60.
    pub fn get_refresh_rate(&self) -> (r: u32)
        ensures
            r == 60,
    {
        60
    }

    /// Whether the display mode is a 40-column one.
    pub fn is_40_columns(&self) -> (b: bool)
        ensures
            b == is_40_column_mode(self.display_mode),
    {
        match self.display_mode {
            DisplayMode::Mode0TextBw40 => true,
            DisplayMode::Mode1TextCo40 => true,
            DisplayMode::Mode2TextBw80 => false,
            DisplayMode::Mode3TextCo80 => false,
            DisplayMode::Mode4LowResGraphics => true,
            DisplayMode::Mode5LowResAltPalette => true,
            DisplayMode::Mode6HiResGraphics => false,
            DisplayMode::Mode7LowResComposite => false,
            _ => false,
        }
    }

    /// Whether a graphics mode is selected.
    pub fn is_graphics_mode(&self) -> (b: bool)
        ensures
            b == self.mode_graphics,
    {
        self.mode_graphics
    }

    /// Return the 16-bit value computed from the CRTC's pair of Page Address registers.
    pub fn get_start_address(&self) -> (addr: u16)
        ensures
            addr == self.crtc_start_address_ho * 256 + self.crtc_start_address_lo,
    {
        let ho = self.crtc_start_address_ho as u16;
        let lo = self.crtc_start_address_lo as u16;
        assert((ho << 8) | lo == ho * 256 + lo) by (bit_vector)
            requires
                ho < 256,
                lo < 256,
        ;
        (ho << 8) | lo
    }

    /// Where the cursor stands, in a text mode; all zero in any other mode.
    pub fn get_cursor_info(&self) -> (info: CursorInfo)
        ensures
            info == cursor_info_spec(*self),
    {
        let addr = self.get_cursor_address();
        match self.display_mode {
            DisplayMode::Mode0TextBw40 | DisplayMode::Mode1TextCo40 => CursorInfo {
                addr,
                pos_x: (addr % 40) as u32,
                pos_y: (addr / 40) as u32,
                line_start: self.crtc_cursor_start_line,
                line_end: self.crtc_cursor_end_line,
                visible: self.get_cursor_status(),
            },
            DisplayMode::Mode2TextBw80 | DisplayMode::Mode3TextCo80 => CursorInfo {
                addr,
                pos_x: (addr % 80) as u32,
                pos_y: (addr / 80) as u32,
                line_start: self.crtc_cursor_start_line,
                line_end: self.crtc_cursor_end_line,
                visible: self.get_cursor_status(),
            },
            _ => {
                // Not a valid text mode
                CursorInfo { addr: 0, pos_x: 0, pos_y: 0, line_start: 0, line_end: 0, visible: false }
            },
        }
    }

    /// The clock divisor: always 1.
    pub fn get_clock_divisor(&self) -> (d: u32)
        ensures
            d == 1,
    {
        1
    }

    /// The height of a character cell, in scan lines.
    pub fn get_character_height(&self) -> (h: u8)
        requires
            self.crtc_maximum_scanline_address < 255,
        ensures
            h == self.crtc_maximum_scanline_address + 1,
    {
        self.crtc_maximum_scanline_address + 1
    }

    /// Return the current palette number, intensity attribute bit, and alt color
    pub fn get_cga_palette(&self) -> (p: (CGAPalette, bool))
        ensures
            p == cga_palette_spec(*self),
    {
        let intensity = self.cc_register & CC_BRIGHT_BIT != 0;

        // Get background color
        let alt_color = cga_color_from_nibble(self.cc_register);

        // Are we in high res mode?
        if self.mode_hires_gfx {
            return (CGAPalette::Monochrome(alt_color), true);
        }
        let mut palette = match self.cc_register & CC_PALETTE_BIT != 0 {
            true => CGAPalette::MagentaCyanWhite(alt_color),
            false => CGAPalette::RedGreenYellow(alt_color),
        };

        // Check for 'hidden' palette - Black & White mode bit in lowres graphics selects Red/Cyan palette
        if self.mode_bw && self.mode_graphics && !self.mode_hires_gfx {
            palette = CGAPalette::RedCyanWhite(alt_color);
        }
        (palette, intensity)
    }

    /// Reset the card to its power-on state, keeping its clocking mode.
    pub fn reset(&mut self)
        ensures
            is_power_on_state(*final(self), old(self).clock_mode),
    {
        self.reset_private();
    }

    /// A single pixel is not available from this card: always 0.
    pub fn get_pixel_raw(&self, _x: u32, _y: u32) -> (p: u8)
        ensures
            p == 0,
    {
        0
    }

    /// The text of the displayed rows of a text mode, one string per row:
    /// the character byte of every cell from the start address on, with
    /// control characters and bytes above 0x7F shown as spaces.
    pub fn get_text_mode_strings(&self) -> (strings: Vec<String>)
        requires
            text_rows_readable(*self),
        ensures
            strings.len() == self.crtc_vertical_displayed,
            forall|r: int|
                0 <= r < strings.len() ==> #[trigger] strings[r]@ == text_row(*self, r),
    {
        let mut strings: Vec<String> = Vec::new();
        let start_addr = self.crtc_start_address;
        let columns = self.crtc_horizontal_displayed as usize;
        let rows = self.crtc_vertical_displayed as usize;
        let mut row_addr = start_addr;
        assert(text_row_start(*self, 0) == row_addr);
        for r in 0..rows
            invariant
                rows == self.crtc_vertical_displayed,
                columns == self.crtc_horizontal_displayed,
                text_rows_readable(*self),
                row_addr == text_row_start(*self, r as int),
                strings.len() == r,
                forall|j: int| 0 <= j < r ==> #[trigger] strings[j]@ == text_row(*self, j),
        {
            assert(text_row_start(*self, r as int) + 2 * columns <= usize::MAX);
            let end = (row_addr + columns * 2) & 0x3fff;
            proof {
                let x = (row_addr + columns * 2) as usize;
                assert(x & 0x3fff == x % 0x4000) by (bit_vector);
            }
            let line = text_line(&self.mem, row_addr, end);
            proof {
                assert(((r + 1) * (2 * columns)) == r * (2 * columns) + 2 * columns)
                    by (nonlinear_arith);
            }
            row_addr += columns * 2;
            strings.push(line);
        }
        strings
    }

    /// The number of frames drawn.
    pub fn get_frame_count(&self) -> (n: u64)
        ensures
            n == self.frame_count,
    {
        self.frame_count
    }
}

} // verus!
