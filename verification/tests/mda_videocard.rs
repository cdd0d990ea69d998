use marty_core::devices::mda::MDACard;
use marty_core::videocard::{
    BufferSelect, CGAColor, CGAPalette, ClockingMode, CursorInfo, DisplayMode, RenderBpp,
    RenderMode, VideoOption, VideoType,
};

fn card() -> MDACard {
    MDACard::new(ClockingMode::Character)
}

#[test]
fn fixed_answers() {
    let c = card();
    assert_eq!(c.get_video_type(), VideoType::MDA);
    assert_eq!(c.get_render_mode(), RenderMode::Direct);
    assert_eq!(c.get_render_depth(), RenderBpp::Four);
    assert!(c.get_scanline_double());
    assert_eq!(c.get_refresh_rate(), 60);
    assert_eq!(c.get_clock_divisor(), 1);
    assert_eq!(c.get_pixel_raw(3, 4), 0);
}

#[test]
fn sync_state() {
    let mut c = card();
    c.in_crtc_vblank = true;
    c.vborder = true;
    assert_eq!(c.get_sync(), (true, false, false, true));
    c.vborder = false;
    assert_eq!(c.get_sync(), (true, false, false, false));
}

#[test]
fn snow_option() {
    let mut c = card();
    c.set_video_option(VideoOption::EnableSnow(true));
    assert!(c.enable_snow);
    c.set_video_option(VideoOption::EnableSnow(false));
    assert!(!c.enable_snow);
}

#[test]
fn display_size_of_standard_mode() {
    let mut c = card();
    c.crtc_horizontal_displayed = 80;
    c.crtc_vertical_displayed = 25;
    c.crtc_maximum_scanline_address = 13;
    assert_eq!(c.get_display_size(), (720, 350));
    assert_eq!(c.get_character_height(), 14);
}

#[test]
fn start_address_combines_registers() {
    let mut c = card();
    c.crtc_start_address_ho = 0x12;
    c.crtc_start_address_lo = 0x34;
    assert_eq!(c.get_start_address(), 0x1234);
}

#[test]
fn overscan_color() {
    let mut c = card();
    c.cc_altcolor = 5;
    assert_eq!(c.get_overscan_color(), 5);
    c.mode_hires_gfx = true;
    assert_eq!(c.get_overscan_color(), 0);
}

#[test]
fn forty_columns() {
    let mut c = card();
    for (mode, want) in [
        (DisplayMode::Mode0TextBw40, true),
        (DisplayMode::Mode1TextCo40, true),
        (DisplayMode::Mode2TextBw80, false),
        (DisplayMode::Mode3TextCo80, false),
        (DisplayMode::Mode4LowResGraphics, true),
        (DisplayMode::Mode5LowResAltPalette, true),
        (DisplayMode::Mode6HiResGraphics, false),
        (DisplayMode::Disabled, false),
    ] {
        c.display_mode = mode;
        assert_eq!(c.is_40_columns(), want);
        assert_eq!(c.get_display_mode(), mode);
    }
}

#[test]
fn cursor_in_80_column_text() {
    let mut c = card();
    c.display_mode = DisplayMode::Mode2TextBw80;
    c.crtc_cursor_address_ho = 0x01;
    c.crtc_cursor_address_lo = 0x45; // 325
    c.crtc_cursor_start_line = 11;
    c.crtc_cursor_end_line = 12;
    c.cursor_status = true;
    assert_eq!(
        c.get_cursor_info(),
        CursorInfo { addr: 325, pos_x: 5, pos_y: 4, line_start: 11, line_end: 12, visible: true }
    );
}

#[test]
fn cursor_in_40_column_text() {
    let mut c = card();
    c.display_mode = DisplayMode::Mode1TextCo40;
    c.crtc_cursor_address_lo = 83;
    let info = c.get_cursor_info();
    assert_eq!((info.addr, info.pos_x, info.pos_y), (83, 3, 2));
}

#[test]
fn cursor_outside_text_mode_is_zero() {
    let mut c = card();
    c.display_mode = DisplayMode::Mode6HiResGraphics;
    c.crtc_cursor_address_lo = 83;
    c.crtc_cursor_start_line = 3;
    c.cursor_status = true;
    assert_eq!(
        c.get_cursor_info(),
        CursorInfo { addr: 0, pos_x: 0, pos_y: 0, line_start: 0, line_end: 0, visible: false }
    );
}

#[test]
fn palette_selection() {
    let mut c = card();
    c.cc_register = 0b0001_0010;
    assert_eq!(c.get_cga_palette(), (CGAPalette::RedGreenYellow(CGAColor::Green), true));
    c.cc_register = 0b0010_1110;
    assert_eq!(c.get_cga_palette(), (CGAPalette::MagentaCyanWhite(CGAColor::Yellow), false));
    c.mode_bw = true;
    c.mode_graphics = true;
    assert_eq!(c.get_cga_palette(), (CGAPalette::RedCyanWhite(CGAColor::Yellow), false));
    c.mode_hires_gfx = true;
    assert_eq!(c.get_cga_palette(), (CGAPalette::Monochrome(CGAColor::Yellow), true));
}

#[test]
fn all_sixteen_colors() {
    let colors = [
        CGAColor::Black, CGAColor::Blue, CGAColor::Green, CGAColor::Cyan, CGAColor::Red,
        CGAColor::Magenta, CGAColor::Brown, CGAColor::White, CGAColor::BlackBright,
        CGAColor::BlueBright, CGAColor::GreenBright, CGAColor::CyanBright, CGAColor::RedBright,
        CGAColor::MagentaBright, CGAColor::Yellow, CGAColor::WhiteBright,
    ];
    let mut c = card();
    c.mode_hires_gfx = true;
    for (n, color) in colors.iter().enumerate() {
        c.cc_register = 0xC0 | n as u8;
        assert_eq!(c.get_cga_palette(), (CGAPalette::Monochrome(*color), true));
    }
}

#[test]
fn text_mode_strings() {
    let mut c = card();
    c.crtc_horizontal_displayed = 3;
    c.crtc_vertical_displayed = 2;
    c.crtc_start_address = 2;
    let bytes = [b'H', 7, b'i', 7, 0x01, 7, b'!', 7, 0x9F, 7, b'~', 7];
    for (i, b) in bytes.iter().enumerate() {
        c.mem[2 + i] = *b;
    }
    let rows = c.get_text_mode_strings();
    assert_eq!(rows, vec!["Hi ".to_string(), "! ~".to_string()]);
}

#[test]
fn text_mode_strings_no_rows() {
    let c = card();
    assert!(c.get_text_mode_strings().is_empty());
}

#[test]
fn frame_buffers() {
    let mut c = card();
    c.buf[0] = vec![1, 2];
    c.buf[1] = vec![3];
    assert_eq!(c.get_buf(BufferSelect::Back), &[1, 2]);
    assert_eq!(c.get_buf(BufferSelect::Front), &[3]);
    assert_eq!(c.get_display_buf(), &[3]);
}

#[test]
fn plain_getters() {
    let mut c = card();
    c.scanline = 17;
    c.frame_count = 99;
    c.beam_x = 4;
    c.beam_y = 5;
    c.mode_graphics = true;
    assert_eq!(c.get_scanline(), 17);
    assert_eq!(c.get_frame_count(), 99);
    assert_eq!(c.get_beam_pos(), Some((4, 5)));
    assert!(c.is_graphics_mode());
    c.set_clocking_mode(ClockingMode::Cycle);
    assert_eq!(c.clock_mode, ClockingMode::Cycle);
    assert_eq!(c.get_mem().len(), 0x4000);
}

#[test]
fn reset_returns_to_power_on_state() {
    let mut c = MDACard::new(ClockingMode::Cycle);
    c.run(50);
    c.crtc_horizontal_displayed = 80;
    c.display_mode = DisplayMode::Mode2TextBw80;
    c.mem[5] = 9;
    c.buf[0] = vec![1];
    c.reset();
    assert_eq!(c.clock_mode, ClockingMode::Cycle);
    assert_eq!(c.cycles, 0);
    assert_eq!(c.crtc_horizontal_displayed, 0);
    assert_eq!(c.display_mode, DisplayMode::Disabled);
    assert_eq!(c.mem[5], 0);
    assert!(c.buf[0].is_empty());
    assert_eq!(c.char_clock, 9);
}

#[test]
fn cursor_position_recomposes_address() {
    let mut c = card();
    for mode in [DisplayMode::Mode0TextBw40, DisplayMode::Mode3TextCo80] {
        c.display_mode = mode;
        let cols = if c.is_40_columns() { 40 } else { 80 };
        for addr in [0usize, 39, 40, 81, 1999, 0xFFFF] {
            c.crtc_cursor_address_ho = (addr >> 8) as u8;
            c.crtc_cursor_address_lo = (addr & 0xFF) as u8;
            let info = c.get_cursor_info();
            assert_eq!(info.pos_y as usize * cols + info.pos_x as usize, addr);
            assert!((info.pos_x as usize) < cols);
        }
    }
}

#[test]
fn text_row_has_one_char_per_column() {
    let mut c = card();
    c.crtc_horizontal_displayed = 80;
    c.crtc_vertical_displayed = 25;
    let rows = c.get_text_mode_strings();
    assert_eq!(rows.len(), 25);
    for row in rows {
        assert_eq!(row, " ".repeat(80));
    }
}

#[test]
fn front_buffer_with_unused_back_index() {
    let mut c = card();
    c.buf[1] = vec![7, 8];
    c.back_buf = 5;
    c.front_buf = 1;
    assert_eq!(c.get_display_buf(), &[7, 8]);
    assert_eq!(c.get_buf(BufferSelect::Front), c.get_display_buf());
}
