use marty_core::devices::mda::MDACard;
use marty_core::videocard::{ClockingMode, DisplayMode, VideoCardStateEntry};

fn text(e: &VideoCardStateEntry) -> &str {
    match e {
        VideoCardStateEntry::String(s) => s.as_str(),
    }
}

#[test]
fn sections_in_order() {
    let c = MDACard::new(ClockingMode::Character);
    let state = c.get_videocard_string_state();
    let names: Vec<&str> = state.iter().map(|s| s.0.as_str()).collect();
    assert_eq!(names, vec!["General", "CRTC", "Internal"]);
    assert_eq!(state[0].1.len(), 5);
    assert_eq!(state[1].1.len(), 17);
    assert_eq!(state[2].1.len(), 24);
}

#[test]
fn general_section() {
    let mut c = MDACard::new(ClockingMode::Character);
    c.display_mode = DisplayMode::Mode7LowResComposite;
    c.mode_enable = true;
    c.frame_count = 1234;
    let state = c.get_videocard_string_state();
    let g: Vec<(&str, &str)> = state[0].1.iter().map(|(l, e)| (l.as_str(), text(e))).collect();
    assert_eq!(
        g,
        vec![
            ("Adapter Type:", "MDA"),
            ("Display Mode:", "Mode7LowResComposite"),
            ("Video Enable:", "true"),
            ("Clock Divisor:", "1"),
            ("Frame Count:", "1234"),
        ]
    );
}

#[test]
fn crtc_section() {
    let mut c = MDACard::new(ClockingMode::Character);
    c.crtc_horizontal_total = 97;
    c.crtc_maximum_scanline_address = 13;
    c.crtc_start_address = 0xB8;
    c.crtc_cursor_address_lo = 200;
    let state = c.get_videocard_string_state();
    let r = &state[1].1;
    assert_eq!((r[0].0.as_str(), text(&r[0].1)), ("[R0] HorizontalTotal", "97"));
    assert_eq!((r[9].0.as_str(), text(&r[9].1)), ("[R9] MaximumScanLineAddress", "13"));
    assert_eq!((r[14].0.as_str(), text(&r[14].1)), ("Start Address", "00B8"));
    assert_eq!((r[16].0.as_str(), text(&r[16].1)), ("[R15] CursorAddressL", "200"));
}

#[test]
fn internal_section() {
    let mut c = MDACard::new(ClockingMode::Character);
    c.vma = 0x7D0;
    c.in_display_area = true;
    c.cycles = 0x123;
    c.cursor_attr = 1;
    c.snow_count = 42;
    let state = c.get_videocard_string_state();
    let r = &state[2].1;
    assert_eq!((r[7].0.as_str(), text(&r[7].1)), ("vma:", "07D0"));
    assert_eq!((r[8].0.as_str(), text(&r[8].1)), ("vma':", "0000"));
    assert_eq!((r[11].0.as_str(), text(&r[11].1)), ("de:", "true"));
    assert_eq!((r[21].0.as_str(), text(&r[21].1)), ("phase:", "3"));
    assert_eq!((r[22].0.as_str(), text(&r[22].1)), ("cursor attr:", "01"));
    assert_eq!((r[23].0.as_str(), text(&r[23].1)), ("snowflakes:", "42"));
}
