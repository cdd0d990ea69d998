//! Types shared by the video cards: what a card reports about itself to the
//! rest of the emulator.
use vstd::prelude::*;

verus! {

/// The kind of adapter a card emulates.
#[derive(Copy, Clone, Debug, PartialEq, Eq, Structural)]
pub enum VideoType {
    MDA,
    CGA,
    EGA,
    VGA,
}

/// How the frontend obtains pixels from a card.
#[derive(Copy, Clone, Debug, PartialEq, Eq, Structural)]
pub enum RenderMode {
    Direct,
    Indirect,
}

/// Bits per pixel of a card's frame buffer.
#[derive(Copy, Clone, Debug, PartialEq, Eq, Structural)]
pub enum RenderBpp {
    Four,
    Six,
}

/// The display mode the card's mode registers select.
#[derive(Copy, Clone, Debug, PartialEq, Eq, Structural)]
pub enum DisplayMode {
    Disabled,
    Mode0TextBw40,
    Mode1TextCo40,
    Mode2TextBw80,
    Mode3TextCo80,
    ModeTextAndGraphicsHack,
    Mode4LowResGraphics,
    Mode5LowResAltPalette,
    Mode6HiResGraphics,
    Mode7LowResComposite,
    Mode8LowResTweaked,
}

/// The unit by which a card is clocked.
#[derive(Copy, Clone, Debug, PartialEq, Eq, Structural)]
pub enum ClockingMode {
    Default,
    Cycle,
    Character,
    Scanline,
    Dynamic,
}

/// A run-time option of a card.
#[derive(Copy, Clone, Debug, PartialEq, Eq, Structural)]
pub enum VideoOption {
    EnableSnow(bool),
}

/// Which of the two frame buffers is asked for.
#[derive(Copy, Clone, Debug, PartialEq, Eq, Structural)]
pub enum BufferSelect {
    Back,
    Front,
}

/// Where the text cursor stands and how it is drawn.
#[derive(Copy, Clone, Debug, PartialEq, Eq, Structural)]
pub struct CursorInfo {
    pub addr: usize,
    pub pos_x: u32,
    pub pos_y: u32,
    pub line_start: u8,
    pub line_end: u8,
    pub visible: bool,
}

/// The sixteen colors of the CGA palette.
#[derive(Copy, Clone, Debug, PartialEq, Eq, Structural)]
pub enum CGAColor {
    Black,
    Blue,
    Green,
    Cyan,
    Red,
    Magenta,
    Brown,
    White,
    BlackBright,
    BlueBright,
    GreenBright,
    CyanBright,
    RedBright,
    MagentaBright,
    Yellow,
    WhiteBright,
}

/// A CGA graphics palette, with its background (or foreground) color.
#[derive(Copy, Clone, Debug, PartialEq, Eq, Structural)]
pub enum CGAPalette {
    Monochrome(CGAColor),
    RedGreenYellow(CGAColor),
    MagentaCyanWhite(CGAColor),
    RedCyanWhite(CGAColor),
}

/// The registers of the 6845 CRT controller.
#[derive(Copy, Clone, Debug, PartialEq, Eq, Structural)]
pub enum CRTCRegister {
    HorizontalTotal,
    HorizontalDisplayed,
    HorizontalSyncPosition,
    SyncWidth,
    VerticalTotal,
    VerticalTotalAdjust,
    VerticalDisplayed,
    VerticalSync,
    InterlaceMode,
    MaximumScanLineAddress,
    CursorStartLine,
    CursorEndLine,
    StartAddressH,
    StartAddressL,
    CursorAddressH,
    CursorAddressL,
    LightPenPositionH,
    LightPenPositionL,
}

/// One value of a card's debug state, as displayed.
#[derive(Clone, Debug)]
pub enum VideoCardStateEntry {
    String(String),
}

/// The 16-color CGA color that a 4-bit color number selects.
pub open spec fn cga_color_spec(n: u8) -> CGAColor {
    let v = n % 16;
    if v == 0 {
        CGAColor::Black
    } else if v == 1 {
        CGAColor::Blue
    } else if v == 2 {
        CGAColor::Green
    } else if v == 3 {
        CGAColor::Cyan
    } else if v == 4 {
        CGAColor::Red
    } else if v == 5 {
        CGAColor::Magenta
    } else if v == 6 {
        CGAColor::Brown
    } else if v == 7 {
        CGAColor::White
    } else if v == 8 {
        CGAColor::BlackBright
    } else if v == 9 {
        CGAColor::BlueBright
    } else if v == 10 {
        CGAColor::GreenBright
    } else if v == 11 {
        CGAColor::CyanBright
    } else if v == 12 {
        CGAColor::RedBright
    } else if v == 13 {
        CGAColor::MagentaBright
    } else if v == 14 {
        CGAColor::Yellow
    } else {
        CGAColor::WhiteBright
    }
}

/// The color that the low four bits of `n` select.
pub fn cga_color_from_nibble(n: u8) -> (c: CGAColor)
    ensures
        c == cga_color_spec(n),
{
    assert(n & 0x0F == n % 16) by (bit_vector);
    match n & 0x0F {
        0b0000 => CGAColor::Black,
        0b0001 => CGAColor::Blue,
        0b0010 => CGAColor::Green,
        0b0011 => CGAColor::Cyan,
        0b0100 => CGAColor::Red,
        0b0101 => CGAColor::Magenta,
        0b0110 => CGAColor::Brown,
        0b0111 => CGAColor::White,
        0b1000 => CGAColor::BlackBright,
        0b1001 => CGAColor::BlueBright,
        0b1010 => CGAColor::GreenBright,
        0b1011 => CGAColor::CyanBright,
        0b1100 => CGAColor::RedBright,
        0b1101 => CGAColor::MagentaBright,
        0b1110 => CGAColor::Yellow,
        _ => CGAColor::WhiteBright,
    }
}

/// The name of an adapter type, as `{:?}` prints it.
pub open spec fn video_type_name_spec(t: VideoType) -> Seq<char> {
    match t {
        VideoType::MDA => "MDA"@,
        VideoType::CGA => "CGA"@,
        VideoType::EGA => "EGA"@,
        VideoType::VGA => "VGA"@,
    }
}

/// The name of an adapter type, as `{:?}` prints it.
pub fn video_type_name(t: VideoType) -> (name: &'static str)
    ensures
        name@ == video_type_name_spec(t),
{
    match t {
        VideoType::MDA => "MDA",
        VideoType::CGA => "CGA",
        VideoType::EGA => "EGA",
        VideoType::VGA => "VGA",
    }
}

/// The name of a display mode, as `{:?}` prints it.
pub open spec fn display_mode_name_spec(m: DisplayMode) -> Seq<char> {
    match m {
        DisplayMode::Disabled => "Disabled"@,
        DisplayMode::Mode0TextBw40 => "Mode0TextBw40"@,
        DisplayMode::Mode1TextCo40 => "Mode1TextCo40"@,
        DisplayMode::Mode2TextBw80 => "Mode2TextBw80"@,
        DisplayMode::Mode3TextCo80 => "Mode3TextCo80"@,
        DisplayMode::ModeTextAndGraphicsHack => "ModeTextAndGraphicsHack"@,
        DisplayMode::Mode4LowResGraphics => "Mode4LowResGraphics"@,
        DisplayMode::Mode5LowResAltPalette => "Mode5LowResAltPalette"@,
        DisplayMode::Mode6HiResGraphics => "Mode6HiResGraphics"@,
        DisplayMode::Mode7LowResComposite => "Mode7LowResComposite"@,
        DisplayMode::Mode8LowResTweaked => "Mode8LowResTweaked"@,
    }
}

/// The name of a display mode, as `{:?}` prints it.
pub fn display_mode_name(m: DisplayMode) -> (name: &'static str)
    ensures
        name@ == display_mode_name_spec(m),
{
    match m {
        DisplayMode::Disabled => "Disabled",
        DisplayMode::Mode0TextBw40 => "Mode0TextBw40",
        DisplayMode::Mode1TextCo40 => "Mode1TextCo40",
        DisplayMode::Mode2TextBw80 => "Mode2TextBw80",
        DisplayMode::Mode3TextCo80 => "Mode3TextCo80",
        DisplayMode::ModeTextAndGraphicsHack => "ModeTextAndGraphicsHack",
        DisplayMode::Mode4LowResGraphics => "Mode4LowResGraphics",
        DisplayMode::Mode5LowResAltPalette => "Mode5LowResAltPalette",
        DisplayMode::Mode6HiResGraphics => "Mode6HiResGraphics",
        DisplayMode::Mode7LowResComposite => "Mode7LowResComposite",
        DisplayMode::Mode8LowResTweaked => "Mode8LowResTweaked",
    }
}

/// The name of a CRTC register, as `{:?}` prints it.
pub open spec fn crtc_register_name_spec(r: CRTCRegister) -> Seq<char> {
    match r {
        CRTCRegister::HorizontalTotal => "HorizontalTotal"@,
        CRTCRegister::HorizontalDisplayed => "HorizontalDisplayed"@,
        CRTCRegister::HorizontalSyncPosition => "HorizontalSyncPosition"@,
        CRTCRegister::SyncWidth => "SyncWidth"@,
        CRTCRegister::VerticalTotal => "VerticalTotal"@,
        CRTCRegister::VerticalTotalAdjust => "VerticalTotalAdjust"@,
        CRTCRegister::VerticalDisplayed => "VerticalDisplayed"@,
        CRTCRegister::VerticalSync => "VerticalSync"@,
        CRTCRegister::InterlaceMode => "InterlaceMode"@,
        CRTCRegister::MaximumScanLineAddress => "MaximumScanLineAddress"@,
        CRTCRegister::CursorStartLine => "CursorStartLine"@,
        CRTCRegister::CursorEndLine => "CursorEndLine"@,
        CRTCRegister::StartAddressH => "StartAddressH"@,
        CRTCRegister::StartAddressL => "StartAddressL"@,
        CRTCRegister::CursorAddressH => "CursorAddressH"@,
        CRTCRegister::CursorAddressL => "CursorAddressL"@,
        CRTCRegister::LightPenPositionH => "LightPenPositionH"@,
        CRTCRegister::LightPenPositionL => "LightPenPositionL"@,
    }
}

/// The name of a CRTC register, as `{:?}` prints it.
pub fn crtc_register_name(r: CRTCRegister) -> (name: &'static str)
    ensures
        name@ == crtc_register_name_spec(r),
{
    match r {
        CRTCRegister::HorizontalTotal => "HorizontalTotal",
        CRTCRegister::HorizontalDisplayed => "HorizontalDisplayed",
        CRTCRegister::HorizontalSyncPosition => "HorizontalSyncPosition",
        CRTCRegister::SyncWidth => "SyncWidth",
        CRTCRegister::VerticalTotal => "VerticalTotal",
        CRTCRegister::VerticalTotalAdjust => "VerticalTotalAdjust",
        CRTCRegister::VerticalDisplayed => "VerticalDisplayed",
        CRTCRegister::VerticalSync => "VerticalSync",
        CRTCRegister::InterlaceMode => "InterlaceMode",
        CRTCRegister::MaximumScanLineAddress => "MaximumScanLineAddress",
        CRTCRegister::CursorStartLine => "CursorStartLine",
        CRTCRegister::CursorEndLine => "CursorEndLine",
        CRTCRegister::StartAddressH => "StartAddressH",
        CRTCRegister::StartAddressL => "StartAddressL",
        CRTCRegister::CursorAddressH => "CursorAddressH",
        CRTCRegister::CursorAddressL => "CursorAddressL",
        CRTCRegister::LightPenPositionH => "LightPenPositionH",
        CRTCRegister::LightPenPositionL => "LightPenPositionL",
    }
}

/// A state entry as a label and the text it displays.
pub open spec fn entry_view(e: (String, VideoCardStateEntry)) -> (Seq<char>, Seq<char>) {
    match e.1 {
        VideoCardStateEntry::String(s) => (e.0@, s@),
    }
}

/// A list of state entries as labels and texts.
pub open spec fn entries_view(v: Seq<(String, VideoCardStateEntry)>) -> Seq<(Seq<char>, Seq<char>)> {
    v.map_values(|e: (String, VideoCardStateEntry)| entry_view(e))
}

/// A named section of state entries, as its name and its labels and texts.
pub open spec fn section_view(s: (String, Vec<(String, VideoCardStateEntry)>)) -> (
    Seq<char>,
    Seq<(Seq<char>, Seq<char>)>,
) {
    (s.0@, entries_view(s.1@))
}

/// Appends an entry labelled `label` that displays `text`.
pub fn push_entry(entries: &mut Vec<(String, VideoCardStateEntry)>, label: String, text: String)
    ensures
        entries_view(final(entries)@) == entries_view(old(entries)@).push((label@, text@)),
{
    let ghost l = label@;
    let ghost t = text@;
    entries.push((label, VideoCardStateEntry::String(text)));
    assert(entries_view(entries@) =~= entries_view(old(entries)@).push((l, t)));
}

} // verus!
