//! The MDA's debug state: its registers and internal counters as labelled
//! text, in three sections, as the emulator's debug views display them.
use vstd::prelude::*;

use crate::devices::mda::MDACard;
use crate::strfmt::{bin_text, bool_text, dec_text, format_bin, format_bool, format_dec, format_hex, hex_text};
use crate::videocard::{
    crtc_register_name, crtc_register_name_spec, display_mode_name, display_mode_name_spec,
    entries_view, push_entry, section_view, video_type_name, video_type_name_spec, CRTCRegister,
    VideoCardStateEntry, VideoType,
};

verus! {

/// The entry for CRTC register `reg`: its number and name, and its value in decimal.
pub open spec fn reg_entry(decorator: Seq<char>, reg: CRTCRegister, val: u8) -> (Seq<char>, Seq<char>) {
    (decorator + " "@ + crtc_register_name_spec(reg), dec_text(val as nat))
}

/// The "General" section: adapter, mode, enable, clock divisor, frame count.
pub open spec fn general_state_spec(card: MDACard) -> Seq<(Seq<char>, Seq<char>)> {
    seq![
        ("Adapter Type:"@, video_type_name_spec(VideoType::MDA)),
        ("Display Mode:"@, display_mode_name_spec(card.display_mode)),
        ("Video Enable:"@, bool_text(card.mode_enable)),
        ("Clock Divisor:"@, dec_text(card.clock_divisor as nat)),
        ("Frame Count:"@, dec_text(card.frame_count as nat)),
    ]
}

/// The "CRTC" section: the CRTC registers R0 to R15, with the latched start
/// address in hexadecimal before the cursor address registers.
pub open spec fn crtc_state_spec(card: MDACard) -> Seq<(Seq<char>, Seq<char>)> {
    seq![
        reg_entry("[R0]"@, CRTCRegister::HorizontalTotal, card.crtc_horizontal_total),
        reg_entry("[R1]"@, CRTCRegister::HorizontalDisplayed, card.crtc_horizontal_displayed),
        reg_entry("[R2]"@, CRTCRegister::HorizontalSyncPosition, card.crtc_horizontal_sync_pos),
        reg_entry("[R3]"@, CRTCRegister::SyncWidth, card.crtc_sync_width),
        reg_entry("[R4]"@, CRTCRegister::VerticalTotal, card.crtc_vertical_total),
        reg_entry("[R5]"@, CRTCRegister::VerticalTotalAdjust, card.crtc_vertical_total_adjust),
        reg_entry("[R6]"@, CRTCRegister::VerticalDisplayed, card.crtc_vertical_displayed),
        reg_entry("[R7]"@, CRTCRegister::VerticalSync, card.crtc_vertical_sync_pos),
        reg_entry("[R8]"@, CRTCRegister::InterlaceMode, card.crtc_interlace_mode),
        reg_entry("[R9]"@, CRTCRegister::MaximumScanLineAddress, card.crtc_maximum_scanline_address),
        reg_entry("[R10]"@, CRTCRegister::CursorStartLine, card.crtc_cursor_start_line),
        reg_entry("[R11]"@, CRTCRegister::CursorEndLine, card.crtc_cursor_end_line),
        reg_entry("[R12]"@, CRTCRegister::StartAddressH, card.crtc_start_address_ho),
        reg_entry("[R13]"@, CRTCRegister::StartAddressL, card.crtc_start_address_lo),
        ("Start Address"@, hex_text(card.crtc_start_address as nat, 4)),
        reg_entry("[R14]"@, CRTCRegister::CursorAddressH, card.crtc_cursor_address_ho),
        reg_entry("[R15]"@, CRTCRegister::CursorAddressL, card.crtc_cursor_address_lo),
    ]
}

/// The "Internal" section: the CRTC counters, raster state and statistics.
pub open spec fn internal_state_spec(card: MDACard) -> Seq<(Seq<char>, Seq<char>)> {
    seq![
        ("hcc_c0:"@, dec_text(card.hcc_c0 as nat)),
        ("vlc_c9:"@, dec_text(card.vlc_c9 as nat)),
        ("vcc_c4:"@, dec_text(card.vcc_c4 as nat)),
        ("scanline:"@, dec_text(card.scanline as nat)),
        ("vsc_c3h:"@, dec_text(card.vsc_c3h as nat)),
        ("hsc_c3l:"@, dec_text(card.hsc_c3l as nat)),
        ("vtac_c5:"@, dec_text(card.vtac_c5 as nat)),
        ("vma:"@, hex_text(card.vma as nat, 4)),
        ("vma':"@, hex_text(card.vma_t as nat, 4)),
        ("vmws:"@, dec_text(card.vmws as nat)),
        ("rba:"@, hex_text(card.rba as nat, 4)),
        ("de:"@, bool_text(card.in_display_area)),
        ("crtc_hblank:"@, bool_text(card.in_crtc_hblank)),
        ("crtc_vblank:"@, bool_text(card.in_crtc_vblank)),
        ("beam_x:"@, dec_text(card.beam_x as nat)),
        ("beam_y:"@, dec_text(card.beam_y as nat)),
        ("border:"@, bool_text(card.hborder)),
        ("s_reads:"@, dec_text(card.status_reads as nat)),
        ("missed_hsyncs:"@, dec_text(card.missed_hsyncs as nat)),
        ("vsync_cycles:"@, dec_text(card.cycles_per_vsync as nat)),
        ("cur_screen_cycles:"@, dec_text(card.cur_screen_cycles as nat)),
        ("phase:"@, dec_text((card.cycles & 0x0F) as nat)),
        ("cursor attr:"@, bin_text(card.cursor_attr as nat, 2)),
        ("snowflakes:"@, dec_text(card.snow_count as nat)),
    ]
}

/// The whole debug state: the three sections, in order.
pub open spec fn string_state_spec(card: MDACard) -> Seq<(Seq<char>, Seq<(Seq<char>, Seq<char>)>)> {
    seq![
        ("General"@, general_state_spec(card)),
        ("CRTC"@, crtc_state_spec(card)),
        ("Internal"@, internal_state_spec(card)),
    ]
}

/// The "General" section, entry by entry: the adapter type MDA, the display
/// mode's name, the video enable flag, the clock divisor and the frame count.
pub proof fn lemma_general_section(card: MDACard)
    ensures
        string_state_spec(card).len() == 3,
        string_state_spec(card)[0].0 == "General"@,
        string_state_spec(card)[0].1.len() == 5,
        string_state_spec(card)[0].1[0] == ("Adapter Type:"@, "MDA"@),
        string_state_spec(card)[0].1[1] == ("Display Mode:"@, display_mode_name_spec(card.display_mode)),
        string_state_spec(card)[0].1[2] == ("Video Enable:"@, bool_text(card.mode_enable)),
        string_state_spec(card)[0].1[3] == ("Clock Divisor:"@, dec_text(card.clock_divisor as nat)),
        string_state_spec(card)[0].1[4] == ("Frame Count:"@, dec_text(card.frame_count as nat)),
{
}

/// The "CRTC" section, entry by entry: each register R0 to R15 labelled with
/// its number and name and showing, in decimal, the field that holds that
/// register; the latched start address in four hexadecimal digits stands
/// between R13 and R14.
pub proof fn lemma_crtc_section(card: MDACard)
    ensures
        string_state_spec(card)[1].0 == "CRTC"@,
        string_state_spec(card)[1].1.len() == 17,
        string_state_spec(card)[1].1[0] == ("[R0]"@ + " "@ + "HorizontalTotal"@, dec_text(card.crtc_horizontal_total as nat)),
        string_state_spec(card)[1].1[1] == ("[R1]"@ + " "@ + "HorizontalDisplayed"@, dec_text(card.crtc_horizontal_displayed as nat)),
        string_state_spec(card)[1].1[2] == ("[R2]"@ + " "@ + "HorizontalSyncPosition"@, dec_text(card.crtc_horizontal_sync_pos as nat)),
        string_state_spec(card)[1].1[3] == ("[R3]"@ + " "@ + "SyncWidth"@, dec_text(card.crtc_sync_width as nat)),
        string_state_spec(card)[1].1[4] == ("[R4]"@ + " "@ + "VerticalTotal"@, dec_text(card.crtc_vertical_total as nat)),
        string_state_spec(card)[1].1[5] == ("[R5]"@ + " "@ + "VerticalTotalAdjust"@, dec_text(card.crtc_vertical_total_adjust as nat)),
        string_state_spec(card)[1].1[6] == ("[R6]"@ + " "@ + "VerticalDisplayed"@, dec_text(card.crtc_vertical_displayed as nat)),
        string_state_spec(card)[1].1[7] == ("[R7]"@ + " "@ + "VerticalSync"@, dec_text(card.crtc_vertical_sync_pos as nat)),
        string_state_spec(card)[1].1[8] == ("[R8]"@ + " "@ + "InterlaceMode"@, dec_text(card.crtc_interlace_mode as nat)),
        string_state_spec(card)[1].1[9] == ("[R9]"@ + " "@ + "MaximumScanLineAddress"@, dec_text(card.crtc_maximum_scanline_address as nat)),
        string_state_spec(card)[1].1[10] == ("[R10]"@ + " "@ + "CursorStartLine"@, dec_text(card.crtc_cursor_start_line as nat)),
        string_state_spec(card)[1].1[11] == ("[R11]"@ + " "@ + "CursorEndLine"@, dec_text(card.crtc_cursor_end_line as nat)),
        string_state_spec(card)[1].1[12] == ("[R12]"@ + " "@ + "StartAddressH"@, dec_text(card.crtc_start_address_ho as nat)),
        string_state_spec(card)[1].1[13] == ("[R13]"@ + " "@ + "StartAddressL"@, dec_text(card.crtc_start_address_lo as nat)),
        string_state_spec(card)[1].1[14] == ("Start Address"@, hex_text(card.crtc_start_address as nat, 4)),
        string_state_spec(card)[1].1[15] == ("[R14]"@ + " "@ + "CursorAddressH"@, dec_text(card.crtc_cursor_address_ho as nat)),
        string_state_spec(card)[1].1[16] == ("[R15]"@ + " "@ + "CursorAddressL"@, dec_text(card.crtc_cursor_address_lo as nat)),
{
}

/// The "Internal" section, entry by entry: the CRTC counters, raster flags,
/// beam position and statistics, each under its label; the memory addresses in
/// four hexadecimal digits, the character-clock phase as the low four bits of
/// the dot count, and the cursor attribute in two binary digits.
pub proof fn lemma_internal_section(card: MDACard)
    ensures
        string_state_spec(card)[2].0 == "Internal"@,
        string_state_spec(card)[2].1.len() == 24,
        string_state_spec(card)[2].1[0] == ("hcc_c0:"@, dec_text(card.hcc_c0 as nat)),
        string_state_spec(card)[2].1[1] == ("vlc_c9:"@, dec_text(card.vlc_c9 as nat)),
        string_state_spec(card)[2].1[2] == ("vcc_c4:"@, dec_text(card.vcc_c4 as nat)),
        string_state_spec(card)[2].1[3] == ("scanline:"@, dec_text(card.scanline as nat)),
        string_state_spec(card)[2].1[4] == ("vsc_c3h:"@, dec_text(card.vsc_c3h as nat)),
        string_state_spec(card)[2].1[5] == ("hsc_c3l:"@, dec_text(card.hsc_c3l as nat)),
        string_state_spec(card)[2].1[6] == ("vtac_c5:"@, dec_text(card.vtac_c5 as nat)),
        string_state_spec(card)[2].1[7] == ("vma:"@, hex_text(card.vma as nat, 4)),
        string_state_spec(card)[2].1[8] == ("vma':"@, hex_text(card.vma_t as nat, 4)),
        string_state_spec(card)[2].1[9] == ("vmws:"@, dec_text(card.vmws as nat)),
        string_state_spec(card)[2].1[10] == ("rba:"@, hex_text(card.rba as nat, 4)),
        string_state_spec(card)[2].1[11] == ("de:"@, bool_text(card.in_display_area)),
        string_state_spec(card)[2].1[12] == ("crtc_hblank:"@, bool_text(card.in_crtc_hblank)),
        string_state_spec(card)[2].1[13] == ("crtc_vblank:"@, bool_text(card.in_crtc_vblank)),
        string_state_spec(card)[2].1[14] == ("beam_x:"@, dec_text(card.beam_x as nat)),
        string_state_spec(card)[2].1[15] == ("beam_y:"@, dec_text(card.beam_y as nat)),
        string_state_spec(card)[2].1[16] == ("border:"@, bool_text(card.hborder)),
        string_state_spec(card)[2].1[17] == ("s_reads:"@, dec_text(card.status_reads as nat)),
        string_state_spec(card)[2].1[18] == ("missed_hsyncs:"@, dec_text(card.missed_hsyncs as nat)),
        string_state_spec(card)[2].1[19] == ("vsync_cycles:"@, dec_text(card.cycles_per_vsync as nat)),
        string_state_spec(card)[2].1[20] == ("cur_screen_cycles:"@, dec_text(card.cur_screen_cycles as nat)),
        string_state_spec(card)[2].1[21] == ("phase:"@, dec_text((card.cycles & 0x0F) as nat)),
        string_state_spec(card)[2].1[22] == ("cursor attr:"@, bin_text(card.cursor_attr as nat, 2)),
        string_state_spec(card)[2].1[23] == ("snowflakes:"@, dec_text(card.snow_count as nat)),
{
}

/// Appends the entry for CRTC register `reg`.
fn push_reg_str(
    entries: &mut Vec<(String, VideoCardStateEntry)>,
    reg: CRTCRegister,
    decorator: &str,
    val: u8,
)
    ensures
        entries_view(final(entries)@) == entries_view(old(entries)@).push(
            reg_entry(decorator@, reg, val),
        ),
{
    let mut label = String::from_str(decorator);
    label.append(" ");
    label.append(crtc_register_name(reg));
    push_entry(entries, label, format_dec(val as u64));
}

/// Appends an entry labelled `label`.
fn push_str(entries: &mut Vec<(String, VideoCardStateEntry)>, label: &str, text: String)
    ensures
        entries_view(final(entries)@) == entries_view(old(entries)@).push((label@, text@)),
{
    push_entry(entries, String::from_str(label), text);
}

impl MDACard {
    /// The "General" section of the debug state.
    fn general_state(&self) -> (entries: Vec<(String, VideoCardStateEntry)>)
        ensures
            entries_view(entries@) == general_state_spec(*self),
    {
        let mut v: Vec<(String, VideoCardStateEntry)> = Vec::new();
        assert(entries_view(v@) =~= Seq::<(Seq<char>, Seq<char>)>::empty());
        push_str(&mut v, "Adapter Type:", String::from_str(video_type_name(self.get_video_type())));
        push_str(&mut v, "Display Mode:", String::from_str(display_mode_name(self.get_display_mode())));
        push_str(&mut v, "Video Enable:", format_bool(self.mode_enable));
        push_str(&mut v, "Clock Divisor:", format_dec(self.clock_divisor as u64));
        push_str(&mut v, "Frame Count:", format_dec(self.frame_count));
        assert(entries_view(v@) =~= general_state_spec(*self));
        v
    }

    /// The "CRTC" section of the debug state.
    fn crtc_state(&self) -> (entries: Vec<(String, VideoCardStateEntry)>)
        ensures
            entries_view(entries@) == crtc_state_spec(*self),
    {
        let mut v: Vec<(String, VideoCardStateEntry)> = Vec::new();
        assert(entries_view(v@) =~= Seq::<(Seq<char>, Seq<char>)>::empty());
        push_reg_str(&mut v, CRTCRegister::HorizontalTotal, "[R0]", self.crtc_horizontal_total);
        push_reg_str(&mut v, CRTCRegister::HorizontalDisplayed, "[R1]", self.crtc_horizontal_displayed);
        push_reg_str(&mut v, CRTCRegister::HorizontalSyncPosition, "[R2]", self.crtc_horizontal_sync_pos);
        push_reg_str(&mut v, CRTCRegister::SyncWidth, "[R3]", self.crtc_sync_width);
        push_reg_str(&mut v, CRTCRegister::VerticalTotal, "[R4]", self.crtc_vertical_total);
        push_reg_str(&mut v, CRTCRegister::VerticalTotalAdjust, "[R5]", self.crtc_vertical_total_adjust);
        push_reg_str(&mut v, CRTCRegister::VerticalDisplayed, "[R6]", self.crtc_vertical_displayed);
        push_reg_str(&mut v, CRTCRegister::VerticalSync, "[R7]", self.crtc_vertical_sync_pos);
        push_reg_str(&mut v, CRTCRegister::InterlaceMode, "[R8]", self.crtc_interlace_mode);
        push_reg_str(&mut v, CRTCRegister::MaximumScanLineAddress, "[R9]", self.crtc_maximum_scanline_address);
        push_reg_str(&mut v, CRTCRegister::CursorStartLine, "[R10]", self.crtc_cursor_start_line);
        push_reg_str(&mut v, CRTCRegister::CursorEndLine, "[R11]", self.crtc_cursor_end_line);
        push_reg_str(&mut v, CRTCRegister::StartAddressH, "[R12]", self.crtc_start_address_ho);
        push_reg_str(&mut v, CRTCRegister::StartAddressL, "[R13]", self.crtc_start_address_lo);
        push_str(&mut v, "Start Address", format_hex(self.crtc_start_address as u64, 4));
        push_reg_str(&mut v, CRTCRegister::CursorAddressH, "[R14]", self.crtc_cursor_address_ho);
        push_reg_str(&mut v, CRTCRegister::CursorAddressL, "[R15]", self.crtc_cursor_address_lo);
        assert(entries_view(v@) =~= crtc_state_spec(*self));
        v
    }

    /// The "Internal" section of the debug state.
    fn internal_state(&self) -> (entries: Vec<(String, VideoCardStateEntry)>)
        ensures
            entries_view(entries@) == internal_state_spec(*self),
    {
        let mut v: Vec<(String, VideoCardStateEntry)> = Vec::new();
        assert(entries_view(v@) =~= Seq::<(Seq<char>, Seq<char>)>::empty());
        push_str(&mut v, "hcc_c0:", format_dec(self.hcc_c0 as u64));
        push_str(&mut v, "vlc_c9:", format_dec(self.vlc_c9 as u64));
        push_str(&mut v, "vcc_c4:", format_dec(self.vcc_c4 as u64));
        push_str(&mut v, "scanline:", format_dec(self.scanline as u64));
        push_str(&mut v, "vsc_c3h:", format_dec(self.vsc_c3h as u64));
        push_str(&mut v, "hsc_c3l:", format_dec(self.hsc_c3l as u64));
        push_str(&mut v, "vtac_c5:", format_dec(self.vtac_c5 as u64));
        push_str(&mut v, "vma:", format_hex(self.vma as u64, 4));
        push_str(&mut v, "vma':", format_hex(self.vma_t as u64, 4));
        push_str(&mut v, "vmws:", format_dec(self.vmws as u64));
        push_str(&mut v, "rba:", format_hex(self.rba as u64, 4));
        push_str(&mut v, "de:", format_bool(self.in_display_area));
        push_str(&mut v, "crtc_hblank:", format_bool(self.in_crtc_hblank));
        push_str(&mut v, "crtc_vblank:", format_bool(self.in_crtc_vblank));
        push_str(&mut v, "beam_x:", format_dec(self.beam_x as u64));
        push_str(&mut v, "beam_y:", format_dec(self.beam_y as u64));
        push_str(&mut v, "border:", format_bool(self.hborder));
        push_str(&mut v, "s_reads:", format_dec(self.status_reads as u64));
        push_str(&mut v, "missed_hsyncs:", format_dec(self.missed_hsyncs as u64));
        push_str(&mut v, "vsync_cycles:", format_dec(self.cycles_per_vsync as u64));
        push_str(&mut v, "cur_screen_cycles:", format_dec(self.cur_screen_cycles as u64));
        push_str(&mut v, "phase:", format_dec(self.cycles & 0x0F));
        push_str(&mut v, "cursor attr:", format_bin(self.cursor_attr as u64, 2));
        push_str(&mut v, "snowflakes:", format_dec(self.snow_count as u64));
        assert(entries_view(v@) =~= internal_state_spec(*self));
        v
    }

    /// The card's registers and internal state as labelled text, in three
    /// sections: "General", "CRTC" and "Internal".
    pub fn get_videocard_string_state(&self) -> (state: Vec<(String, Vec<(String, VideoCardStateEntry)>)>)
        ensures
            state@.map_values(|s: (String, Vec<(String, VideoCardStateEntry)>)| section_view(s))
                == string_state_spec(*self),
    {
        let mut map: Vec<(String, Vec<(String, VideoCardStateEntry)>)> = Vec::new();
        let general_vec = self.general_state();
        map.push((String::from_str("General"), general_vec));
        let crtc_vec = self.crtc_state();
        map.push((String::from_str("CRTC"), crtc_vec));
        let internal_vec = self.internal_state();
        map.push((String::from_str("Internal"), internal_vec));
        assert(map@.map_values(|s: (String, Vec<(String, VideoCardStateEntry)>)| section_view(s))
            =~= string_state_spec(*self));
        map
    }
}

} // verus!
