//! EDID parsing: manufacturer, product code and monitor name from the raw
//! identity block, and the name conversions between display-server output
//! names and kernel connector names.

use crate::strutil::{
    contains_of, first_char, is_space_char, lower_of, match_at, push_char, replace_of, replace_str,
    str_contains, str_starts_with, substring, to_lowercase, trim, trim_of,
};
use vstd::prelude::*;
use vstd::slice::slice_subrange;

verus! {

/// Identity data parsed from an EDID block.
#[derive(Debug)]
pub struct EdidData {
    /// Three-letter manufacturer code (for instance "SAM").
    pub manufacturer: String,
    /// Numeric manufacturer ID, as stored in the block.
    pub manufacturer_id: u16,
    /// Product code.
    pub product_code: u16,
    /// Monitor name from the EDID descriptor blocks.
    pub monitor_name: String,
    /// Path to the kernel connector the block was read from.
    pub connector_path: String,
}

/// An identity record with every field empty or zero.
pub open spec fn edid_is_blank(d: EdidData) -> bool {
    &&& d.manufacturer@ == Seq::<char>::empty()
    &&& d.manufacturer_id == 0
    &&& d.product_code == 0
    &&& d.monitor_name@ == Seq::<char>::empty()
    &&& d.connector_path@ == Seq::<char>::empty()
}

impl Default for EdidData {
    /// A blank identity record.
    fn default() -> (r: Self)
        ensures
            edid_is_blank(r),
    {
        EdidData {
            manufacturer: String::new(),
            manufacturer_id: 0,
            product_code: 0,
            monitor_name: String::new(),
            connector_path: String::new(),
        }
    }
}

/// One letter of the manufacturer code: values 1 to 26 map to 'A' to 'Z',
/// anything else contributes nothing.
pub open spec fn spec_mfg_letter(c: u16) -> Seq<char> {
    if 1 <= c <= 26 {
        seq![((64 + c) as u8) as char]
    } else {
        Seq::<char>::empty()
    }
}

/// The three-letter manufacturer code packed into an EDID manufacturer ID,
/// five bits per letter, high bits first.
pub open spec fn spec_manufacturer(id: u16) -> Seq<char> {
    spec_mfg_letter((id >> 10) & 0x1F) + spec_mfg_letter((id >> 5) & 0x1F) + spec_mfg_letter(
        id & 0x1F,
    )
}

/// Decode the three-letter manufacturer code from an EDID manufacturer ID.
pub fn decode_manufacturer_id(id: u16) -> (r: String)
    ensures
        r@ == spec_manufacturer(id),
{
    let c1 = (id >> 10) & 0x1F;
    let c2 = (id >> 5) & 0x1F;
    let c3 = id & 0x1F;
    proof {
        assert((id >> 10) & 0x1F < 32 && (id >> 5) & 0x1F < 32 && id & 0x1F < 32) by (bit_vector);
    }
    let mut result = String::new();
    if c1 > 0 && c1 <= 26 {
        push_char(&mut result, ((64 + c1) as u8) as char);
    }
    if c2 > 0 && c2 <= 26 {
        push_char(&mut result, ((64 + c2) as u8) as char);
    }
    if c3 > 0 && c3 <= 26 {
        push_char(&mut result, ((64 + c3) as u8) as char);
    }
    assert(result@ =~= spec_manufacturer(id));
    result
}

/// Index of the first string terminator (newline or zero byte) at or after `i`.
pub open spec fn first_edid_terminator(s: Seq<u8>, i: int) -> int
    decreases s.len() - i,
{
    if i < 0 || i >= s.len() {
        s.len() as int
    } else if s[i] == 0x0A || s[i] == 0x00 {
        i
    } else {
        first_edid_terminator(s, i + 1)
    }
}

/// What an EDID text field decodes to: the bytes before the first terminator,
/// each read as one character, with surrounding white space removed.
pub open spec fn spec_edid_string(bytes: Seq<u8>) -> Seq<char> {
    trim_of(
        bytes.take(first_edid_terminator(bytes, 0)).map_values(|b: u8| b as char),
    )
}

/// Parse an EDID text field (space-padded, newline-terminated).
pub fn parse_edid_string(bytes: &[u8]) -> (r: String)
    ensures
        r@ == spec_edid_string(bytes@),
{
    let len = bytes.len();
    let mut s = String::new();
    let mut i: usize = 0;
    while i < len && bytes[i] != 0x0A && bytes[i] != 0x00
        invariant
            len == bytes@.len(),
            0 <= i <= len,
            s@ == bytes@.take(i as int).map_values(|b: u8| b as char),
            first_edid_terminator(bytes@, 0) == first_edid_terminator(bytes@, i as int),
        decreases len - i,
    {
        push_char(&mut s, bytes[i] as char);
        assert(s@ =~= bytes@.take(i + 1 as int).map_values(|b: u8| b as char));
        i += 1;
    }
    assert(bytes@.take(i as int) =~= bytes@.take(first_edid_terminator(bytes@, 0)));
    trim(s.as_str())
}

/// The EDID manufacturer ID: bytes 8 and 9, big-endian.
pub open spec fn spec_edid_mfg_id(s: Seq<u8>) -> u16 {
    ((s[8] as u16) << 8) | (s[9] as u16)
}

/// The EDID product code: bytes 10 and 11, little-endian.
pub open spec fn spec_edid_product_code(s: Seq<u8>) -> u16 {
    (s[10] as u16) | ((s[11] as u16) << 8)
}

/// The descriptor block at `off` is a monitor-name descriptor.
pub open spec fn descriptor_is_name(s: Seq<u8>, off: int) -> bool {
    s[off] == 0 && s[off + 1] == 0 && s[off + 2] == 0 && s[off + 3] == 0xFC
}

/// The monitor name from the first name descriptor among the four descriptor
/// blocks, decoded as an EDID text field; empty when none carries a name.
pub open spec fn spec_edid_monitor_name(s: Seq<u8>, i: int) -> Seq<char>
    decreases 4 - i,
{
    if i < 0 || i >= 4 {
        Seq::<char>::empty()
    } else if 54 + i * 18 + 18 <= s.len() && descriptor_is_name(s, 54 + i * 18) {
        spec_edid_string(s.subrange(54 + i * 18 + 5, 54 + i * 18 + 18))
    } else {
        spec_edid_monitor_name(s, i + 1)
    }
}

/// Parse an EDID block: manufacturer, product code and monitor name. A block
/// shorter than the 128-byte base block yields a blank record.
pub fn parse_edid_bytes(bytes: &[u8]) -> (r: EdidData)
    ensures
        bytes@.len() >= 128 ==> r.manufacturer_id == spec_edid_mfg_id(bytes@) && r.manufacturer@
            == spec_manufacturer(spec_edid_mfg_id(bytes@)) && r.product_code
            == spec_edid_product_code(bytes@) && r.monitor_name@ == spec_edid_monitor_name(
            bytes@,
            0,
        ) && r.connector_path@ == Seq::<char>::empty(),
        bytes@.len() < 128 ==> edid_is_blank(r),
{
    let len = bytes.len();
    if len < 128 {
        return EdidData::default();
    }
    let mfg_id = ((bytes[8] as u16) << 8) | (bytes[9] as u16);
    let product_code = (bytes[10] as u16) | ((bytes[11] as u16) << 8);
    let manufacturer = decode_manufacturer_id(mfg_id);
    let mut monitor_name = String::new();
    let mut i: usize = 0;
    let mut found = false;
    while i < 4 && !found
        invariant
            len == bytes@.len(),
            len >= 128,
            0 <= i <= 4,
            !found ==> monitor_name@ == Seq::<char>::empty() && spec_edid_monitor_name(bytes@, 0)
                == spec_edid_monitor_name(bytes@, i as int),
            found ==> monitor_name@ == spec_edid_monitor_name(bytes@, 0),
        decreases 4 - i, (if found { 0int } else { 1int }),
    {
        let offset = 54 + i * 18;
        if offset + 18 <= len {
            if bytes[offset] == 0 && bytes[offset + 1] == 0 && bytes[offset + 2] == 0
                && bytes[offset + 3] == 0xFC {
                let name_bytes = slice_subrange(bytes, offset + 5, offset + 18);
                monitor_name = parse_edid_string(name_bytes);
                found = true;
            }
        }
        i += 1;
    }
    EdidData { manufacturer, manufacturer_id: mfg_id, product_code, monitor_name, connector_path: String::new() }
}

/// What an output name normalizes to for comparison: lowercased, with the
/// "-a-" connector-type infix and every dash removed.
pub open spec fn spec_normalize_output_name(name: Seq<char>) -> Seq<char> {
    replace_of(replace_of(lower_of(name), "-a-"@, ""@), "-"@, ""@)
}

/// Normalize a display-server output name for comparison ("HDMI-1" to "hdmi1").
pub fn normalize_output_name(name: &str) -> (r: String)
    ensures
        r@ == spec_normalize_output_name(name@),
{
    proof {
        reveal_strlit("-a-");
        reveal_strlit("-");
    }
    let low = to_lowercase(name);
    let no_infix = replace_str(low.as_str(), "-a-", "");
    replace_str(no_infix.as_str(), "-", "")
}

/// What a kernel connector name normalizes to: lowercased, with the leading
/// card prefix (through the first dash) dropped, then as an output name.
pub open spec fn spec_normalize_drm_name(name: Seq<char>) -> Seq<char> {
    let low = lower_of(name);
    let cut = if first_char(low, '-', 0) < low.len() {
        low.skip(first_char(low, '-', 0) + 1)
    } else {
        low
    };
    replace_of(replace_of(cut, "-a-"@, ""@), "-"@, ""@)
}

/// Normalize a kernel connector name for comparison ("card0-HDMI-A-1" to "hdmi1").
pub fn normalize_drm_name(name: &str) -> (r: String)
    ensures
        r@ == spec_normalize_drm_name(name@),
{
    proof {
        reveal_strlit("-a-");
        reveal_strlit("-");
    }
    let low = to_lowercase(name);
    let llen = low.as_str().unicode_len();
    let pos = crate::strutil::find_char(low.as_str(), '-');
    let cut = if pos < llen {
        let c = substring(low.as_str(), pos + 1, llen);
        assert(c@ =~= low@.skip(first_char(low@, '-', 0) + 1));
        c
    } else {
        low
    };
    let no_infix = replace_str(cut.as_str(), "-a-", "");
    replace_str(no_infix.as_str(), "-", "")
}

/// What an output name converts to as a kernel connector name: HDMI outputs
/// gain the "-A-" connector-type infix, everything else is kept.
pub open spec fn spec_convert_output_to_drm_name(name: Seq<char>) -> Seq<char> {
    if "HDMI-"@.len() <= name.len() && name.take("HDMI-"@.len() as int) == "HDMI-"@ && !contains_of(
        name,
        "HDMI-A-"@,
    ) {
        replace_of(name, "HDMI-"@, "HDMI-A-"@)
    } else {
        name
    }
}

/// Convert a display-server output name to the kernel connector form
/// ("HDMI-1" to "HDMI-A-1").
pub fn convert_output_to_drm_name(output_name: &str) -> (r: String)
    ensures
        r@ == spec_convert_output_to_drm_name(output_name@),
{
    proof {
        reveal_strlit("HDMI-");
        reveal_strlit("HDMI-A-");
    }
    if str_starts_with(output_name, "HDMI-") && !str_contains(output_name, "HDMI-A-") {
        replace_str(output_name, "HDMI-", "HDMI-A-")
    } else {
        output_name.to_owned()
    }
}

} // verus!
