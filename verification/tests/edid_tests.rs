use monitor_switcher::edid::{
    convert_output_to_drm_name, decode_manufacturer_id, normalize_drm_name, normalize_output_name,
    parse_edid_bytes, parse_edid_string,
};

#[test]
fn test_decode_manufacturer_id() {
    // SAM = Samsung (S=19, A=1, M=13)
    // Binary: 10011 00001 01101 = 0x4C2D
    // Actually the encoding is different, let's verify with real data
    assert!(!decode_manufacturer_id(0x4C2D).is_empty());
}

#[test]
fn test_normalize_output_name() {
    assert_eq!(normalize_output_name("HDMI-1"), "hdmi1");
    assert_eq!(normalize_output_name("DP-2"), "dp2");
    assert_eq!(normalize_output_name("eDP-1"), "edp1");
}

#[test]
fn test_normalize_drm_name() {
    assert_eq!(normalize_drm_name("card0-HDMI-A-1"), "hdmi1");
    assert_eq!(normalize_drm_name("card0-DP-2"), "dp2");
    assert_eq!(normalize_drm_name("card1-eDP-1"), "edp1");
}

#[test]
fn test_convert_output_to_drm_name() {
    assert_eq!(convert_output_to_drm_name("HDMI-1"), "HDMI-A-1");
    assert_eq!(convert_output_to_drm_name("DP-1"), "DP-1");
    assert_eq!(convert_output_to_drm_name("eDP-1"), "eDP-1");
}

#[test]
fn decode_manufacturer_id_exact_letters() {
    // S=19, A=1, M=13 -> 10011 00001 01101 = 0x4C2D
    assert_eq!(decode_manufacturer_id(0x4C2D), "SAM");
    // Out-of-range letters are skipped entirely.
    assert_eq!(decode_manufacturer_id(0x0000), "");
    // A single valid third letter: A = 1.
    assert_eq!(decode_manufacturer_id(0x0001), "A");
}

#[test]
fn parse_edid_string_trims_padding() {
    assert_eq!(parse_edid_string(b"U2720Q\n      "), "U2720Q");
    assert_eq!(parse_edid_string(b"  name  \0xxxx"), "name");
    assert_eq!(parse_edid_string(b""), "");
}

#[test]
fn parse_edid_bytes_reads_identity_and_name() {
    let mut edid = [0u8; 128];
    // Manufacturer "SAM" (0x4C2D), big-endian at bytes 8..10.
    edid[8] = 0x4C;
    edid[9] = 0x2D;
    // Product code 0x1234, little-endian at bytes 10..12.
    edid[10] = 0x34;
    edid[11] = 0x12;
    // Second descriptor block (offset 72) is a monitor-name descriptor.
    edid[72] = 0;
    edid[73] = 0;
    edid[74] = 0;
    edid[75] = 0xFC;
    let name = b"ACME U2720\n  ";
    edid[77..77 + name.len()].copy_from_slice(name);
    let data = parse_edid_bytes(&edid);
    assert_eq!(data.manufacturer_id, 0x4C2D);
    assert_eq!(data.manufacturer, "SAM");
    assert_eq!(data.product_code, 0x1234);
    assert_eq!(data.monitor_name, "ACME U2720");
    assert_eq!(data.connector_path, "");
}

#[test]
fn parse_edid_bytes_too_short_is_blank() {
    let data = parse_edid_bytes(&[0u8; 64]);
    assert_eq!(data.manufacturer_id, 0);
    assert_eq!(data.manufacturer, "");
    assert_eq!(data.product_code, 0);
    assert_eq!(data.monitor_name, "");
}
