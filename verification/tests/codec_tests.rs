use monitor_switcher::api::{DisplaySettings, MonitorAdditionalInfo};
use monitor_switcher::ccd::{
    DisplayConfig2DRegion, DisplayConfigModeInfo, DisplayConfigPathInfo,
    DisplayConfigPathSourceInfo, DisplayConfigPathTargetInfo, DisplayConfigRational,
    DisplayConfigSourceMode, DisplayConfigTargetMode, DisplayConfigVideoSignalInfo, ModeData,
    PointL, LUID, MODE_INFO_TYPE_SOURCE, MODE_INFO_TYPE_TARGET,
};
use monitor_switcher::convert::{
    mode_info_from_json, mode_info_to_json, path_info_from_json, path_info_to_json,
    profile_to_settings, settings_to_profile,
};
use monitor_switcher::profile::DpiScaleInfo;

fn sample_path() -> DisplayConfigPathInfo {
    DisplayConfigPathInfo {
        source_info: DisplayConfigPathSourceInfo {
            adapter_id: LUID { low_part: 11, high_part: 22 },
            id: 5,
            mode_info_idx: 0,
            status_flags: 3,
        },
        target_info: DisplayConfigPathTargetInfo {
            adapter_id: LUID { low_part: 11, high_part: 22 },
            id: 9,
            mode_info_idx: 1,
            output_technology: 10,
            rotation: 2,
            scaling: 4,
            refresh_rate: DisplayConfigRational { numerator: 144000, denominator: 1001 },
            scan_line_ordering: 1,
            target_available: 1,
            status_flags: 7,
        },
        flags: 1,
    }
}

fn sample_source_mode() -> DisplayConfigModeInfo {
    DisplayConfigModeInfo {
        info_type: MODE_INFO_TYPE_SOURCE,
        id: 5,
        adapter_id: LUID { low_part: 11, high_part: 22 },
        mode_data: ModeData::Source(DisplayConfigSourceMode {
            width: 2560,
            height: 1440,
            pixel_format: 2,
            position: PointL { x: -1920, y: 30 },
        }),
    }
}

fn sample_target_mode() -> DisplayConfigModeInfo {
    DisplayConfigModeInfo {
        info_type: MODE_INFO_TYPE_TARGET,
        id: 9,
        adapter_id: LUID { low_part: 11, high_part: 22 },
        mode_data: ModeData::Target(DisplayConfigTargetMode {
            target_video_signal_info: DisplayConfigVideoSignalInfo {
                pixel_rate: 0xFFFF_FFFF_FFFF_0000,
                h_sync_freq: DisplayConfigRational { numerator: 88787, denominator: 1000 },
                v_sync_freq: DisplayConfigRational { numerator: 60000, denominator: 1001 },
                active_size: DisplayConfig2DRegion { cx: 2560, cy: 1440 },
                total_size: DisplayConfig2DRegion { cx: 2720, cy: 1481 },
                video_standard: 255,
                scan_line_ordering: 2,
            },
        }),
    }
}

fn sample_info() -> MonitorAdditionalInfo {
    MonitorAdditionalInfo {
        manufacture_id: 0x4C2D,
        product_code_id: 0x1234,
        valid: true,
        monitor_device_path: "\\\\?\\DISPLAY#GSM5B09".to_string(),
        monitor_friendly_device: "ACME U2720".to_string(),
    }
}

#[test]
fn round_trip_preserves_every_field() {
    let settings = DisplaySettings {
        path_info_array: vec![sample_path()],
        mode_info_array: vec![sample_source_mode(), sample_target_mode()],
    };
    let infos = vec![sample_info()];
    let dpis = vec![DpiScaleInfo { source_id: 5, dpi_scale: 150 }];
    let profile = settings_to_profile(&settings, &infos, &dpis);
    assert_eq!(profile.version, 1);
    assert_eq!(profile.dpi_scale_info, dpis);
    let (decoded, decoded_infos) = profile_to_settings(&profile);
    assert_eq!(decoded.path_info_array, settings.path_info_array);
    assert_eq!(decoded.mode_info_array, settings.mode_info_array);
    assert_eq!(decoded_infos.len(), 1);
    assert_eq!(decoded_infos[0].manufacture_id, infos[0].manufacture_id);
    assert_eq!(decoded_infos[0].product_code_id, infos[0].product_code_id);
    assert_eq!(decoded_infos[0].valid, infos[0].valid);
    assert_eq!(decoded_infos[0].monitor_device_path, infos[0].monitor_device_path);
    assert_eq!(decoded_infos[0].monitor_friendly_device, infos[0].monitor_friendly_device);
}

#[test]
fn path_availability_becomes_a_boolean_and_back() {
    let p = sample_path();
    let json = path_info_to_json(&p);
    assert!(json.target_info.target_available);
    assert_eq!(path_info_from_json(&json), p);
    let mut q = p;
    q.target_info.target_available = 0;
    let json = path_info_to_json(&q);
    assert!(!json.target_info.target_available);
    assert_eq!(path_info_from_json(&json), q);
}

#[test]
fn mode_tag_decides_which_payload_is_emitted() {
    let sm = sample_source_mode();
    let sj = mode_info_to_json(&sm);
    assert!(sj.source_mode.is_some());
    assert!(sj.target_mode.is_none());
    assert_eq!(mode_info_from_json(&sj), sm);

    let tm = sample_target_mode();
    let tj = mode_info_to_json(&tm);
    assert!(tj.target_mode.is_some());
    assert!(tj.source_mode.is_none());
    assert_eq!(mode_info_from_json(&tj), tm);
    // The large pixel rate survives the signed document representation.
    assert!(tj.target_mode.unwrap().target_video_signal_info.pixel_rate < 0);
}

#[test]
fn untagged_mode_emits_no_payload() {
    let m = DisplayConfigModeInfo {
        info_type: 0,
        id: 3,
        adapter_id: LUID { low_part: 1, high_part: 2 },
        mode_data: ModeData::Empty,
    };
    let j = mode_info_to_json(&m);
    assert!(j.target_mode.is_none());
    assert!(j.source_mode.is_none());
    assert_eq!(mode_info_from_json(&j), m);
}
