use monitor_switcher::api::{DisplaySettings, MonitorAdditionalInfo};
use monitor_switcher::ccd::{
    DisplayConfigModeInfo, DisplayConfigPathInfo, DisplayConfigPathSourceInfo,
    DisplayConfigPathTargetInfo, DisplayConfigRational, DisplayConfigSourceMode, ModeData, PointL,
    LUID, MODE_INFO_TYPE_SOURCE,
};
use monitor_switcher::details::{current_monitor_details, get_profile_details};
use monitor_switcher::profile::{
    AdapterId, DisplayProfile, DpiScaleInfo, ModeInfo, PathInfo, PathSourceInfo, PathTargetInfo,
    Point, ProfileMonitorInfo, Rational, SourceMode,
};

fn profile_path(sid: u32, src_idx: u32, tgt_idx: u32) -> PathInfo {
    PathInfo {
        source_info: PathSourceInfo {
            adapter_id: AdapterId { low_part: 1, high_part: 1 },
            id: sid,
            mode_info_idx: src_idx,
            status_flags: 0,
        },
        target_info: PathTargetInfo {
            adapter_id: AdapterId { low_part: 1, high_part: 1 },
            id: 9,
            mode_info_idx: tgt_idx,
            output_technology: 0,
            rotation: 2,
            scaling: 0,
            refresh_rate: Rational { numerator: 120000, denominator: 1000 },
            scan_line_ordering: 0,
            target_available: true,
            status_flags: 0,
        },
        flags: 0,
    }
}

fn profile_source_mode(w: u32, h: u32, x: i32, y: i32) -> ModeInfo {
    ModeInfo {
        info_type: MODE_INFO_TYPE_SOURCE,
        id: 5,
        adapter_id: AdapterId { low_part: 1, high_part: 1 },
        target_mode: None,
        source_mode: Some(SourceMode {
            width: w,
            height: h,
            pixel_format: 2,
            position: Point { x, y },
        }),
    }
}

fn named_info(name: &str) -> ProfileMonitorInfo {
    ProfileMonitorInfo {
        manufacture_id: 0,
        product_code_id: 0,
        valid: true,
        monitor_device_path: String::new(),
        monitor_friendly_device: name.to_string(),
    }
}

#[test]
fn profile_details_read_geometry_name_and_dpi() {
    let profile = DisplayProfile {
        version: 2,
        path_info_array: vec![profile_path(5, 0, 0)],
        mode_info_array: vec![profile_source_mode(2560, 1440, 0, 0)],
        additional_info: vec![named_info("ACME U2720")],
        dpi_scale_info: vec![DpiScaleInfo { source_id: 5, dpi_scale: 150 }],
    };
    let details = get_profile_details(&profile);
    assert_eq!(details.len(), 1);
    let d = &details[0];
    assert_eq!(d.name, "ACME U2720");
    assert_eq!((d.width, d.height), (2560, 1440));
    assert_eq!((d.position_x, d.position_y), (0, 0));
    assert_eq!(d.refresh_rate, Rational { numerator: 120000, denominator: 1000 });
    assert_eq!(d.rotation, 2);
    assert!(d.is_primary);
    assert_eq!(d.dpi_scale, Some(150));
}

#[test]
fn profile_details_fall_back_to_a_positional_name() {
    let profile = DisplayProfile {
        version: 1,
        path_info_array: vec![profile_path(5, 0, 0)],
        mode_info_array: vec![profile_source_mode(1920, 1080, 100, 50)],
        additional_info: vec![],
        dpi_scale_info: vec![],
    };
    let details = get_profile_details(&profile);
    assert_eq!(details.len(), 1);
    assert_eq!(details[0].name, "Display 1");
    assert!(!details[0].is_primary);
    assert_eq!(details[0].dpi_scale, None);
}

#[test]
fn profile_details_skip_paths_without_modes() {
    let profile = DisplayProfile {
        version: 1,
        // The referenced mode indices do not exist.
        path_info_array: vec![profile_path(5, 7, 8)],
        mode_info_array: vec![],
        additional_info: vec![],
        dpi_scale_info: vec![],
    };
    assert_eq!(get_profile_details(&profile).len(), 0);
}

#[test]
fn live_details_read_the_source_mode() {
    let settings = DisplaySettings {
        path_info_array: vec![DisplayConfigPathInfo {
            source_info: DisplayConfigPathSourceInfo {
                adapter_id: LUID { low_part: 1, high_part: 1 },
                id: 5,
                mode_info_idx: 0,
                status_flags: 0,
            },
            target_info: DisplayConfigPathTargetInfo {
                adapter_id: LUID { low_part: 1, high_part: 1 },
                id: 9,
                mode_info_idx: 0,
                output_technology: 0,
                rotation: 1,
                scaling: 0,
                refresh_rate: DisplayConfigRational { numerator: 60, denominator: 1 },
                scan_line_ordering: 0,
                target_available: 1,
                status_flags: 0,
            },
            flags: 0,
        }],
        mode_info_array: vec![DisplayConfigModeInfo {
            info_type: MODE_INFO_TYPE_SOURCE,
            id: 5,
            adapter_id: LUID { low_part: 1, high_part: 1 },
            mode_data: ModeData::Source(DisplayConfigSourceMode {
                width: 1920,
                height: 1080,
                pixel_format: 2,
                position: PointL { x: 0, y: 0 },
            }),
        }],
    };
    let infos: Vec<MonitorAdditionalInfo> = vec![];
    let details = current_monitor_details(&settings, &infos, &vec![Some(125)]);
    assert_eq!(details.len(), 1);
    assert_eq!(details[0].name, "Display 1");
    assert_eq!((details[0].width, details[0].height), (1920, 1080));
    assert!(details[0].is_primary);
    assert_eq!(details[0].dpi_scale, Some(125));
    assert_eq!(details[0].refresh_rate, Rational { numerator: 60, denominator: 1 });
}
