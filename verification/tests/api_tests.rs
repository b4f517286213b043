use monitor_switcher::api::{
    commit_attempt_flags, commit_step, filter_captured_settings, get_additional_info_for_modes,
    get_monitor_additional_info, CommitPhase, MonitorAdditionalInfo, SDC_ALLOW_CHANGES, SDC_APPLY,
    SDC_NO_OPTIMIZATION, SDC_SAVE_TO_DATABASE, SDC_USE_SUPPLIED_DISPLAY_CONFIG,
};
use monitor_switcher::ccd::{
    dpi_from_index, dpi_to_index, DisplayConfigDeviceInfoHeader, DisplayConfigModeInfo,
    DisplayConfigPathInfo, DisplayConfigPathSourceInfo, DisplayConfigPathTargetInfo,
    DisplayConfigRational, DisplayConfigSourceDpiScaleGet, DisplayConfigTargetDeviceName,
    DpiScalingInfo, ModeData, LUID, MODE_INFO_TYPE_SOURCE, MODE_INFO_TYPE_TARGET,
};

fn path_with_availability(avail: u32) -> DisplayConfigPathInfo {
    DisplayConfigPathInfo {
        source_info: DisplayConfigPathSourceInfo {
            adapter_id: LUID { low_part: 1, high_part: 1 },
            id: 0,
            mode_info_idx: 0,
            status_flags: 0,
        },
        target_info: DisplayConfigPathTargetInfo {
            adapter_id: LUID { low_part: 1, high_part: 1 },
            id: 0,
            mode_info_idx: 0,
            output_technology: 0,
            rotation: 1,
            scaling: 0,
            refresh_rate: DisplayConfigRational { numerator: 60, denominator: 1 },
            scan_line_ordering: 0,
            target_available: avail,
            status_flags: 0,
        },
        flags: 0,
    }
}

fn mode_with_tag(info_type: u32) -> DisplayConfigModeInfo {
    DisplayConfigModeInfo {
        info_type,
        id: 1,
        adapter_id: LUID { low_part: 1, high_part: 1 },
        mode_data: ModeData::Empty,
    }
}

#[test]
fn capture_filter_drops_unavailable_and_untagged_entries() {
    let paths = vec![path_with_availability(0), path_with_availability(1)];
    let modes = vec![mode_with_tag(0), mode_with_tag(MODE_INFO_TYPE_TARGET)];
    let settings = filter_captured_settings(paths, modes);
    assert_eq!(settings.path_info_array.len(), 1);
    assert_eq!(settings.path_info_array[0].target_info.target_available, 1);
    assert_eq!(settings.mode_info_array.len(), 1);
    assert_eq!(settings.mode_info_array[0].info_type, MODE_INFO_TYPE_TARGET);
}

#[test]
fn commit_failure_earns_exactly_one_permissive_retry() {
    // A rejected first attempt moves to the retry, whose flag set adds
    // allow-changes to the conservative set.
    let after_first = commit_step(CommitPhase::FirstAttempt, 31);
    assert_eq!(after_first, CommitPhase::RetryAttempt);
    let conservative = commit_attempt_flags(CommitPhase::FirstAttempt);
    assert_eq!(
        conservative,
        SDC_APPLY | SDC_USE_SUPPLIED_DISPLAY_CONFIG | SDC_SAVE_TO_DATABASE | SDC_NO_OPTIMIZATION
    );
    let permissive = commit_attempt_flags(CommitPhase::RetryAttempt);
    assert_eq!(permissive, conservative | SDC_ALLOW_CHANGES);
    // A rejected retry surfaces the failure code; there is no third attempt.
    assert_eq!(commit_step(after_first, 31), CommitPhase::Failed(31));
    assert_eq!(commit_step(CommitPhase::Failed(31), 0), CommitPhase::Failed(31));
}

#[test]
fn commit_success_never_retries() {
    let after_first = commit_step(CommitPhase::FirstAttempt, 0);
    assert_eq!(after_first, CommitPhase::Succeeded);
    assert_eq!(commit_step(after_first, 99), CommitPhase::Succeeded);
    // A retry that succeeds also ends the commit.
    assert_eq!(commit_step(CommitPhase::RetryAttempt, 0), CommitPhase::Succeeded);
}

#[test]
fn dpi_relative_steps_resolve_against_the_table() {
    let get = DisplayConfigSourceDpiScaleGet {
        header: DisplayConfigDeviceInfoHeader::new(
            -3,
            std::mem::size_of::<DisplayConfigSourceDpiScaleGet>() as u32,
            LUID { low_part: 1, high_part: 1 },
            0,
        ),
        min_scale_rel: -3,
        cur_scale_rel: -1,
        max_scale_rel: 2,
    };
    assert_eq!(
        get.to_dpi_info(),
        Some(DpiScalingInfo { minimum: 100, maximum: 225, current: 150, recommended: 175 })
    );
}

#[test]
fn dpi_current_outside_range_is_rejected() {
    let mut get = DisplayConfigSourceDpiScaleGet {
        header: DisplayConfigDeviceInfoHeader::new(-3, 0, LUID { low_part: 1, high_part: 1 }, 0),
        min_scale_rel: -3,
        cur_scale_rel: 3,
        max_scale_rel: 2,
    };
    assert_eq!(get.to_dpi_info(), None);
    get.cur_scale_rel = -4;
    assert_eq!(get.to_dpi_info(), None);
    // A maximum beyond the table end is rejected too.
    get.cur_scale_rel = 0;
    get.max_scale_rel = 12;
    assert_eq!(get.to_dpi_info(), None);
}

#[test]
fn dpi_table_indexing_round_trips() {
    assert_eq!(dpi_from_index(0), Some(100));
    assert_eq!(dpi_from_index(3), Some(175));
    assert_eq!(dpi_from_index(11), Some(500));
    assert_eq!(dpi_from_index(12), None);
    assert_eq!(dpi_to_index(150), Some(2));
    assert_eq!(dpi_to_index(500), Some(11));
    assert_eq!(dpi_to_index(170), None);
}

#[test]
fn probe_reply_becomes_an_identity_record() {
    let mut name = DisplayConfigTargetDeviceName {
        header: DisplayConfigDeviceInfoHeader::new(2, 0, LUID { low_part: 3, high_part: 4 }, 9),
        flags: 0,
        output_technology: 10,
        edid_manufacture_id: 0x4C2D,
        edid_product_code_id: 0x1234,
        connector_instance: 0,
        monitor_friendly_device_name: [0u16; 64],
        monitor_device_path: [0u16; 128],
    };
    for (i, c) in "ACME U2720".encode_utf16().enumerate() {
        name.monitor_friendly_device_name[i] = c;
    }
    for (i, c) in "\\\\?\\DISPLAY#GSM".encode_utf16().enumerate() {
        name.monitor_device_path[i] = c;
    }
    assert_eq!(name.get_friendly_name(), "ACME U2720");
    assert_eq!(name.get_device_path(), "\\\\?\\DISPLAY#GSM");
    let rec = get_monitor_additional_info(true, &name);
    assert!(rec.valid);
    assert_eq!(rec.manufacture_id, 0x4C2D);
    assert_eq!(rec.product_code_id, 0x1234);
    assert_eq!(rec.monitor_friendly_device, "ACME U2720");
    assert_eq!(rec.monitor_device_path, "\\\\?\\DISPLAY#GSM");
}

#[test]
fn failed_probe_yields_an_invalid_blank_record() {
    let name = DisplayConfigTargetDeviceName {
        header: DisplayConfigDeviceInfoHeader::new(2, 0, LUID { low_part: 3, high_part: 4 }, 9),
        flags: 0,
        output_technology: 10,
        edid_manufacture_id: 0x4C2D,
        edid_product_code_id: 0x1234,
        connector_instance: 0,
        monitor_friendly_device_name: [65u16; 64],
        monitor_device_path: [66u16; 128],
    };
    let rec = get_monitor_additional_info(false, &name);
    assert!(!rec.valid);
    assert_eq!(rec.manufacture_id, 0);
    assert_eq!(rec.product_code_id, 0);
    assert_eq!(rec.monitor_friendly_device, "");
    assert_eq!(rec.monitor_device_path, "");
}

#[test]
fn identity_records_align_with_target_modes() {
    let modes = vec![mode_with_tag(MODE_INFO_TYPE_SOURCE), mode_with_tag(MODE_INFO_TYPE_TARGET)];
    let probed = vec![
        MonitorAdditionalInfo {
            manufacture_id: 1,
            product_code_id: 1,
            valid: true,
            monitor_device_path: "a".to_string(),
            monitor_friendly_device: "A".to_string(),
        },
        MonitorAdditionalInfo {
            manufacture_id: 2,
            product_code_id: 2,
            valid: true,
            monitor_device_path: "b".to_string(),
            monitor_friendly_device: "B".to_string(),
        },
    ];
    let aligned = get_additional_info_for_modes(&modes, &probed);
    assert_eq!(aligned.len(), 2);
    // The source-kind entry is blanked; the target-kind one keeps its probe.
    assert!(!aligned[0].valid);
    assert_eq!(aligned[0].monitor_friendly_device, "");
    assert!(aligned[1].valid);
    assert_eq!(aligned[1].monitor_friendly_device, "B");
}
