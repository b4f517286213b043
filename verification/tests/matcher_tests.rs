use monitor_switcher::api::{DisplaySettings, MonitorAdditionalInfo};
use monitor_switcher::ccd::{
    DisplayConfigModeInfo, DisplayConfigPathInfo, DisplayConfigPathSourceInfo,
    DisplayConfigPathTargetInfo, DisplayConfigRational, ModeData, LUID, MODE_INFO_TYPE_SOURCE,
    MODE_INFO_TYPE_TARGET,
};
use monitor_switcher::matcher::{match_adapter_ids, MatchOutcome};

fn path(sid: u32, tid: u32, src_adapter: LUID, tgt_adapter: LUID) -> DisplayConfigPathInfo {
    DisplayConfigPathInfo {
        source_info: DisplayConfigPathSourceInfo {
            adapter_id: src_adapter,
            id: sid,
            mode_info_idx: 0,
            status_flags: 0,
        },
        target_info: DisplayConfigPathTargetInfo {
            adapter_id: tgt_adapter,
            id: tid,
            mode_info_idx: 1,
            output_technology: 0,
            rotation: 1,
            scaling: 0,
            refresh_rate: DisplayConfigRational { numerator: 60, denominator: 1 },
            scan_line_ordering: 0,
            target_available: 1,
            status_flags: 0,
        },
        flags: 0,
    }
}

fn target_mode(id: u32, adapter: LUID) -> DisplayConfigModeInfo {
    DisplayConfigModeInfo {
        info_type: MODE_INFO_TYPE_TARGET,
        id,
        adapter_id: adapter,
        mode_data: ModeData::Empty,
    }
}

fn source_mode(id: u32, adapter: LUID) -> DisplayConfigModeInfo {
    DisplayConfigModeInfo {
        info_type: MODE_INFO_TYPE_SOURCE,
        id,
        adapter_id: adapter,
        mode_data: ModeData::Empty,
    }
}

fn info(valid: bool, name: &str) -> MonitorAdditionalInfo {
    MonitorAdditionalInfo {
        manufacture_id: 0,
        product_code_id: 0,
        valid,
        monitor_device_path: String::new(),
        monitor_friendly_device: name.to_string(),
    }
}

const STALE: LUID = LUID { low_part: 1, high_part: 1 };
const LIVE_X: LUID = LUID { low_part: 7, high_part: 8 };
const LIVE_Y: LUID = LUID { low_part: 9, high_part: 9 };

#[test]
fn tier1_copies_both_adapter_ids_of_the_matching_live_path() {
    let mut stored = DisplaySettings {
        path_info_array: vec![path(5, 9, STALE, STALE)],
        mode_info_array: vec![source_mode(5, STALE), target_mode(9, STALE)],
    };
    let live = DisplaySettings {
        path_info_array: vec![path(5, 9, LIVE_X, LIVE_X)],
        mode_info_array: vec![source_mode(5, LIVE_X), target_mode(9, LIVE_X)],
    };
    let outcome = match_adapter_ids(&mut stored, &vec![], &live, &vec![]);
    assert_eq!(outcome, MatchOutcome::MatchedByIds);
    assert_eq!(stored.path_info_array[0].source_info.adapter_id, LIVE_X);
    assert_eq!(stored.path_info_array[0].target_info.adapter_id, LIVE_X);
    // Modes referenced by the matched path follow the live modes' adapters.
    assert_eq!(stored.mode_info_array[0].adapter_id, LIVE_X);
    assert_eq!(stored.mode_info_array[1].adapter_id, LIVE_X);
}

#[test]
fn tier_ordering_prefers_the_id_pair_match() {
    // Tier 1 can succeed (ID pair 5/9 exists live), and tier 2 would also
    // match the friendly name against a different live mode. First success
    // must win: the result is exactly tier 1's, and the mode keeps its ID.
    let mut stored = DisplaySettings {
        path_info_array: vec![path(5, 9, STALE, STALE)],
        mode_info_array: vec![target_mode(9, STALE)],
    };
    let stored_infos = vec![info(true, "ACME U2720")];
    let live = DisplaySettings {
        path_info_array: vec![path(5, 9, LIVE_X, LIVE_X)],
        mode_info_array: vec![target_mode(9, LIVE_X), target_mode(3, LIVE_Y)],
    };
    let live_infos = vec![info(false, ""), info(true, "ACME U2720")];
    let outcome = match_adapter_ids(&mut stored, &stored_infos, &live, &live_infos);
    assert_eq!(outcome, MatchOutcome::MatchedByIds);
    // Tier 1's rewrite, not tier 2's: the mode ID stays 9 and the adapter
    // comes from the live mode with the same ID, not from the name match.
    assert_eq!(stored.mode_info_array[0].id, 9);
    assert_eq!(stored.mode_info_array[0].adapter_id, LIVE_X);
    assert_eq!(stored.path_info_array[0].source_info.adapter_id, LIVE_X);
}

#[test]
fn tier2_rewrites_mode_adapter_and_id_by_friendly_name() {
    // No live path shares the stored ID pair, so tier 1 fails.
    let mut stored = DisplaySettings {
        path_info_array: vec![path(1, 2, STALE, STALE)],
        mode_info_array: vec![target_mode(9, STALE)],
    };
    let stored_infos = vec![info(true, "ACME U2720")];
    let live = DisplaySettings {
        path_info_array: vec![path(10, 30, LIVE_Y, LIVE_Y)],
        mode_info_array: vec![target_mode(3, LIVE_Y)],
    };
    let live_infos = vec![info(true, "ACME U2720")];
    let outcome = match_adapter_ids(&mut stored, &stored_infos, &live, &live_infos);
    assert_eq!(outcome, MatchOutcome::MatchedByName);
    assert_eq!(stored.mode_info_array[0].adapter_id, LIVE_Y);
    assert_eq!(stored.mode_info_array[0].id, 3);
}

#[test]
fn tier2_rederives_path_adapters_per_side() {
    let mut stored = DisplaySettings {
        path_info_array: vec![path(10, 2, STALE, STALE)],
        mode_info_array: vec![target_mode(9, STALE)],
    };
    let stored_infos = vec![info(true, "ACME U2720")];
    // The live path shares only the source ID 10: the source side is
    // re-derived, the target side keeps its stale adapter.
    let live = DisplaySettings {
        path_info_array: vec![path(10, 30, LIVE_Y, LIVE_Y)],
        mode_info_array: vec![target_mode(3, LIVE_Y)],
    };
    let live_infos = vec![info(true, "ACME U2720")];
    let outcome = match_adapter_ids(&mut stored, &stored_infos, &live, &live_infos);
    assert_eq!(outcome, MatchOutcome::MatchedByName);
    assert_eq!(stored.path_info_array[0].source_info.adapter_id, LIVE_Y);
    assert_eq!(stored.path_info_array[0].target_info.adapter_id, STALE);
}

#[test]
fn tier3_substitutes_the_stale_adapter_everywhere() {
    // Tier 1 fails (no ID pair matches: target IDs differ) and tier 2 has no
    // identities to work with; the shared source ID 5 with differing
    // adapters drives a bulk substitution.
    let mut stored = DisplaySettings {
        path_info_array: vec![path(5, 9, STALE, STALE)],
        mode_info_array: vec![source_mode(5, STALE), target_mode(9, STALE)],
    };
    let live = DisplaySettings {
        path_info_array: vec![path(5, 8, LIVE_X, LIVE_X)],
        mode_info_array: vec![],
    };
    let outcome = match_adapter_ids(&mut stored, &vec![], &live, &vec![]);
    assert_eq!(outcome, MatchOutcome::MatchedByBulkReplace);
    assert_eq!(stored.path_info_array[0].source_info.adapter_id, LIVE_X);
    assert_eq!(stored.path_info_array[0].target_info.adapter_id, LIVE_X);
    assert_eq!(stored.mode_info_array[0].adapter_id, LIVE_X);
    assert_eq!(stored.mode_info_array[1].adapter_id, LIVE_X);
}

#[test]
fn exhaustion_leaves_the_topology_unchanged() {
    let paths_before = vec![path(1, 1, STALE, STALE)];
    let modes_before = vec![target_mode(1, STALE)];
    let mut stored = DisplaySettings {
        path_info_array: paths_before.clone(),
        mode_info_array: modes_before.clone(),
    };
    // Nothing correlates: different IDs everywhere, no identities.
    let live = DisplaySettings {
        path_info_array: vec![path(2, 2, LIVE_X, LIVE_X)],
        mode_info_array: vec![target_mode(2, LIVE_X)],
    };
    let outcome = match_adapter_ids(&mut stored, &vec![], &live, &vec![]);
    assert_eq!(outcome, MatchOutcome::Unmatched);
    assert_eq!(stored.path_info_array, paths_before);
    assert_eq!(stored.mode_info_array, modes_before);
}

#[test]
fn tier1_needs_both_ids_of_the_pair_to_match() {
    let mut stored = DisplaySettings {
        path_info_array: vec![path(5, 9, STALE, STALE)],
        mode_info_array: vec![],
    };
    // Same source ID but a different target ID: not a tier 1 match, and with
    // equal adapters tier 3 finds nothing either.
    let live = DisplaySettings {
        path_info_array: vec![path(5, 8, STALE, STALE)],
        mode_info_array: vec![],
    };
    let outcome = match_adapter_ids(&mut stored, &vec![], &live, &vec![]);
    assert_eq!(outcome, MatchOutcome::Unmatched);
    assert_eq!(stored.path_info_array[0].source_info.adapter_id, STALE);
}
