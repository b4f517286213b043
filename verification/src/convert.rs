//! The profile codec: lossless conversion between the in-memory topology
//! model and the persisted profile document.

use crate::api::{DisplaySettings, MonitorAdditionalInfo};
use crate::ccd::{
    DisplayConfig2DRegion, DisplayConfigModeInfo, DisplayConfigPathInfo,
    DisplayConfigPathSourceInfo, DisplayConfigPathTargetInfo, DisplayConfigRational,
    DisplayConfigSourceMode, DisplayConfigTargetMode, DisplayConfigVideoSignalInfo, ModeData,
    PointL, LUID, MODE_INFO_TYPE_SOURCE, MODE_INFO_TYPE_TARGET,
};
use crate::profile::{
    AdapterId, DisplayProfile, DpiScaleInfo, ModeInfo, PathInfo, PathSourceInfo, PathTargetInfo,
    Point, ProfileMonitorInfo, Rational, Region2D, SourceMode, TargetMode, VideoSignalInfo,
};
use vstd::prelude::*;

verus! {

/// A topology the codec round-trips exactly: every mode's tag agrees with
/// its payload, and every target's availability is a plain boolean.
pub open spec fn settings_wf(s: DisplaySettings) -> bool {
    &&& forall|i: int|
        0 <= i < s.path_info_array@.len()
            ==> (#[trigger] s.path_info_array@[i]).target_info.target_available == 0
            || s.path_info_array@[i].target_info.target_available == 1
    &&& forall|i: int| 0 <= i < s.mode_info_array@.len() ==> (#[trigger] s.mode_info_array@[i]).wf()
}

/// A path as it is persisted.
pub open spec fn spec_path_to_json(p: DisplayConfigPathInfo) -> PathInfo {
    PathInfo {
        source_info: PathSourceInfo {
            adapter_id: AdapterId {
                low_part: p.source_info.adapter_id.low_part,
                high_part: p.source_info.adapter_id.high_part,
            },
            id: p.source_info.id,
            mode_info_idx: p.source_info.mode_info_idx,
            status_flags: p.source_info.status_flags,
        },
        target_info: PathTargetInfo {
            adapter_id: AdapterId {
                low_part: p.target_info.adapter_id.low_part,
                high_part: p.target_info.adapter_id.high_part,
            },
            id: p.target_info.id,
            mode_info_idx: p.target_info.mode_info_idx,
            output_technology: p.target_info.output_technology,
            rotation: p.target_info.rotation,
            scaling: p.target_info.scaling,
            refresh_rate: Rational {
                numerator: p.target_info.refresh_rate.numerator,
                denominator: p.target_info.refresh_rate.denominator,
            },
            scan_line_ordering: p.target_info.scan_line_ordering,
            target_available: p.target_info.target_available != 0,
            status_flags: p.target_info.status_flags,
        },
        flags: p.flags,
    }
}

/// A persisted path read back into the model.
pub open spec fn spec_path_from_json(p: PathInfo) -> DisplayConfigPathInfo {
    DisplayConfigPathInfo {
        source_info: DisplayConfigPathSourceInfo {
            adapter_id: LUID {
                low_part: p.source_info.adapter_id.low_part,
                high_part: p.source_info.adapter_id.high_part,
            },
            id: p.source_info.id,
            mode_info_idx: p.source_info.mode_info_idx,
            status_flags: p.source_info.status_flags,
        },
        target_info: DisplayConfigPathTargetInfo {
            adapter_id: LUID {
                low_part: p.target_info.adapter_id.low_part,
                high_part: p.target_info.adapter_id.high_part,
            },
            id: p.target_info.id,
            mode_info_idx: p.target_info.mode_info_idx,
            output_technology: p.target_info.output_technology,
            rotation: p.target_info.rotation,
            scaling: p.target_info.scaling,
            refresh_rate: DisplayConfigRational {
                numerator: p.target_info.refresh_rate.numerator,
                denominator: p.target_info.refresh_rate.denominator,
            },
            scan_line_ordering: p.target_info.scan_line_ordering,
            target_available: if p.target_info.target_available {
                1
            } else {
                0
            },
            status_flags: p.target_info.status_flags,
        },
        flags: p.flags,
    }
}

/// Convert one path to its persisted form.
pub fn path_info_to_json(p: &DisplayConfigPathInfo) -> (r: PathInfo)
    ensures
        r == spec_path_to_json(*p),
{
    PathInfo {
        source_info: PathSourceInfo {
            adapter_id: AdapterId {
                low_part: p.source_info.adapter_id.low_part,
                high_part: p.source_info.adapter_id.high_part,
            },
            id: p.source_info.id,
            mode_info_idx: p.source_info.mode_info_idx,
            status_flags: p.source_info.status_flags,
        },
        target_info: PathTargetInfo {
            adapter_id: AdapterId {
                low_part: p.target_info.adapter_id.low_part,
                high_part: p.target_info.adapter_id.high_part,
            },
            id: p.target_info.id,
            mode_info_idx: p.target_info.mode_info_idx,
            output_technology: p.target_info.output_technology,
            rotation: p.target_info.rotation,
            scaling: p.target_info.scaling,
            refresh_rate: Rational {
                numerator: p.target_info.refresh_rate.numerator,
                denominator: p.target_info.refresh_rate.denominator,
            },
            scan_line_ordering: p.target_info.scan_line_ordering,
            target_available: p.target_info.target_available != 0,
            status_flags: p.target_info.status_flags,
        },
        flags: p.flags,
    }
}

/// Read one persisted path back into the model.
pub fn path_info_from_json(p: &PathInfo) -> (r: DisplayConfigPathInfo)
    ensures
        r == spec_path_from_json(*p),
{
    DisplayConfigPathInfo {
        source_info: DisplayConfigPathSourceInfo {
            adapter_id: LUID {
                low_part: p.source_info.adapter_id.low_part,
                high_part: p.source_info.adapter_id.high_part,
            },
            id: p.source_info.id,
            mode_info_idx: p.source_info.mode_info_idx,
            status_flags: p.source_info.status_flags,
        },
        target_info: DisplayConfigPathTargetInfo {
            adapter_id: LUID {
                low_part: p.target_info.adapter_id.low_part,
                high_part: p.target_info.adapter_id.high_part,
            },
            id: p.target_info.id,
            mode_info_idx: p.target_info.mode_info_idx,
            output_technology: p.target_info.output_technology,
            rotation: p.target_info.rotation,
            scaling: p.target_info.scaling,
            refresh_rate: DisplayConfigRational {
                numerator: p.target_info.refresh_rate.numerator,
                denominator: p.target_info.refresh_rate.denominator,
            },
            scan_line_ordering: p.target_info.scan_line_ordering,
            target_available: if p.target_info.target_available {
                1
            } else {
                0
            },
            status_flags: p.target_info.status_flags,
        },
        flags: p.flags,
    }
}

/// A target mode as it is persisted. The pixel rate is stored signed for
/// document compatibility; its bits are preserved.
pub open spec fn spec_target_mode_to_json(tm: DisplayConfigTargetMode) -> TargetMode {
    TargetMode {
        target_video_signal_info: VideoSignalInfo {
            pixel_rate: tm.target_video_signal_info.pixel_rate as i64,
            h_sync_freq: Rational {
                numerator: tm.target_video_signal_info.h_sync_freq.numerator,
                denominator: tm.target_video_signal_info.h_sync_freq.denominator,
            },
            v_sync_freq: Rational {
                numerator: tm.target_video_signal_info.v_sync_freq.numerator,
                denominator: tm.target_video_signal_info.v_sync_freq.denominator,
            },
            active_size: Region2D {
                cx: tm.target_video_signal_info.active_size.cx,
                cy: tm.target_video_signal_info.active_size.cy,
            },
            total_size: Region2D {
                cx: tm.target_video_signal_info.total_size.cx,
                cy: tm.target_video_signal_info.total_size.cy,
            },
            video_standard: tm.target_video_signal_info.video_standard,
            scan_line_ordering: tm.target_video_signal_info.scan_line_ordering,
        },
    }
}

/// A persisted target mode read back into the model.
pub open spec fn spec_target_mode_from_json(tm: TargetMode) -> DisplayConfigTargetMode {
    DisplayConfigTargetMode {
        target_video_signal_info: DisplayConfigVideoSignalInfo {
            pixel_rate: tm.target_video_signal_info.pixel_rate as u64,
            h_sync_freq: DisplayConfigRational {
                numerator: tm.target_video_signal_info.h_sync_freq.numerator,
                denominator: tm.target_video_signal_info.h_sync_freq.denominator,
            },
            v_sync_freq: DisplayConfigRational {
                numerator: tm.target_video_signal_info.v_sync_freq.numerator,
                denominator: tm.target_video_signal_info.v_sync_freq.denominator,
            },
            active_size: DisplayConfig2DRegion {
                cx: tm.target_video_signal_info.active_size.cx,
                cy: tm.target_video_signal_info.active_size.cy,
            },
            total_size: DisplayConfig2DRegion {
                cx: tm.target_video_signal_info.total_size.cx,
                cy: tm.target_video_signal_info.total_size.cy,
            },
            video_standard: tm.target_video_signal_info.video_standard,
            scan_line_ordering: tm.target_video_signal_info.scan_line_ordering,
        },
    }
}

/// A source mode as it is persisted.
pub open spec fn spec_source_mode_to_json(sm: DisplayConfigSourceMode) -> SourceMode {
    SourceMode {
        width: sm.width,
        height: sm.height,
        pixel_format: sm.pixel_format,
        position: Point { x: sm.position.x, y: sm.position.y },
    }
}

/// A persisted source mode read back into the model.
pub open spec fn spec_source_mode_from_json(sm: SourceMode) -> DisplayConfigSourceMode {
    DisplayConfigSourceMode {
        width: sm.width,
        height: sm.height,
        pixel_format: sm.pixel_format,
        position: PointL { x: sm.position.x, y: sm.position.y },
    }
}

/// A mode entry as it is persisted: the tag is validated before the payload
/// is read, so exactly the payload the tag names is emitted, never both.
pub open spec fn spec_mode_to_json(m: DisplayConfigModeInfo) -> ModeInfo {
    ModeInfo {
        info_type: m.info_type,
        id: m.id,
        adapter_id: AdapterId { low_part: m.adapter_id.low_part, high_part: m.adapter_id.high_part },
        target_mode: if m.info_type == MODE_INFO_TYPE_TARGET && m.mode_data is Target {
            Some(spec_target_mode_to_json(m.mode_data->Target_0))
        } else {
            None
        },
        source_mode: if m.info_type == MODE_INFO_TYPE_SOURCE && m.mode_data is Source {
            Some(spec_source_mode_to_json(m.mode_data->Source_0))
        } else {
            None
        },
    }
}

/// A persisted mode entry read back: a present target payload wins, then a
/// present source payload, and an entry with neither stays empty.
pub open spec fn spec_mode_from_json(m: ModeInfo) -> DisplayConfigModeInfo {
    DisplayConfigModeInfo {
        info_type: m.info_type,
        id: m.id,
        adapter_id: LUID { low_part: m.adapter_id.low_part, high_part: m.adapter_id.high_part },
        mode_data: if m.target_mode is Some {
            ModeData::Target(spec_target_mode_from_json(m.target_mode->0))
        } else if m.source_mode is Some {
            ModeData::Source(spec_source_mode_from_json(m.source_mode->0))
        } else {
            ModeData::Empty
        },
    }
}

/// Convert one mode entry to its persisted form.
pub fn mode_info_to_json(m: &DisplayConfigModeInfo) -> (r: ModeInfo)
    ensures
        r == spec_mode_to_json(*m),
{
    let target_mode: Option<TargetMode> = if m.info_type == MODE_INFO_TYPE_TARGET {
        match m.mode_data {
            ModeData::Target(tm) => Some(
                TargetMode {
                    target_video_signal_info: VideoSignalInfo {
                        pixel_rate: #[verifier::truncate] (tm.target_video_signal_info.pixel_rate
                            as i64),
                        h_sync_freq: Rational {
                            numerator: tm.target_video_signal_info.h_sync_freq.numerator,
                            denominator: tm.target_video_signal_info.h_sync_freq.denominator,
                        },
                        v_sync_freq: Rational {
                            numerator: tm.target_video_signal_info.v_sync_freq.numerator,
                            denominator: tm.target_video_signal_info.v_sync_freq.denominator,
                        },
                        active_size: Region2D {
                            cx: tm.target_video_signal_info.active_size.cx,
                            cy: tm.target_video_signal_info.active_size.cy,
                        },
                        total_size: Region2D {
                            cx: tm.target_video_signal_info.total_size.cx,
                            cy: tm.target_video_signal_info.total_size.cy,
                        },
                        video_standard: tm.target_video_signal_info.video_standard,
                        scan_line_ordering: tm.target_video_signal_info.scan_line_ordering,
                    },
                },
            ),
            _ => None,
        }
    } else {
        None
    };
    let source_mode: Option<SourceMode> = if m.info_type == MODE_INFO_TYPE_SOURCE {
        match m.mode_data {
            ModeData::Source(sm) => Some(
                SourceMode {
                    width: sm.width,
                    height: sm.height,
                    pixel_format: sm.pixel_format,
                    position: Point { x: sm.position.x, y: sm.position.y },
                },
            ),
            _ => None,
        }
    } else {
        None
    };
    ModeInfo {
        info_type: m.info_type,
        id: m.id,
        adapter_id: AdapterId { low_part: m.adapter_id.low_part, high_part: m.adapter_id.high_part },
        target_mode,
        source_mode,
    }
}

/// Read one persisted mode entry back into the model.
pub fn mode_info_from_json(m: &ModeInfo) -> (r: DisplayConfigModeInfo)
    ensures
        r == spec_mode_from_json(*m),
{
    let mode_data: ModeData = match m.target_mode {
        Some(tm) => ModeData::Target(
            DisplayConfigTargetMode {
                target_video_signal_info: DisplayConfigVideoSignalInfo {
                    pixel_rate: #[verifier::truncate] (tm.target_video_signal_info.pixel_rate
                        as u64),
                    h_sync_freq: DisplayConfigRational {
                        numerator: tm.target_video_signal_info.h_sync_freq.numerator,
                        denominator: tm.target_video_signal_info.h_sync_freq.denominator,
                    },
                    v_sync_freq: DisplayConfigRational {
                        numerator: tm.target_video_signal_info.v_sync_freq.numerator,
                        denominator: tm.target_video_signal_info.v_sync_freq.denominator,
                    },
                    active_size: DisplayConfig2DRegion {
                        cx: tm.target_video_signal_info.active_size.cx,
                        cy: tm.target_video_signal_info.active_size.cy,
                    },
                    total_size: DisplayConfig2DRegion {
                        cx: tm.target_video_signal_info.total_size.cx,
                        cy: tm.target_video_signal_info.total_size.cy,
                    },
                    video_standard: tm.target_video_signal_info.video_standard,
                    scan_line_ordering: tm.target_video_signal_info.scan_line_ordering,
                },
            },
        ),
        None => match m.source_mode {
            Some(sm) => ModeData::Source(
                DisplayConfigSourceMode {
                    width: sm.width,
                    height: sm.height,
                    pixel_format: sm.pixel_format,
                    position: PointL { x: sm.position.x, y: sm.position.y },
                },
            ),
            None => ModeData::Empty,
        },
    };
    DisplayConfigModeInfo {
        info_type: m.info_type,
        id: m.id,
        adapter_id: LUID { low_part: m.adapter_id.low_part, high_part: m.adapter_id.high_part },
        mode_data,
    }
}

/// A monitor identity record as it is persisted.
pub open spec fn spec_info_to_profile(a: MonitorAdditionalInfo) -> ProfileMonitorInfo {
    ProfileMonitorInfo {
        manufacture_id: a.manufacture_id,
        product_code_id: a.product_code_id,
        valid: a.valid,
        monitor_device_path: a.monitor_device_path,
        monitor_friendly_device: a.monitor_friendly_device,
    }
}

/// A persisted monitor identity record read back.
pub open spec fn spec_info_from_profile(a: ProfileMonitorInfo) -> MonitorAdditionalInfo {
    MonitorAdditionalInfo {
        manufacture_id: a.manufacture_id,
        product_code_id: a.product_code_id,
        valid: a.valid,
        monitor_device_path: a.monitor_device_path,
        monitor_friendly_device: a.monitor_friendly_device,
    }
}

/// Encode a topology as a profile document. The DPI entries are stored as
/// captured, one per active source.
pub fn settings_to_profile(
    settings: &DisplaySettings,
    additional_info: &Vec<MonitorAdditionalInfo>,
    dpi_scale_info: &Vec<DpiScaleInfo>,
) -> (r: DisplayProfile)
    ensures
        r.version == 1,
        r.path_info_array@ == settings.path_info_array@.map_values(
            |p: DisplayConfigPathInfo| spec_path_to_json(p),
        ),
        r.mode_info_array@ == settings.mode_info_array@.map_values(
            |m: DisplayConfigModeInfo| spec_mode_to_json(m),
        ),
        r.additional_info@ == additional_info@.map_values(
            |a: MonitorAdditionalInfo| spec_info_to_profile(a),
        ),
        r.dpi_scale_info@ == dpi_scale_info@,
{
    let n = settings.path_info_array.len();
    let mut paths: Vec<PathInfo> = Vec::new();
    let mut i: usize = 0;
    while i < n
        invariant
            n == settings.path_info_array@.len(),
            0 <= i <= n,
            paths@.len() == i,
            forall|k: int|
                0 <= k < i ==> paths@[k] == spec_path_to_json(settings.path_info_array@[k]),
        decreases n - i,
    {
        paths.push(path_info_to_json(&settings.path_info_array[i]));
        i += 1;
    }
    let m = settings.mode_info_array.len();
    let mut modes: Vec<ModeInfo> = Vec::new();
    let mut j: usize = 0;
    while j < m
        invariant
            m == settings.mode_info_array@.len(),
            0 <= j <= m,
            modes@.len() == j,
            forall|k: int|
                0 <= k < j ==> modes@[k] == spec_mode_to_json(settings.mode_info_array@[k]),
        decreases m - j,
    {
        modes.push(mode_info_to_json(&settings.mode_info_array[j]));
        j += 1;
    }
    let a = additional_info.len();
    let mut infos: Vec<ProfileMonitorInfo> = Vec::new();
    let mut k: usize = 0;
    while k < a
        invariant
            a == additional_info@.len(),
            0 <= k <= a,
            infos@.len() == k,
            forall|t: int| 0 <= t < k ==> infos@[t] == spec_info_to_profile(additional_info@[t]),
        decreases a - k,
    {
        let src = &additional_info[k];
        infos.push(
            ProfileMonitorInfo {
                manufacture_id: src.manufacture_id,
                product_code_id: src.product_code_id,
                valid: src.valid,
                monitor_device_path: src.monitor_device_path.clone(),
                monitor_friendly_device: src.monitor_friendly_device.clone(),
            },
        );
        k += 1;
    }
    let d = dpi_scale_info.len();
    let mut dpis: Vec<DpiScaleInfo> = Vec::new();
    let mut t: usize = 0;
    while t < d
        invariant
            d == dpi_scale_info@.len(),
            0 <= t <= d,
            dpis@.len() == t,
            forall|u: int| 0 <= u < t ==> dpis@[u] == dpi_scale_info@[u],
        decreases d - t,
    {
        dpis.push(dpi_scale_info[t]);
        t += 1;
    }
    proof {
        assert(paths@ =~= settings.path_info_array@.map_values(
            |p: DisplayConfigPathInfo| spec_path_to_json(p),
        ));
        assert(modes@ =~= settings.mode_info_array@.map_values(
            |md: DisplayConfigModeInfo| spec_mode_to_json(md),
        ));
        assert(infos@ =~= additional_info@.map_values(
            |x: MonitorAdditionalInfo| spec_info_to_profile(x),
        ));
        assert(dpis@ =~= dpi_scale_info@);
    }
    DisplayProfile {
        version: 1,
        path_info_array: paths,
        mode_info_array: modes,
        additional_info: infos,
        dpi_scale_info: dpis,
    }
}

/// Decode a profile document back into a topology and its identity records.
pub fn profile_to_settings(profile: &DisplayProfile) -> (r: (
    DisplaySettings,
    Vec<MonitorAdditionalInfo>,
))
    ensures
        r.0.path_info_array@ == profile.path_info_array@.map_values(
            |p: PathInfo| spec_path_from_json(p),
        ),
        r.0.mode_info_array@ == profile.mode_info_array@.map_values(
            |m: ModeInfo| spec_mode_from_json(m),
        ),
        r.1@ == profile.additional_info@.map_values(
            |a: ProfileMonitorInfo| spec_info_from_profile(a),
        ),
{
    let n = profile.path_info_array.len();
    let mut paths: Vec<DisplayConfigPathInfo> = Vec::new();
    let mut i: usize = 0;
    while i < n
        invariant
            n == profile.path_info_array@.len(),
            0 <= i <= n,
            paths@.len() == i,
            forall|k: int|
                0 <= k < i ==> paths@[k] == spec_path_from_json(profile.path_info_array@[k]),
        decreases n - i,
    {
        paths.push(path_info_from_json(&profile.path_info_array[i]));
        i += 1;
    }
    let m = profile.mode_info_array.len();
    let mut modes: Vec<DisplayConfigModeInfo> = Vec::new();
    let mut j: usize = 0;
    while j < m
        invariant
            m == profile.mode_info_array@.len(),
            0 <= j <= m,
            modes@.len() == j,
            forall|k: int|
                0 <= k < j ==> modes@[k] == spec_mode_from_json(profile.mode_info_array@[k]),
        decreases m - j,
    {
        modes.push(mode_info_from_json(&profile.mode_info_array[j]));
        j += 1;
    }
    let a = profile.additional_info.len();
    let mut infos: Vec<MonitorAdditionalInfo> = Vec::new();
    let mut k: usize = 0;
    while k < a
        invariant
            a == profile.additional_info@.len(),
            0 <= k <= a,
            infos@.len() == k,
            forall|t: int|
                0 <= t < k ==> infos@[t] == spec_info_from_profile(profile.additional_info@[t]),
        decreases a - k,
    {
        let src = &profile.additional_info[k];
        infos.push(
            MonitorAdditionalInfo {
                manufacture_id: src.manufacture_id,
                product_code_id: src.product_code_id,
                valid: src.valid,
                monitor_device_path: src.monitor_device_path.clone(),
                monitor_friendly_device: src.monitor_friendly_device.clone(),
            },
        );
        k += 1;
    }
    proof {
        assert(paths@ =~= profile.path_info_array@.map_values(
            |p: PathInfo| spec_path_from_json(p),
        ));
        assert(modes@ =~= profile.mode_info_array@.map_values(
            |md: ModeInfo| spec_mode_from_json(md),
        ));
        assert(infos@ =~= profile.additional_info@.map_values(
            |x: ProfileMonitorInfo| spec_info_from_profile(x),
        ));
    }
    (DisplaySettings { path_info_array: paths, mode_info_array: modes }, infos)
}

/// One path round-trips exactly when its availability is a plain boolean.
pub proof fn lemma_path_round_trip(p: DisplayConfigPathInfo)
    requires
        p.target_info.target_available == 0 || p.target_info.target_available == 1,
    ensures
        spec_path_from_json(spec_path_to_json(p)) == p,
{
}

/// One mode entry round-trips exactly when its tag agrees with its payload.
pub proof fn lemma_mode_round_trip(m: DisplayConfigModeInfo)
    requires
        m.wf(),
    ensures
        spec_mode_from_json(spec_mode_to_json(m)) == m,
{
    if m.info_type == MODE_INFO_TYPE_TARGET {
        let tm = m.mode_data->Target_0;
        let rate = tm.target_video_signal_info.pixel_rate;
        assert((rate as i64) as u64 == rate) by (bit_vector);
    }
}

/// One identity record always round-trips exactly.
pub proof fn lemma_info_round_trip(a: MonitorAdditionalInfo)
    ensures
        spec_info_from_profile(spec_info_to_profile(a)) == a,
{
}

/// Round-trip: a topology that satisfies the model's invariants is encoded
/// to a profile document and decoded back without loss, field for field,
/// including mode tag/payload fidelity, identity records and DPI entries
/// (the DPI entries are stored in the document exactly as given).
pub proof fn lemma_codec_round_trip(
    paths: Seq<DisplayConfigPathInfo>,
    modes: Seq<DisplayConfigModeInfo>,
    infos: Seq<MonitorAdditionalInfo>,
)
    requires
        forall|i: int|
            0 <= i < paths.len() ==> (#[trigger] paths[i]).target_info.target_available == 0
                || paths[i].target_info.target_available == 1,
        forall|i: int| 0 <= i < modes.len() ==> (#[trigger] modes[i]).wf(),
    ensures
        paths.map_values(|p: DisplayConfigPathInfo| spec_path_to_json(p)).map_values(
            |p: PathInfo| spec_path_from_json(p),
        ) == paths,
        modes.map_values(|m: DisplayConfigModeInfo| spec_mode_to_json(m)).map_values(
            |m: ModeInfo| spec_mode_from_json(m),
        ) == modes,
        infos.map_values(|a: MonitorAdditionalInfo| spec_info_to_profile(a)).map_values(
            |a: ProfileMonitorInfo| spec_info_from_profile(a),
        ) == infos,
{
    assert forall|i: int| 0 <= i < paths.len() implies spec_path_from_json(
        spec_path_to_json(paths[i]),
    ) == paths[i] by {
        lemma_path_round_trip(paths[i]);
    }
    assert forall|i: int| 0 <= i < modes.len() implies spec_mode_from_json(
        spec_mode_to_json(modes[i]),
    ) == modes[i] by {
        lemma_mode_round_trip(modes[i]);
    }
    assert(paths.map_values(|p: DisplayConfigPathInfo| spec_path_to_json(p)).map_values(
        |p: PathInfo| spec_path_from_json(p),
    ) =~= paths);
    assert(modes.map_values(|m: DisplayConfigModeInfo| spec_mode_to_json(m)).map_values(
        |m: ModeInfo| spec_mode_from_json(m),
    ) =~= modes);
    assert(infos.map_values(|a: MonitorAdditionalInfo| spec_info_to_profile(a)).map_values(
        |a: ProfileMonitorInfo| spec_info_from_profile(a),
    ) =~= infos);
}

} // verus!
