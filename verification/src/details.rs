//! Per-monitor summaries of a topology: one record per path, with geometry,
//! refresh rate, rotation, name and DPI scale.

use crate::api::{DisplaySettings, MonitorAdditionalInfo};
use crate::ccd::{
    DisplayConfigModeInfo, DisplayConfigPathInfo, MODE_INFO_TYPE_SOURCE, MODE_INFO_TYPE_TARGET,
};
use crate::digits::{spec_decimal_digits, u64_to_string};
use crate::profile::{DisplayProfile, DpiScaleInfo, ModeInfo, PathInfo, ProfileMonitorInfo, Rational};
use vstd::prelude::*;

verus! {

/// Details of a single monitor. The refresh rate is kept as the exact
/// rational; a caller that wants hertz divides numerator by denominator
/// (zero denominator meaning an unknown rate).
#[derive(Debug, Clone)]
pub struct MonitorDetails {
    pub name: String,
    pub width: u32,
    pub height: u32,
    pub refresh_rate: Rational,
    pub position_x: i32,
    pub position_y: i32,
    pub rotation: u32,
    /// Heuristic: a monitor whose desktop position is the origin is taken
    /// for the primary one. The system does not guarantee this.
    pub is_primary: bool,
    /// DPI scaling percentage; nothing when unavailable.
    pub dpi_scale: Option<u32>,
}

/// Geometry of one persisted path: from its source mode when present,
/// else from its target mode's active size at the origin, else nothing.
pub open spec fn spec_profile_geometry(modes: Seq<ModeInfo>, p: PathInfo) -> Option<
    (u32, u32, i32, i32),
> {
    let si = p.source_info.mode_info_idx as int;
    let ti = p.target_info.mode_info_idx as int;
    if 0 <= si < modes.len() && modes[si].source_mode is Some {
        let sm = modes[si].source_mode->0;
        Some((sm.width, sm.height, sm.position.x, sm.position.y))
    } else if 0 <= ti < modes.len() && modes[ti].target_mode is Some {
        let tm = modes[ti].target_mode->0;
        Some(
            (
                tm.target_video_signal_info.active_size.cx,
                tm.target_video_signal_info.active_size.cy,
                0,
                0,
            ),
        )
    } else {
        None
    }
}

/// The identity record at this position is valid and carries a name.
pub open spec fn profile_info_usable(infos: Seq<ProfileMonitorInfo>, j: int) -> bool {
    0 <= j < infos.len() && infos[j].valid && infos[j].monitor_friendly_device@.len() > 0
}

/// The fallback name of the display at a path position.
pub open spec fn spec_default_name(path_idx: int) -> Seq<char> {
    "Display "@ + spec_decimal_digits(path_idx + 1)
}

/// The display name of one persisted path: the identity records come two per
/// path (source then target), and the first usable one of the pair names the
/// monitor; without one the display is named by its position.
pub open spec fn spec_profile_name(infos: Seq<ProfileMonitorInfo>, path_idx: int) -> Seq<char> {
    if profile_info_usable(infos, 2 * path_idx) {
        infos[2 * path_idx].monitor_friendly_device@
    } else if profile_info_usable(infos, 2 * path_idx + 1) {
        infos[2 * path_idx + 1].monitor_friendly_device@
    } else {
        spec_default_name(path_idx)
    }
}

/// The first stored DPI entry at or after `j` for this source ID.
pub open spec fn spec_first_dpi(dpis: Seq<DpiScaleInfo>, sid: u32, j: int) -> Option<u32>
    decreases dpis.len() - j,
{
    if j < 0 || j >= dpis.len() {
        None
    } else if dpis[j].source_id == sid {
        Some(dpis[j].dpi_scale)
    } else {
        spec_first_dpi(dpis, sid, j + 1)
    }
}

/// The details record of the persisted path at position `i`.
pub open spec fn profile_detail_ok(
    d: MonitorDetails,
    paths: Seq<PathInfo>,
    modes: Seq<ModeInfo>,
    infos: Seq<ProfileMonitorInfo>,
    dpis: Seq<DpiScaleInfo>,
    i: int,
) -> bool {
    let p = paths[i];
    match spec_profile_geometry(modes, p) {
        Some(g) => {
            &&& d.width == g.0
            &&& d.height == g.1
            &&& d.position_x == g.2
            &&& d.position_y == g.3
            &&& d.refresh_rate == p.target_info.refresh_rate
            &&& d.rotation == p.target_info.rotation
            &&& d.is_primary == (g.2 == 0 && g.3 == 0)
            &&& d.name@ == spec_profile_name(infos, i)
            &&& d.dpi_scale == spec_first_dpi(dpis, p.source_info.id, 0)
        },
        None => false,
    }
}

/// How many of the first `upto` persisted paths yield a details record.
pub open spec fn profile_kept_count(modes: Seq<ModeInfo>, paths: Seq<PathInfo>, upto: int) -> int
    decreases upto,
{
    if upto <= 0 {
        0
    } else {
        profile_kept_count(modes, paths, upto - 1) + if 0 <= upto - 1 < paths.len()
            && spec_profile_geometry(modes, paths[upto - 1]) is Some {
            1int
        } else {
            0int
        }
    }
}

proof fn lemma_profile_kept_count_mono(modes: Seq<ModeInfo>, paths: Seq<PathInfo>, a: int, b: int)
    requires
        a <= b,
    ensures
        profile_kept_count(modes, paths, a) <= profile_kept_count(modes, paths, b),
    decreases b - a,
{
    if a < b {
        lemma_profile_kept_count_mono(modes, paths, a, b - 1);
    }
}

fn find_dpi(dpis: &Vec<DpiScaleInfo>, sid: u32) -> (r: Option<u32>)
    ensures
        r == spec_first_dpi(dpis@, sid, 0),
{
    let n = dpis.len();
    let mut j: usize = 0;
    while j < n
        invariant
            n == dpis@.len(),
            0 <= j <= n,
            spec_first_dpi(dpis@, sid, 0) == spec_first_dpi(dpis@, sid, j as int),
        decreases n - j,
    {
        if dpis[j].source_id == sid {
            return Some(dpis[j].dpi_scale);
        }
        j += 1;
    }
    None
}

fn profile_name(infos: &Vec<ProfileMonitorInfo>, path_idx: usize) -> (r: String)
    requires
        path_idx < usize::MAX,
    ensures
        r@ == spec_profile_name(infos@, path_idx as int),
{
    let nlen = infos.len();
    if path_idx <= nlen / 2 {
        let j = 2 * path_idx;
        if j < nlen {
            let info = &infos[j];
            if info.valid && !info.monitor_friendly_device.as_str().is_empty() {
                return info.monitor_friendly_device.clone();
            }
        }
        if j + 1 < nlen {
            let info = &infos[j + 1];
            if info.valid && !info.monitor_friendly_device.as_str().is_empty() {
                return info.monitor_friendly_device.clone();
            }
        }
    } else {
        assert(2 * path_idx >= infos@.len());
    }
    let digits = u64_to_string((path_idx + 1) as u64);
    let r = String::from_str("Display ").concat(digits.as_str());
    assert(r@ == spec_default_name(path_idx as int));
    r
}

fn profile_geometry(modes: &Vec<ModeInfo>, p: &PathInfo) -> (r: Option<(u32, u32, i32, i32)>)
    ensures
        r == spec_profile_geometry(modes@, *p),
{
    let si = p.source_info.mode_info_idx as usize;
    if si < modes.len() {
        match modes[si].source_mode {
            Some(sm) => {
                return Some((sm.width, sm.height, sm.position.x, sm.position.y));
            },
            None => {},
        }
    }
    let ti = p.target_info.mode_info_idx as usize;
    if ti < modes.len() {
        match modes[ti].target_mode {
            Some(tm) => {
                return Some(
                    (
                        tm.target_video_signal_info.active_size.cx,
                        tm.target_video_signal_info.active_size.cy,
                        0,
                        0,
                    ),
                );
            },
            None => {},
        }
    }
    None
}

/// Detailed monitor information of a stored profile: one record per path
/// whose geometry can be read, in path order.
#[verifier::rlimit(50)]
pub fn get_profile_details(profile: &DisplayProfile) -> (r: Vec<MonitorDetails>)
    ensures
        r@.len() == profile_kept_count(
            profile.mode_info_array@,
            profile.path_info_array@,
            profile.path_info_array@.len() as int,
        ),
        forall|i: int|
            0 <= i < profile.path_info_array@.len() && spec_profile_geometry(
                profile.mode_info_array@,
                #[trigger] profile.path_info_array@[i],
            ) is Some ==> profile_detail_ok(
                r@[profile_kept_count(profile.mode_info_array@, profile.path_info_array@, i)],
                profile.path_info_array@,
                profile.mode_info_array@,
                profile.additional_info@,
                profile.dpi_scale_info@,
                i,
            ),
{
    let n = profile.path_info_array.len();
    let mut out: Vec<MonitorDetails> = Vec::new();
    let mut i: usize = 0;
    while i < n
        invariant
            n == profile.path_info_array@.len(),
            0 <= i <= n,
            out@.len() == profile_kept_count(
                profile.mode_info_array@,
                profile.path_info_array@,
                i as int,
            ),
            forall|k: int|
                0 <= k < i && spec_profile_geometry(
                    profile.mode_info_array@,
                    #[trigger] profile.path_info_array@[k],
                ) is Some ==> profile_detail_ok(
                    out@[profile_kept_count(profile.mode_info_array@, profile.path_info_array@, k)],
                    profile.path_info_array@,
                    profile.mode_info_array@,
                    profile.additional_info@,
                    profile.dpi_scale_info@,
                    k,
                ),
        decreases n - i,
    {
        let p = profile.path_info_array[i];
        match profile_geometry(&profile.mode_info_array, &p) {
            Some(g) => {
                let name = profile_name(&profile.additional_info, i);
                let dpi_scale = find_dpi(&profile.dpi_scale_info, p.source_info.id);
                let d = MonitorDetails {
                    name,
                    width: g.0,
                    height: g.1,
                    refresh_rate: p.target_info.refresh_rate,
                    position_x: g.2,
                    position_y: g.3,
                    rotation: p.target_info.rotation,
                    is_primary: g.2 == 0 && g.3 == 0,
                    dpi_scale,
                };
                out.push(d);
                proof {
                    let ghost modes = profile.mode_info_array@;
                    let ghost paths = profile.path_info_array@;
                    assert forall|k: int|
                        0 <= k < i && spec_profile_geometry(
                            modes,
                            #[trigger] paths[k],
                        ) is Some implies 0 <= profile_kept_count(modes, paths, k)
                        && profile_kept_count(modes, paths, k) + 1 <= profile_kept_count(
                        modes,
                        paths,
                        i as int,
                    ) by {
                        lemma_profile_kept_count_mono(modes, paths, 0, k);
                        lemma_profile_kept_count_mono(modes, paths, k + 1, i as int);
                    }
                    assert(out@[profile_kept_count(modes, paths, i as int)] == d);
                    assert(profile_detail_ok(
                        d,
                        paths,
                        modes,
                        profile.additional_info@,
                        profile.dpi_scale_info@,
                        i as int,
                    ));
                }
            },
            None => {},
        }
        i += 1;
    }
    out
}

/// Geometry of one live path: from its source mode when the referenced mode
/// is source-kind, else from a target-kind mode's active size at the origin.
/// The kind tag is validated before any payload is read.
pub open spec fn spec_live_geometry(
    modes: Seq<DisplayConfigModeInfo>,
    p: DisplayConfigPathInfo,
) -> Option<(u32, u32, i32, i32)> {
    let si = p.source_info.mode_info_idx as int;
    let ti = p.target_info.mode_info_idx as int;
    if 0 <= si < modes.len() {
        if modes[si].info_type == MODE_INFO_TYPE_SOURCE && modes[si].mode_data is Source {
            let sm = modes[si].mode_data->Source_0;
            Some((sm.width, sm.height, sm.position.x, sm.position.y))
        } else if 0 <= ti < modes.len() && modes[ti].info_type == MODE_INFO_TYPE_TARGET
            && modes[ti].mode_data is Target {
            let tm = modes[ti].mode_data->Target_0;
            Some(
                (
                    tm.target_video_signal_info.active_size.cx,
                    tm.target_video_signal_info.active_size.cy,
                    0,
                    0,
                ),
            )
        } else {
            None
        }
    } else {
        None
    }
}

/// The live identity record at this position is valid and carries a name.
pub open spec fn live_info_usable(infos: Seq<MonitorAdditionalInfo>, j: int) -> bool {
    0 <= j < infos.len() && infos[j].valid && infos[j].monitor_friendly_device@.len() > 0
}

/// The display name of one live path, from the paired identity records.
pub open spec fn spec_live_name(infos: Seq<MonitorAdditionalInfo>, path_idx: int) -> Seq<char> {
    if live_info_usable(infos, 2 * path_idx) {
        infos[2 * path_idx].monitor_friendly_device@
    } else if live_info_usable(infos, 2 * path_idx + 1) {
        infos[2 * path_idx + 1].monitor_friendly_device@
    } else {
        spec_default_name(path_idx)
    }
}

/// The details record of the live path at position `i`, with `dpi` the
/// queried scale of its source.
pub open spec fn live_detail_ok(
    d: MonitorDetails,
    paths: Seq<DisplayConfigPathInfo>,
    modes: Seq<DisplayConfigModeInfo>,
    infos: Seq<MonitorAdditionalInfo>,
    dpi: Option<u32>,
    i: int,
) -> bool {
    let p = paths[i];
    match spec_live_geometry(modes, p) {
        Some(g) => {
            &&& d.width == g.0
            &&& d.height == g.1
            &&& d.position_x == g.2
            &&& d.position_y == g.3
            &&& d.refresh_rate == (Rational {
                numerator: p.target_info.refresh_rate.numerator,
                denominator: p.target_info.refresh_rate.denominator,
            })
            &&& d.rotation == p.target_info.rotation
            &&& d.is_primary == (g.2 == 0 && g.3 == 0)
            &&& d.name@ == spec_live_name(infos, i)
            &&& d.dpi_scale == dpi
        },
        None => false,
    }
}

/// How many of the first `upto` live paths yield a details record.
pub open spec fn live_kept_count(
    modes: Seq<DisplayConfigModeInfo>,
    paths: Seq<DisplayConfigPathInfo>,
    upto: int,
) -> int
    decreases upto,
{
    if upto <= 0 {
        0
    } else {
        live_kept_count(modes, paths, upto - 1) + if 0 <= upto - 1 < paths.len()
            && spec_live_geometry(modes, paths[upto - 1]) is Some {
            1int
        } else {
            0int
        }
    }
}

proof fn lemma_live_kept_count_mono(
    modes: Seq<DisplayConfigModeInfo>,
    paths: Seq<DisplayConfigPathInfo>,
    a: int,
    b: int,
)
    requires
        a <= b,
    ensures
        live_kept_count(modes, paths, a) <= live_kept_count(modes, paths, b),
    decreases b - a,
{
    if a < b {
        lemma_live_kept_count_mono(modes, paths, a, b - 1);
    }
}

fn live_name(infos: &Vec<MonitorAdditionalInfo>, path_idx: usize) -> (r: String)
    requires
        path_idx < usize::MAX,
    ensures
        r@ == spec_live_name(infos@, path_idx as int),
{
    let nlen = infos.len();
    if path_idx <= nlen / 2 {
        let j = 2 * path_idx;
        if j < nlen {
            let info = &infos[j];
            if info.valid && !info.monitor_friendly_device.as_str().is_empty() {
                return info.monitor_friendly_device.clone();
            }
        }
        if j + 1 < nlen {
            let info = &infos[j + 1];
            if info.valid && !info.monitor_friendly_device.as_str().is_empty() {
                return info.monitor_friendly_device.clone();
            }
        }
    } else {
        assert(2 * path_idx >= infos@.len());
    }
    let digits = u64_to_string((path_idx + 1) as u64);
    let r = String::from_str("Display ").concat(digits.as_str());
    assert(r@ == spec_default_name(path_idx as int));
    r
}

fn live_geometry(modes: &Vec<DisplayConfigModeInfo>, p: &DisplayConfigPathInfo) -> (r: Option<
    (u32, u32, i32, i32),
>)
    ensures
        r == spec_live_geometry(modes@, *p),
{
    let si = p.source_info.mode_info_idx as usize;
    if si >= modes.len() {
        return None;
    }
    let m = modes[si];
    if m.info_type == MODE_INFO_TYPE_SOURCE {
        match m.mode_data {
            crate::ccd::ModeData::Source(sm) => {
                return Some((sm.width, sm.height, sm.position.x, sm.position.y));
            },
            _ => {},
        }
    }
    let ti = p.target_info.mode_info_idx as usize;
    if ti < modes.len() {
        let tmode = modes[ti];
        if tmode.info_type == MODE_INFO_TYPE_TARGET {
            match tmode.mode_data {
                crate::ccd::ModeData::Target(tm) => {
                    return Some(
                        (
                            tm.target_video_signal_info.active_size.cx,
                            tm.target_video_signal_info.active_size.cy,
                            0,
                            0,
                        ),
                    );
                },
                _ => {},
            }
        }
    }
    None
}

/// Detailed monitor information of the live topology: one record per path
/// whose geometry can be read, in path order. The DPI scale of each path's
/// source is handed in as queried, one entry per path.
#[verifier::rlimit(50)]
pub fn current_monitor_details(
    settings: &DisplaySettings,
    additional_info: &Vec<MonitorAdditionalInfo>,
    dpi_per_path: &Vec<Option<u32>>,
) -> (r: Vec<MonitorDetails>)
    requires
        dpi_per_path@.len() == settings.path_info_array@.len(),
    ensures
        r@.len() == live_kept_count(
            settings.mode_info_array@,
            settings.path_info_array@,
            settings.path_info_array@.len() as int,
        ),
        forall|i: int|
            0 <= i < settings.path_info_array@.len() && spec_live_geometry(
                settings.mode_info_array@,
                #[trigger] settings.path_info_array@[i],
            ) is Some ==> live_detail_ok(
                r@[live_kept_count(settings.mode_info_array@, settings.path_info_array@, i)],
                settings.path_info_array@,
                settings.mode_info_array@,
                additional_info@,
                dpi_per_path@[i],
                i,
            ),
{
    let n = settings.path_info_array.len();
    let mut out: Vec<MonitorDetails> = Vec::new();
    let mut i: usize = 0;
    while i < n
        invariant
            n == settings.path_info_array@.len(),
            dpi_per_path@.len() == n,
            0 <= i <= n,
            out@.len() == live_kept_count(
                settings.mode_info_array@,
                settings.path_info_array@,
                i as int,
            ),
            forall|k: int|
                0 <= k < i && spec_live_geometry(
                    settings.mode_info_array@,
                    #[trigger] settings.path_info_array@[k],
                ) is Some ==> live_detail_ok(
                    out@[live_kept_count(settings.mode_info_array@, settings.path_info_array@, k)],
                    settings.path_info_array@,
                    settings.mode_info_array@,
                    additional_info@,
                    dpi_per_path@[k],
                    k,
                ),
        decreases n - i,
    {
        let p = settings.path_info_array[i];
        match live_geometry(&settings.mode_info_array, &p) {
            Some(g) => {
                let name = live_name(additional_info, i);
                let d = MonitorDetails {
                    name,
                    width: g.0,
                    height: g.1,
                    refresh_rate: Rational {
                        numerator: p.target_info.refresh_rate.numerator,
                        denominator: p.target_info.refresh_rate.denominator,
                    },
                    position_x: g.2,
                    position_y: g.3,
                    rotation: p.target_info.rotation,
                    is_primary: g.2 == 0 && g.3 == 0,
                    dpi_scale: dpi_per_path[i],
                };
                out.push(d);
                proof {
                    let ghost modes = settings.mode_info_array@;
                    let ghost paths = settings.path_info_array@;
                    assert forall|k: int|
                        0 <= k < i && spec_live_geometry(
                            modes,
                            #[trigger] paths[k],
                        ) is Some implies 0 <= live_kept_count(modes, paths, k)
                        && live_kept_count(modes, paths, k) + 1 <= live_kept_count(
                        modes,
                        paths,
                        i as int,
                    ) by {
                        lemma_live_kept_count_mono(modes, paths, 0, k);
                        lemma_live_kept_count_mono(modes, paths, k + 1, i as int);
                    }
                    assert(out@[live_kept_count(modes, paths, i as int)] == d);
                    assert(live_detail_ok(
                        d,
                        paths,
                        modes,
                        additional_info@,
                        dpi_per_path@[i as int],
                        i as int,
                    ));
                }
            },
            None => {},
        }
        i += 1;
    }
    out
}

} // verus!
