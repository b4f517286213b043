//! The identity resolver: re-binds a stored topology's stale adapter
//! identifiers to the live system's identifiers.
//!
//! Three matching tiers are tried in order and the first success wins:
//! correlation by source/target ID pairs, correlation by monitor friendly
//! name, and bulk substitution of one stale adapter identifier. Falling
//! through all three is not an error: the stored topology is kept as it is.

use crate::api::{DisplaySettings, MonitorAdditionalInfo};
use crate::ccd::{
    DisplayConfigModeInfo, DisplayConfigPathInfo, DisplayConfigPathSourceInfo,
    DisplayConfigPathTargetInfo, LUID, MODE_INFO_TYPE_SOURCE, MODE_INFO_TYPE_TARGET,
};
use vstd::prelude::*;

verus! {

// ------------------------------------------------------------------------
// Tier 1: correlation by source/target ID pairs.
// ------------------------------------------------------------------------
/// The first live path at or after `i` whose source and target IDs both match.
pub open spec fn first_path_with_ids(
    live: Seq<DisplayConfigPathInfo>,
    sid: u32,
    tid: u32,
    i: int,
) -> Option<DisplayConfigPathInfo>
    decreases live.len() - i,
{
    if i < 0 || i >= live.len() {
        None
    } else if live[i].source_info.id == sid && live[i].target_info.id == tid {
        Some(live[i])
    } else {
        first_path_with_ids(live, sid, tid, i + 1)
    }
}

/// A stored path after tier 1: where some live path carries the same ID pair,
/// the first such live path donates both adapter identifiers.
pub open spec fn tier1_rewrite_path(
    p: DisplayConfigPathInfo,
    live: Seq<DisplayConfigPathInfo>,
) -> DisplayConfigPathInfo {
    match first_path_with_ids(live, p.source_info.id, p.target_info.id, 0) {
        Some(c) => DisplayConfigPathInfo {
            source_info: DisplayConfigPathSourceInfo {
                adapter_id: c.source_info.adapter_id,
                ..p.source_info
            },
            target_info: DisplayConfigPathTargetInfo {
                adapter_id: c.target_info.adapter_id,
                ..p.target_info
            },
            ..p
        },
        None => p,
    }
}

/// Tier 1 succeeds when at least one stored path finds a live ID-pair match.
pub open spec fn tier1_any_match(
    stored: Seq<DisplayConfigPathInfo>,
    live: Seq<DisplayConfigPathInfo>,
) -> bool {
    exists|k: int|
        0 <= k < stored.len() && first_path_with_ids(
            live,
            stored[k].source_info.id,
            stored[k].target_info.id,
            0,
        ) is Some
}

/// Some path binds a target with this ID.
pub open spec fn any_path_with_target_id(paths: Seq<DisplayConfigPathInfo>, id: u32) -> bool {
    exists|k: int| 0 <= k < paths.len() && paths[k].target_info.id == id
}

/// Some path binds a source with this ID.
pub open spec fn any_path_with_source_id(paths: Seq<DisplayConfigPathInfo>, id: u32) -> bool {
    exists|k: int| 0 <= k < paths.len() && paths[k].source_info.id == id
}

/// The first live mode at or after `i` with this kind tag and ID.
pub open spec fn first_mode_with(
    modes: Seq<DisplayConfigModeInfo>,
    info_type: u32,
    id: u32,
    i: int,
) -> Option<DisplayConfigModeInfo>
    decreases modes.len() - i,
{
    if i < 0 || i >= modes.len() {
        None
    } else if modes[i].info_type == info_type && modes[i].id == id {
        Some(modes[i])
    } else {
        first_mode_with(modes, info_type, id, i + 1)
    }
}

/// A stored mode after tier 1: a mode referenced by some (rewritten) path
/// takes the adapter identifier of the first live mode with its tag and ID.
pub open spec fn tier1_rewrite_mode(
    m: DisplayConfigModeInfo,
    paths: Seq<DisplayConfigPathInfo>,
    live_modes: Seq<DisplayConfigModeInfo>,
) -> DisplayConfigModeInfo {
    if m.info_type == MODE_INFO_TYPE_TARGET && any_path_with_target_id(paths, m.id) {
        match first_mode_with(live_modes, MODE_INFO_TYPE_TARGET, m.id, 0) {
            Some(c) => DisplayConfigModeInfo { adapter_id: c.adapter_id, ..m },
            None => m,
        }
    } else if m.info_type == MODE_INFO_TYPE_SOURCE && any_path_with_source_id(paths, m.id) {
        match first_mode_with(live_modes, MODE_INFO_TYPE_SOURCE, m.id, 0) {
            Some(c) => DisplayConfigModeInfo { adapter_id: c.adapter_id, ..m },
            None => m,
        }
    } else {
        m
    }
}

/// The paths and modes tier 1 leaves behind. When nothing matches, the
/// topology is untouched and the tier reports failure.
pub open spec fn tier1_spec(
    stored_paths: Seq<DisplayConfigPathInfo>,
    stored_modes: Seq<DisplayConfigModeInfo>,
    live_paths: Seq<DisplayConfigPathInfo>,
    live_modes: Seq<DisplayConfigModeInfo>,
) -> (Seq<DisplayConfigPathInfo>, Seq<DisplayConfigModeInfo>) {
    if tier1_any_match(stored_paths, live_paths) {
        let new_paths = stored_paths.map_values(
            |p: DisplayConfigPathInfo| tier1_rewrite_path(p, live_paths),
        );
        (
            new_paths,
            stored_modes.map_values(
                |m: DisplayConfigModeInfo| tier1_rewrite_mode(m, new_paths, live_modes),
            ),
        )
    } else {
        (stored_paths, stored_modes)
    }
}

fn find_path_by_ids(live: &Vec<DisplayConfigPathInfo>, sid: u32, tid: u32) -> (r: Option<
    DisplayConfigPathInfo,
>)
    ensures
        r == first_path_with_ids(live@, sid, tid, 0),
{
    let n = live.len();
    let mut j: usize = 0;
    while j < n
        invariant
            n == live@.len(),
            0 <= j <= n,
            first_path_with_ids(live@, sid, tid, 0) == first_path_with_ids(
                live@,
                sid,
                tid,
                j as int,
            ),
        decreases n - j,
    {
        let c = live[j];
        if c.source_info.id == sid && c.target_info.id == tid {
            return Some(c);
        }
        j += 1;
    }
    None
}

fn find_mode_with(live: &Vec<DisplayConfigModeInfo>, info_type: u32, id: u32) -> (r: Option<
    DisplayConfigModeInfo,
>)
    ensures
        r == first_mode_with(live@, info_type, id, 0),
{
    let n = live.len();
    let mut j: usize = 0;
    while j < n
        invariant
            n == live@.len(),
            0 <= j <= n,
            first_mode_with(live@, info_type, id, 0) == first_mode_with(
                live@,
                info_type,
                id,
                j as int,
            ),
        decreases n - j,
    {
        let c = live[j];
        if c.info_type == info_type && c.id == id {
            return Some(c);
        }
        j += 1;
    }
    None
}

fn has_path_with_target_id(paths: &Vec<DisplayConfigPathInfo>, id: u32) -> (r: bool)
    ensures
        r == any_path_with_target_id(paths@, id),
{
    let n = paths.len();
    let mut j: usize = 0;
    while j < n
        invariant
            n == paths@.len(),
            0 <= j <= n,
            forall|k: int| 0 <= k < j ==> paths@[k].target_info.id != id,
        decreases n - j,
    {
        if paths[j].target_info.id == id {
            return true;
        }
        j += 1;
    }
    false
}

fn has_path_with_source_id(paths: &Vec<DisplayConfigPathInfo>, id: u32) -> (r: bool)
    ensures
        r == any_path_with_source_id(paths@, id),
{
    let n = paths.len();
    let mut j: usize = 0;
    while j < n
        invariant
            n == paths@.len(),
            0 <= j <= n,
            forall|k: int| 0 <= k < j ==> paths@[k].source_info.id != id,
        decreases n - j,
    {
        if paths[j].source_info.id == id {
            return true;
        }
        j += 1;
    }
    false
}

/// Tier 1: rewrite adapter identifiers by matching source/target ID pairs
/// against the live topology. Reports whether any path matched; on failure
/// the settings are untouched.
pub fn try_match_by_ids(settings: &mut DisplaySettings, current: &DisplaySettings) -> (matched:
    bool)
    ensures
        matched == tier1_any_match(old(settings).path_info_array@, current.path_info_array@),
        ({
            let (ps, ms) = tier1_spec(
                old(settings).path_info_array@,
                old(settings).mode_info_array@,
                current.path_info_array@,
                current.mode_info_array@,
            );
            final(settings).path_info_array@ == ps && final(settings).mode_info_array@ == ms
        }),
{
    let n = settings.path_info_array.len();
    let mut new_paths: Vec<DisplayConfigPathInfo> = Vec::new();
    let mut matched_any = false;
    let mut i: usize = 0;
    while i < n
        invariant
            n == settings.path_info_array@.len(),
            *settings == *old(settings),
            0 <= i <= n,
            new_paths@.len() == i,
            forall|k: int|
                0 <= k < i ==> new_paths@[k] == tier1_rewrite_path(
                    settings.path_info_array@[k],
                    current.path_info_array@,
                ),
            matched_any == exists|k: int|
                0 <= k < i && first_path_with_ids(
                    current.path_info_array@,
                    settings.path_info_array@[k].source_info.id,
                    settings.path_info_array@[k].target_info.id,
                    0,
                ) is Some,
        decreases n - i,
    {
        let p = settings.path_info_array[i];
        match find_path_by_ids(&current.path_info_array, p.source_info.id, p.target_info.id) {
            Some(c) => {
                let mut q = p;
                q.source_info.adapter_id = c.source_info.adapter_id;
                q.target_info.adapter_id = c.target_info.adapter_id;
                new_paths.push(q);
                matched_any = true;
            },
            None => {
                new_paths.push(p);
            },
        }
        i += 1;
    }
    if !matched_any {
        assert(!tier1_any_match(settings.path_info_array@, current.path_info_array@));
        return false;
    }
    assert(new_paths@ =~= old(settings).path_info_array@.map_values(
        |p: DisplayConfigPathInfo| tier1_rewrite_path(p, current.path_info_array@),
    ));
    settings.path_info_array = new_paths;
    let m = settings.mode_info_array.len();
    let mut new_modes: Vec<DisplayConfigModeInfo> = Vec::new();
    let mut j: usize = 0;
    while j < m
        invariant
            m == settings.mode_info_array@.len(),
            settings.mode_info_array@ == old(settings).mode_info_array@,
            0 <= j <= m,
            new_modes@.len() == j,
            forall|k: int|
                0 <= k < j ==> new_modes@[k] == tier1_rewrite_mode(
                    settings.mode_info_array@[k],
                    settings.path_info_array@,
                    current.mode_info_array@,
                ),
        decreases m - j,
    {
        let md = settings.mode_info_array[j];
        if md.info_type == MODE_INFO_TYPE_TARGET && has_path_with_target_id(
            &settings.path_info_array,
            md.id,
        ) {
            match find_mode_with(&current.mode_info_array, MODE_INFO_TYPE_TARGET, md.id) {
                Some(c) => {
                    let mut m2 = md;
                    m2.adapter_id = c.adapter_id;
                    new_modes.push(m2);
                },
                None => {
                    new_modes.push(md);
                },
            }
        } else if md.info_type == MODE_INFO_TYPE_SOURCE && has_path_with_source_id(
            &settings.path_info_array,
            md.id,
        ) {
            match find_mode_with(&current.mode_info_array, MODE_INFO_TYPE_SOURCE, md.id) {
                Some(c) => {
                    let mut m2 = md;
                    m2.adapter_id = c.adapter_id;
                    new_modes.push(m2);
                },
                None => {
                    new_modes.push(md);
                },
            }
        } else {
            new_modes.push(md);
        }
        j += 1;
    }
    assert(new_modes@ =~= old(settings).mode_info_array@.map_values(
        |md: DisplayConfigModeInfo| tier1_rewrite_mode(
            md,
            old(settings).path_info_array@.map_values(
                |p: DisplayConfigPathInfo| tier1_rewrite_path(p, current.path_info_array@),
            ),
            current.mode_info_array@,
        ),
    ));
    settings.mode_info_array = new_modes;
    true
}

// ------------------------------------------------------------------------
// Tier 2: correlation by monitor friendly name.
// ------------------------------------------------------------------------
/// A stored mode takes part in tier 2 when it is target-kind and its
/// positional identity record is valid with a non-empty friendly name.
pub open spec fn tier2_gate(
    m: DisplayConfigModeInfo,
    i: int,
    infos: Seq<MonitorAdditionalInfo>,
) -> bool {
    &&& m.info_type == MODE_INFO_TYPE_TARGET
    &&& 0 <= i < infos.len()
    &&& infos[i].valid
    &&& infos[i].monitor_friendly_device@.len() > 0
}

/// The first live target-kind mode at or after `j` whose positional identity
/// record is valid and carries this friendly name.
pub open spec fn first_live_target_by_name(
    live_modes: Seq<DisplayConfigModeInfo>,
    live_infos: Seq<MonitorAdditionalInfo>,
    name: Seq<char>,
    j: int,
) -> Option<DisplayConfigModeInfo>
    decreases live_modes.len() - j,
{
    if j < 0 || j >= live_modes.len() {
        None
    } else if live_modes[j].info_type == MODE_INFO_TYPE_TARGET && j < live_infos.len()
        && live_infos[j].valid && live_infos[j].monitor_friendly_device@ == name {
        Some(live_modes[j])
    } else {
        first_live_target_by_name(live_modes, live_infos, name, j + 1)
    }
}

/// A stored mode after tier 2: a gated mode takes both the adapter
/// identifier and the ID of the first live mode with the same friendly name
/// (unlike tier 1, the target's own ID may have changed too).
pub open spec fn tier2_rewrite_mode(
    m: DisplayConfigModeInfo,
    i: int,
    infos: Seq<MonitorAdditionalInfo>,
    live_modes: Seq<DisplayConfigModeInfo>,
    live_infos: Seq<MonitorAdditionalInfo>,
) -> DisplayConfigModeInfo {
    if tier2_gate(m, i, infos) {
        match first_live_target_by_name(
            live_modes,
            live_infos,
            infos[i].monitor_friendly_device@,
            0,
        ) {
            Some(c) => DisplayConfigModeInfo { adapter_id: c.adapter_id, id: c.id, ..m },
            None => m,
        }
    } else {
        m
    }
}

/// The stored mode at position `i` finds a live friendly-name match.
pub open spec fn tier2_mode_matched(
    m: DisplayConfigModeInfo,
    i: int,
    infos: Seq<MonitorAdditionalInfo>,
    live_modes: Seq<DisplayConfigModeInfo>,
    live_infos: Seq<MonitorAdditionalInfo>,
) -> bool {
    tier2_gate(m, i, infos) && first_live_target_by_name(
        live_modes,
        live_infos,
        infos[i].monitor_friendly_device@,
        0,
    ) is Some
}

/// Tier 2 succeeds when at least one stored mode finds a name match.
pub open spec fn tier2_any_match(
    modes: Seq<DisplayConfigModeInfo>,
    infos: Seq<MonitorAdditionalInfo>,
    live_modes: Seq<DisplayConfigModeInfo>,
    live_infos: Seq<MonitorAdditionalInfo>,
) -> bool {
    exists|k: int|
        0 <= k < modes.len() && tier2_mode_matched(modes[k], k, infos, live_modes, live_infos)
}

/// All stored modes after tier 2.
pub open spec fn tier2_modes(
    modes: Seq<DisplayConfigModeInfo>,
    infos: Seq<MonitorAdditionalInfo>,
    live_modes: Seq<DisplayConfigModeInfo>,
    live_infos: Seq<MonitorAdditionalInfo>,
) -> Seq<DisplayConfigModeInfo> {
    Seq::new(
        modes.len(),
        |i: int| tier2_rewrite_mode(modes[i], i, infos, live_modes, live_infos),
    )
}

/// The adapter identifier of the last live path before `upto` whose source
/// carries this ID.
pub open spec fn last_source_adapter(
    live: Seq<DisplayConfigPathInfo>,
    sid: u32,
    upto: int,
) -> Option<LUID>
    decreases upto,
{
    if upto <= 0 || upto > live.len() {
        None
    } else if live[upto - 1].source_info.id == sid {
        Some(live[upto - 1].source_info.adapter_id)
    } else {
        last_source_adapter(live, sid, upto - 1)
    }
}

/// The adapter identifier of the last live path before `upto` whose target
/// carries this ID.
pub open spec fn last_target_adapter(
    live: Seq<DisplayConfigPathInfo>,
    tid: u32,
    upto: int,
) -> Option<LUID>
    decreases upto,
{
    if upto <= 0 || upto > live.len() {
        None
    } else if live[upto - 1].target_info.id == tid {
        Some(live[upto - 1].target_info.adapter_id)
    } else {
        last_target_adapter(live, tid, upto - 1)
    }
}

/// A stored path re-derived from the live paths after tier 2, best-effort
/// per side: source and target adapters are updated independently, each from
/// the last live path sharing its ID, and a side without a match stays stale.
pub open spec fn update_path_spec(
    p: DisplayConfigPathInfo,
    live: Seq<DisplayConfigPathInfo>,
) -> DisplayConfigPathInfo {
    DisplayConfigPathInfo {
        source_info: DisplayConfigPathSourceInfo {
            adapter_id: match last_source_adapter(live, p.source_info.id, live.len() as int) {
                Some(a) => a,
                None => p.source_info.adapter_id,
            },
            ..p.source_info
        },
        target_info: DisplayConfigPathTargetInfo {
            adapter_id: match last_target_adapter(live, p.target_info.id, live.len() as int) {
                Some(a) => a,
                None => p.target_info.adapter_id,
            },
            ..p.target_info
        },
        ..p
    }
}

/// The paths and modes tier 2 leaves behind.
pub open spec fn tier2_spec(
    stored_paths: Seq<DisplayConfigPathInfo>,
    stored_modes: Seq<DisplayConfigModeInfo>,
    infos: Seq<MonitorAdditionalInfo>,
    live_paths: Seq<DisplayConfigPathInfo>,
    live_modes: Seq<DisplayConfigModeInfo>,
    live_infos: Seq<MonitorAdditionalInfo>,
) -> (Seq<DisplayConfigPathInfo>, Seq<DisplayConfigModeInfo>) {
    if tier2_any_match(stored_modes, infos, live_modes, live_infos) {
        (
            stored_paths.map_values(|p: DisplayConfigPathInfo| update_path_spec(p, live_paths)),
            tier2_modes(stored_modes, infos, live_modes, live_infos),
        )
    } else {
        (stored_paths, stored_modes)
    }
}

fn find_live_target_by_name(
    live_modes: &Vec<DisplayConfigModeInfo>,
    live_infos: &Vec<MonitorAdditionalInfo>,
    name: &String,
) -> (r: Option<DisplayConfigModeInfo>)
    ensures
        r == first_live_target_by_name(live_modes@, live_infos@, name@, 0),
{
    let n = live_modes.len();
    let mut j: usize = 0;
    while j < n
        invariant
            n == live_modes@.len(),
            0 <= j <= n,
            first_live_target_by_name(live_modes@, live_infos@, name@, 0)
                == first_live_target_by_name(live_modes@, live_infos@, name@, j as int),
        decreases n - j,
    {
        let c = live_modes[j];
        if c.info_type == MODE_INFO_TYPE_TARGET && j < live_infos.len() {
            let ci = &live_infos[j];
            if ci.valid && ci.monitor_friendly_device.eq(name) {
                return Some(c);
            }
        }
        j += 1;
    }
    None
}

/// Re-derive every path's adapter identifiers from the live paths, each side
/// independently (see `update_path_spec`).
fn update_path_adapter_ids_from_modes(settings: &mut DisplaySettings, current: &DisplaySettings)
    ensures
        final(settings).path_info_array@ == old(settings).path_info_array@.map_values(
            |p: DisplayConfigPathInfo| update_path_spec(p, current.path_info_array@),
        ),
        final(settings).mode_info_array@ == old(settings).mode_info_array@,
{
    let n = settings.path_info_array.len();
    let live_len = current.path_info_array.len();
    let mut new_paths: Vec<DisplayConfigPathInfo> = Vec::new();
    let mut i: usize = 0;
    while i < n
        invariant
            n == settings.path_info_array@.len(),
            *settings == *old(settings),
            live_len == current.path_info_array@.len(),
            0 <= i <= n,
            new_paths@.len() == i,
            forall|k: int|
                0 <= k < i ==> new_paths@[k] == update_path_spec(
                    settings.path_info_array@[k],
                    current.path_info_array@,
                ),
        decreases n - i,
    {
        let p = settings.path_info_array[i];
        let mut q = p;
        let mut j: usize = 0;
        while j < live_len
            invariant
                live_len == current.path_info_array@.len(),
                0 <= j <= live_len,
                q.source_info.adapter_id == (match last_source_adapter(
                    current.path_info_array@,
                    p.source_info.id,
                    j as int,
                ) {
                    Some(a) => a,
                    None => p.source_info.adapter_id,
                }),
                q.target_info.adapter_id == (match last_target_adapter(
                    current.path_info_array@,
                    p.target_info.id,
                    j as int,
                ) {
                    Some(a) => a,
                    None => p.target_info.adapter_id,
                }),
                q == (DisplayConfigPathInfo {
                    source_info: DisplayConfigPathSourceInfo {
                        adapter_id: q.source_info.adapter_id,
                        ..p.source_info
                    },
                    target_info: DisplayConfigPathTargetInfo {
                        adapter_id: q.target_info.adapter_id,
                        ..p.target_info
                    },
                    ..p
                }),
            decreases live_len - j,
        {
            let c = current.path_info_array[j];
            if p.source_info.id == c.source_info.id {
                q.source_info.adapter_id = c.source_info.adapter_id;
            }
            if p.target_info.id == c.target_info.id {
                q.target_info.adapter_id = c.target_info.adapter_id;
            }
            j += 1;
        }
        new_paths.push(q);
        i += 1;
    }
    assert(new_paths@ =~= old(settings).path_info_array@.map_values(
        |p: DisplayConfigPathInfo| update_path_spec(p, current.path_info_array@),
    ));
    settings.path_info_array = new_paths;
}

/// Tier 2: rewrite target modes by matching monitor friendly names against
/// the live identities, then re-derive path adapters from the live paths.
/// Reports whether any mode matched; on failure the settings are untouched.
pub fn try_match_by_friendly_name(
    settings: &mut DisplaySettings,
    additional_info: &Vec<MonitorAdditionalInfo>,
    current: &DisplaySettings,
    current_additional_info: &Vec<MonitorAdditionalInfo>,
) -> (matched: bool)
    ensures
        matched == tier2_any_match(
            old(settings).mode_info_array@,
            additional_info@,
            current.mode_info_array@,
            current_additional_info@,
        ),
        ({
            let (ps, ms) = tier2_spec(
                old(settings).path_info_array@,
                old(settings).mode_info_array@,
                additional_info@,
                current.path_info_array@,
                current.mode_info_array@,
                current_additional_info@,
            );
            final(settings).path_info_array@ == ps && final(settings).mode_info_array@ == ms
        }),
{
    let m = settings.mode_info_array.len();
    let mut new_modes: Vec<DisplayConfigModeInfo> = Vec::new();
    let mut matched_any = false;
    let mut i: usize = 0;
    while i < m
        invariant
            m == settings.mode_info_array@.len(),
            *settings == *old(settings),
            0 <= i <= m,
            new_modes@.len() == i,
            forall|k: int|
                0 <= k < i ==> new_modes@[k] == tier2_rewrite_mode(
                    settings.mode_info_array@[k],
                    k,
                    additional_info@,
                    current.mode_info_array@,
                    current_additional_info@,
                ),
            matched_any == exists|k: int|
                0 <= k < i && tier2_mode_matched(
                    settings.mode_info_array@[k],
                    k,
                    additional_info@,
                    current.mode_info_array@,
                    current_additional_info@,
                ),
        decreases m - i,
    {
        let md = settings.mode_info_array[i];
        let mut handled = false;
        if md.info_type == MODE_INFO_TYPE_TARGET && i < additional_info.len() {
            let saved = &additional_info[i];
            if saved.valid && !saved.monitor_friendly_device.as_str().is_empty() {
                match find_live_target_by_name(
                    &current.mode_info_array,
                    current_additional_info,
                    &saved.monitor_friendly_device,
                ) {
                    Some(c) => {
                        let mut m2 = md;
                        m2.adapter_id = c.adapter_id;
                        m2.id = c.id;
                        new_modes.push(m2);
                        matched_any = true;
                        handled = true;
                    },
                    None => {},
                }
            }
        }
        if !handled {
            new_modes.push(md);
        }
        i += 1;
    }
    if !matched_any {
        return false;
    }
    assert(new_modes@ =~= tier2_modes(
        old(settings).mode_info_array@,
        additional_info@,
        current.mode_info_array@,
        current_additional_info@,
    ));
    settings.mode_info_array = new_modes;
    update_path_adapter_ids_from_modes(settings, current);
    true
}

// ------------------------------------------------------------------------
// Tier 3: bulk substitution of one stale adapter identifier.
// ------------------------------------------------------------------------
/// The first live path at or after `j` sharing this path's source ID but
/// carrying a different source adapter; the result is the (stale, live)
/// adapter pair.
pub open spec fn tier3_inner(
    p: DisplayConfigPathInfo,
    live: Seq<DisplayConfigPathInfo>,
    j: int,
) -> Option<(LUID, LUID)>
    decreases live.len() - j,
{
    if j < 0 || j >= live.len() {
        None
    } else if live[j].source_info.id == p.source_info.id && live[j].source_info.adapter_id
        != p.source_info.adapter_id {
        Some((p.source_info.adapter_id, live[j].source_info.adapter_id))
    } else {
        tier3_inner(p, live, j + 1)
    }
}

/// The first (stale, live) adapter pair found by scanning stored paths in
/// order, each against all live paths in order.
pub open spec fn tier3_find(
    stored: Seq<DisplayConfigPathInfo>,
    live: Seq<DisplayConfigPathInfo>,
    i: int,
) -> Option<(LUID, LUID)>
    decreases stored.len() - i,
{
    if i < 0 || i >= stored.len() {
        None
    } else {
        match tier3_inner(stored[i], live, 0) {
            Some(x) => Some(x),
            None => tier3_find(stored, live, i + 1),
        }
    }
}

/// An adapter identifier after bulk substitution.
pub open spec fn replace_luid(a: LUID, old_id: LUID, new_id: LUID) -> LUID {
    if a == old_id {
        new_id
    } else {
        a
    }
}

/// A path with every occurrence of the stale adapter identifier replaced.
pub open spec fn replace_path_luids(
    p: DisplayConfigPathInfo,
    old_id: LUID,
    new_id: LUID,
) -> DisplayConfigPathInfo {
    DisplayConfigPathInfo {
        source_info: DisplayConfigPathSourceInfo {
            adapter_id: replace_luid(p.source_info.adapter_id, old_id, new_id),
            ..p.source_info
        },
        target_info: DisplayConfigPathTargetInfo {
            adapter_id: replace_luid(p.target_info.adapter_id, old_id, new_id),
            ..p.target_info
        },
        ..p
    }
}

/// A mode with the stale adapter identifier replaced.
pub open spec fn replace_mode_luid(
    m: DisplayConfigModeInfo,
    old_id: LUID,
    new_id: LUID,
) -> DisplayConfigModeInfo {
    DisplayConfigModeInfo { adapter_id: replace_luid(m.adapter_id, old_id, new_id), ..m }
}

/// The paths and modes tier 3 leaves behind. The tier assumes exactly one
/// stale adapter identity; on a system where several stored adapters map to
/// several live ones this substitution is unsound, and that limitation is
/// kept as it is rather than guessed around.
pub open spec fn tier3_spec(
    stored_paths: Seq<DisplayConfigPathInfo>,
    stored_modes: Seq<DisplayConfigModeInfo>,
    live_paths: Seq<DisplayConfigPathInfo>,
) -> (Seq<DisplayConfigPathInfo>, Seq<DisplayConfigModeInfo>) {
    match tier3_find(stored_paths, live_paths, 0) {
        Some((old_id, new_id)) => (
            stored_paths.map_values(
                |p: DisplayConfigPathInfo| replace_path_luids(p, old_id, new_id),
            ),
            stored_modes.map_values(
                |m: DisplayConfigModeInfo| replace_mode_luid(m, old_id, new_id),
            ),
        ),
        None => (stored_paths, stored_modes),
    }
}

/// Replace every occurrence of one adapter identifier, in every path's
/// source and target and in every mode.
pub fn replace_all_adapter_ids(settings: &mut DisplaySettings, old_id: LUID, new_id: LUID)
    ensures
        final(settings).path_info_array@ == old(settings).path_info_array@.map_values(
            |p: DisplayConfigPathInfo| replace_path_luids(p, old_id, new_id),
        ),
        final(settings).mode_info_array@ == old(settings).mode_info_array@.map_values(
            |m: DisplayConfigModeInfo| replace_mode_luid(m, old_id, new_id),
        ),
{
    let n = settings.path_info_array.len();
    let mut new_paths: Vec<DisplayConfigPathInfo> = Vec::new();
    let mut i: usize = 0;
    while i < n
        invariant
            n == settings.path_info_array@.len(),
            *settings == *old(settings),
            0 <= i <= n,
            new_paths@.len() == i,
            forall|k: int|
                0 <= k < i ==> new_paths@[k] == replace_path_luids(
                    settings.path_info_array@[k],
                    old_id,
                    new_id,
                ),
        decreases n - i,
    {
        let p = settings.path_info_array[i];
        let mut q = p;
        if q.source_info.adapter_id == old_id {
            q.source_info.adapter_id = new_id;
        }
        if q.target_info.adapter_id == old_id {
            q.target_info.adapter_id = new_id;
        }
        new_paths.push(q);
        i += 1;
    }
    let m = settings.mode_info_array.len();
    let mut new_modes: Vec<DisplayConfigModeInfo> = Vec::new();
    let mut j: usize = 0;
    while j < m
        invariant
            m == settings.mode_info_array@.len(),
            settings.mode_info_array@ == old(settings).mode_info_array@,
            0 <= j <= m,
            new_modes@.len() == j,
            forall|k: int|
                0 <= k < j ==> new_modes@[k] == replace_mode_luid(
                    settings.mode_info_array@[k],
                    old_id,
                    new_id,
                ),
        decreases m - j,
    {
        let md = settings.mode_info_array[j];
        let mut m2 = md;
        if m2.adapter_id == old_id {
            m2.adapter_id = new_id;
        }
        new_modes.push(m2);
        j += 1;
    }
    assert(new_paths@ =~= old(settings).path_info_array@.map_values(
        |p: DisplayConfigPathInfo| replace_path_luids(p, old_id, new_id),
    ));
    assert(new_modes@ =~= old(settings).mode_info_array@.map_values(
        |md: DisplayConfigModeInfo| replace_mode_luid(md, old_id, new_id),
    ));
    settings.path_info_array = new_paths;
    settings.mode_info_array = new_modes;
}

/// Tier 3: find one stored/live source-ID correlation whose adapters differ
/// and substitute that adapter identifier everywhere. Reports whether such a
/// pair was found; on failure the settings are untouched.
pub fn try_bulk_replacement(settings: &mut DisplaySettings, current: &DisplaySettings) -> (matched:
    bool)
    ensures
        matched == (tier3_find(
            old(settings).path_info_array@,
            current.path_info_array@,
            0,
        ) is Some),
        ({
            let (ps, ms) = tier3_spec(
                old(settings).path_info_array@,
                old(settings).mode_info_array@,
                current.path_info_array@,
            );
            final(settings).path_info_array@ == ps && final(settings).mode_info_array@ == ms
        }),
{
    let n = settings.path_info_array.len();
    let live_len = current.path_info_array.len();
    let mut i: usize = 0;
    while i < n
        invariant
            n == settings.path_info_array@.len(),
            *settings == *old(settings),
            live_len == current.path_info_array@.len(),
            0 <= i <= n,
            tier3_find(settings.path_info_array@, current.path_info_array@, 0) == tier3_find(
                settings.path_info_array@,
                current.path_info_array@,
                i as int,
            ),
        decreases n - i,
    {
        let p = settings.path_info_array[i];
        let mut j: usize = 0;
        while j < live_len
            invariant
                n == settings.path_info_array@.len(),
                *settings == *old(settings),
                live_len == current.path_info_array@.len(),
                0 <= i < n,
                p == settings.path_info_array@[i as int],
                tier3_find(settings.path_info_array@, current.path_info_array@, 0) == tier3_find(
                    settings.path_info_array@,
                    current.path_info_array@,
                    i as int,
                ),
                0 <= j <= live_len,
                tier3_inner(p, current.path_info_array@, 0) == tier3_inner(
                    p,
                    current.path_info_array@,
                    j as int,
                ),
            decreases live_len - j,
        {
            let c = current.path_info_array[j];
            if p.source_info.id == c.source_info.id && p.source_info.adapter_id
                != c.source_info.adapter_id {
                let old_id = p.source_info.adapter_id;
                let new_id = c.source_info.adapter_id;
                proof {
                    assert(tier3_inner(p, current.path_info_array@, j as int) == Some(
                        (old_id, new_id),
                    ));
                    assert(tier3_find(
                        settings.path_info_array@,
                        current.path_info_array@,
                        i as int,
                    ) == Some((old_id, new_id)));
                }
                replace_all_adapter_ids(settings, old_id, new_id);
                return true;
            }
            j += 1;
        }
        i += 1;
    }
    false
}

// ------------------------------------------------------------------------
// The resolver: tiers in order, first success wins.
// ------------------------------------------------------------------------
/// Which tier the resolver succeeded with, if any.
#[derive(Debug, Clone, Copy, PartialEq, Eq, Structural)]
pub enum MatchOutcome {
    /// Tier 1: matched by source/target ID pairs.
    MatchedByIds,
    /// Tier 2: matched by monitor friendly name.
    MatchedByName,
    /// Tier 3: one adapter identifier substituted everywhere.
    MatchedByBulkReplace,
    /// No tier found a correlation; the stored topology is kept as it is.
    Unmatched,
}

/// The paths and modes the resolver produces: the result of the first tier
/// that matches, or the input unchanged when none does.
pub open spec fn resolver_spec(
    stored_paths: Seq<DisplayConfigPathInfo>,
    stored_modes: Seq<DisplayConfigModeInfo>,
    infos: Seq<MonitorAdditionalInfo>,
    live_paths: Seq<DisplayConfigPathInfo>,
    live_modes: Seq<DisplayConfigModeInfo>,
    live_infos: Seq<MonitorAdditionalInfo>,
) -> (Seq<DisplayConfigPathInfo>, Seq<DisplayConfigModeInfo>) {
    if tier1_any_match(stored_paths, live_paths) {
        tier1_spec(stored_paths, stored_modes, live_paths, live_modes)
    } else if tier2_any_match(stored_modes, infos, live_modes, live_infos) {
        tier2_spec(stored_paths, stored_modes, infos, live_paths, live_modes, live_infos)
    } else {
        tier3_spec(stored_paths, stored_modes, live_paths)
    }
}

/// Which outcome the resolver reports.
pub open spec fn resolver_outcome_spec(
    stored_paths: Seq<DisplayConfigPathInfo>,
    stored_modes: Seq<DisplayConfigModeInfo>,
    infos: Seq<MonitorAdditionalInfo>,
    live_paths: Seq<DisplayConfigPathInfo>,
    live_modes: Seq<DisplayConfigModeInfo>,
    live_infos: Seq<MonitorAdditionalInfo>,
) -> MatchOutcome {
    if tier1_any_match(stored_paths, live_paths) {
        MatchOutcome::MatchedByIds
    } else if tier2_any_match(stored_modes, infos, live_modes, live_infos) {
        MatchOutcome::MatchedByName
    } else if tier3_find(stored_paths, live_paths, 0) is Some {
        MatchOutcome::MatchedByBulkReplace
    } else {
        MatchOutcome::Unmatched
    }
}

/// Match a stored topology's adapter identifiers to the live system's, using
/// the three-tier fallback. Never fails: when no tier matches, the stored
/// settings are left as they are and `Unmatched` is reported.
pub fn match_adapter_ids(
    settings: &mut DisplaySettings,
    additional_info: &Vec<MonitorAdditionalInfo>,
    current: &DisplaySettings,
    current_additional_info: &Vec<MonitorAdditionalInfo>,
) -> (outcome: MatchOutcome)
    ensures
        ({
            let (ps, ms) = resolver_spec(
                old(settings).path_info_array@,
                old(settings).mode_info_array@,
                additional_info@,
                current.path_info_array@,
                current.mode_info_array@,
                current_additional_info@,
            );
            final(settings).path_info_array@ == ps && final(settings).mode_info_array@ == ms
        }),
        outcome == resolver_outcome_spec(
            old(settings).path_info_array@,
            old(settings).mode_info_array@,
            additional_info@,
            current.path_info_array@,
            current.mode_info_array@,
            current_additional_info@,
        ),
{
    if try_match_by_ids(settings, current) {
        return MatchOutcome::MatchedByIds;
    }
    if try_match_by_friendly_name(settings, additional_info, current, current_additional_info) {
        return MatchOutcome::MatchedByName;
    }
    if try_bulk_replacement(settings, current) {
        return MatchOutcome::MatchedByBulkReplace;
    }
    MatchOutcome::Unmatched
}

/// First success wins: wherever the ID-pair tier can succeed, the resolver's
/// result is exactly that tier's result, even if a later tier would also
/// produce a (different) match.
pub proof fn lemma_tier_ordering(
    stored_paths: Seq<DisplayConfigPathInfo>,
    stored_modes: Seq<DisplayConfigModeInfo>,
    infos: Seq<MonitorAdditionalInfo>,
    live_paths: Seq<DisplayConfigPathInfo>,
    live_modes: Seq<DisplayConfigModeInfo>,
    live_infos: Seq<MonitorAdditionalInfo>,
)
    requires
        tier1_any_match(stored_paths, live_paths),
    ensures
        resolver_spec(stored_paths, stored_modes, infos, live_paths, live_modes, live_infos)
            == tier1_spec(stored_paths, stored_modes, live_paths, live_modes),
        resolver_outcome_spec(
            stored_paths,
            stored_modes,
            infos,
            live_paths,
            live_modes,
            live_infos,
        ) == MatchOutcome::MatchedByIds,
{
}

/// Exhaustion is not an error: where no tier finds a correlation, the
/// resolver returns the stored topology unchanged.
pub proof fn lemma_resolver_exhaustion(
    stored_paths: Seq<DisplayConfigPathInfo>,
    stored_modes: Seq<DisplayConfigModeInfo>,
    infos: Seq<MonitorAdditionalInfo>,
    live_paths: Seq<DisplayConfigPathInfo>,
    live_modes: Seq<DisplayConfigModeInfo>,
    live_infos: Seq<MonitorAdditionalInfo>,
)
    requires
        !tier1_any_match(stored_paths, live_paths),
        !tier2_any_match(stored_modes, infos, live_modes, live_infos),
        tier3_find(stored_paths, live_paths, 0) is None,
    ensures
        resolver_spec(stored_paths, stored_modes, infos, live_paths, live_modes, live_infos) == (
        stored_paths, stored_modes),
        resolver_outcome_spec(
            stored_paths,
            stored_modes,
            infos,
            live_paths,
            live_modes,
            live_infos,
        ) == MatchOutcome::Unmatched,
{
}

} // verus!
