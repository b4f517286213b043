//! Capture/apply protocol around the topology model: filtering of captured
//! entries, identity-probe conversion, and the two-phase commit discipline.
//!
//! The operating-system calls themselves (querying, committing, probing)
//! live outside the library; everything here is the decision and data logic
//! those calls are wrapped around.

use crate::ccd::{
    nul_terminated_utf16, DisplayConfigModeInfo, DisplayConfigPathInfo,
    DisplayConfigTargetDeviceName, MODE_INFO_TYPE_TARGET,
};
use vstd::prelude::*;

verus! {

/// Flag of a topology query: restrict enumeration to active paths.
pub const QDC_ONLY_ACTIVE_PATHS: u32 = 0x00000002;

/// Flag of a topology query: enumerate all paths.
pub const QDC_ALL_PATHS: u32 = 0x00000001;

/// Commit flag: apply the supplied configuration.
pub const SDC_APPLY: u32 = 0x00000080;

/// Commit flag: use the supplied paths and modes rather than the database.
pub const SDC_USE_SUPPLIED_DISPLAY_CONFIG: u32 = 0x00000020;

/// Commit flag: persist the applied configuration.
pub const SDC_SAVE_TO_DATABASE: u32 = 0x00000200;

/// Commit flag: forbid the system from optimizing the transition.
pub const SDC_NO_OPTIMIZATION: u32 = 0x00000100;

/// Commit flag: let the system adjust the supplied configuration. Less safe
/// than the conservative set, so it is used only as the retry fallback.
pub const SDC_ALLOW_CHANGES: u32 = 0x00000400;

/// Display settings: the paths and modes of one topology enumeration.
#[derive(Debug, Clone)]
pub struct DisplaySettings {
    pub path_info_array: Vec<DisplayConfigPathInfo>,
    pub mode_info_array: Vec<DisplayConfigModeInfo>,
}

impl Default for DisplaySettings {
    /// An empty topology.
    fn default() -> (r: Self)
        ensures
            r.path_info_array@ == Seq::<DisplayConfigPathInfo>::empty(),
            r.mode_info_array@ == Seq::<DisplayConfigModeInfo>::empty(),
    {
        DisplaySettings { path_info_array: Vec::new(), mode_info_array: Vec::new() }
    }
}

/// Monitor identity derived from EDID data: stable across sessions, unlike
/// adapter identifiers.
#[derive(Debug)]
pub struct MonitorAdditionalInfo {
    pub manufacture_id: u16,
    pub product_code_id: u16,
    pub valid: bool,
    pub monitor_device_path: String,
    pub monitor_friendly_device: String,
}

/// An identity record that carries no information and is marked invalid.
pub open spec fn is_blank_info(info: MonitorAdditionalInfo) -> bool {
    &&& info.manufacture_id == 0
    &&& info.product_code_id == 0
    &&& !info.valid
    &&& info.monitor_device_path@ == Seq::<char>::empty()
    &&& info.monitor_friendly_device@ == Seq::<char>::empty()
}

impl Default for MonitorAdditionalInfo {
    /// A blank, invalid identity record.
    fn default() -> (r: Self)
        ensures
            is_blank_info(r),
    {
        MonitorAdditionalInfo {
            manufacture_id: 0,
            product_code_id: 0,
            valid: false,
            monitor_device_path: String::new(),
            monitor_friendly_device: String::new(),
        }
    }
}

impl Clone for MonitorAdditionalInfo {
    fn clone(&self) -> (r: Self)
        ensures
            r == *self,
    {
        MonitorAdditionalInfo {
            manufacture_id: self.manufacture_id,
            product_code_id: self.product_code_id,
            valid: self.valid,
            monitor_device_path: self.monitor_device_path.clone(),
            monitor_friendly_device: self.monitor_friendly_device.clone(),
        }
    }
}

/// A captured path is kept only when its target is available.
pub open spec fn path_is_kept(p: DisplayConfigPathInfo) -> bool {
    p.target_info.target_available != 0
}

/// A captured mode is kept only when its kind tag is set.
pub open spec fn mode_is_kept(m: DisplayConfigModeInfo) -> bool {
    m.info_type != 0
}

/// Defensively filter a captured topology: drop paths whose target is
/// unavailable and modes whose kind tag is unset, since the system may
/// return stale or placeholder entries even when asked for active data.
pub fn filter_captured_settings(
    paths: Vec<DisplayConfigPathInfo>,
    modes: Vec<DisplayConfigModeInfo>,
) -> (r: DisplaySettings)
    ensures
        r.path_info_array@ == paths@.filter(|p: DisplayConfigPathInfo| path_is_kept(p)),
        r.mode_info_array@ == modes@.filter(|m: DisplayConfigModeInfo| mode_is_kept(m)),
{
    let ghost pathpred = |p: DisplayConfigPathInfo| path_is_kept(p);
    let ghost modepred = |m: DisplayConfigModeInfo| mode_is_kept(m);
    let mut kept_paths: Vec<DisplayConfigPathInfo> = Vec::new();
    let mut i: usize = 0;
    let n = paths.len();
    proof {
        reveal(Seq::filter);
        assert(paths@.take(0) =~= Seq::<DisplayConfigPathInfo>::empty());
    }
    while i < n
        invariant
            pathpred == (|p: DisplayConfigPathInfo| path_is_kept(p)),
            n == paths@.len(),
            0 <= i <= n,
            kept_paths@ == paths@.take(i as int).filter(pathpred),
        decreases n - i,
    {
        let p = paths[i];
        if p.target_info.target_available != 0 {
            kept_paths.push(p);
        }
        proof {
            reveal(Seq::filter);
            assert(paths@.take(i + 1 as int).drop_last() =~= paths@.take(i as int));
            assert(paths@.take(i + 1 as int).last() == paths@[i as int]);
            assert(kept_paths@ == paths@.take(i + 1 as int).filter(pathpred));
        }
        i += 1;
    }
    let mut kept_modes: Vec<DisplayConfigModeInfo> = Vec::new();
    let mut j: usize = 0;
    let m = modes.len();
    proof {
        reveal(Seq::filter);
        assert(modes@.take(0) =~= Seq::<DisplayConfigModeInfo>::empty());
    }
    while j < m
        invariant
            modepred == (|m: DisplayConfigModeInfo| mode_is_kept(m)),
            m == modes@.len(),
            0 <= j <= m,
            kept_modes@ == modes@.take(j as int).filter(modepred),
        decreases m - j,
    {
        let md = modes[j];
        if md.info_type != 0 {
            kept_modes.push(md);
        }
        proof {
            reveal(Seq::filter);
            assert(modes@.take(j + 1 as int).drop_last() =~= modes@.take(j as int));
            assert(modes@.take(j + 1 as int).last() == modes@[j as int]);
            assert(kept_modes@ == modes@.take(j + 1 as int).filter(modepred));
        }
        j += 1;
    }
    proof {
        assert(paths@.take(n as int) =~= paths@);
        assert(modes@.take(m as int) =~= modes@);
    }
    DisplaySettings { path_info_array: kept_paths, mode_info_array: kept_modes }
}

/// Build the identity record of a target from a probe reply. A failed probe
/// never propagates: it yields a blank record marked invalid, whose identity
/// fields must be ignored.
pub fn get_monitor_additional_info(succeeded: bool, device_name: &DisplayConfigTargetDeviceName) -> (r:
    MonitorAdditionalInfo)
    ensures
        succeeded ==> r.manufacture_id == device_name.edid_manufacture_id
            && r.product_code_id == device_name.edid_product_code_id && r.valid
            && r.monitor_device_path@ == nul_terminated_utf16(device_name.monitor_device_path@)
            && r.monitor_friendly_device@ == nul_terminated_utf16(
            device_name.monitor_friendly_device_name@,
        ),
        !succeeded ==> is_blank_info(r),
{
    if succeeded {
        MonitorAdditionalInfo {
            manufacture_id: device_name.edid_manufacture_id,
            product_code_id: device_name.edid_product_code_id,
            valid: true,
            monitor_device_path: device_name.get_device_path(),
            monitor_friendly_device: device_name.get_friendly_name(),
        }
    } else {
        MonitorAdditionalInfo::default()
    }
}

/// Align probed identities with a mode array: a target-kind mode keeps its
/// probe result, every other entry becomes a blank, invalid record.
pub fn get_additional_info_for_modes(
    mode_info_array: &Vec<DisplayConfigModeInfo>,
    probed: &Vec<MonitorAdditionalInfo>,
) -> (r: Vec<MonitorAdditionalInfo>)
    requires
        probed@.len() == mode_info_array@.len(),
    ensures
        r@.len() == mode_info_array@.len(),
        forall|i: int|
            0 <= i < r@.len() ==> if mode_info_array@[i].info_type == MODE_INFO_TYPE_TARGET {
                r@[i] == probed@[i]
            } else {
                is_blank_info(r@[i])
            },
{
    let n = mode_info_array.len();
    let mut out: Vec<MonitorAdditionalInfo> = Vec::new();
    let mut i: usize = 0;
    while i < n
        invariant
            n == mode_info_array@.len(),
            probed@.len() == n,
            0 <= i <= n,
            out@.len() == i,
            forall|k: int|
                0 <= k < i ==> if mode_info_array@[k].info_type == MODE_INFO_TYPE_TARGET {
                    out@[k] == probed@[k]
                } else {
                    is_blank_info(out@[k])
                },
        decreases n - i,
    {
        if mode_info_array[i].info_type == MODE_INFO_TYPE_TARGET {
            out.push(probed[i].clone());
        } else {
            out.push(MonitorAdditionalInfo::default());
        }
        i += 1;
    }
    out
}

/// Where the two-phase commit stands: the conservative first attempt, the
/// permissive retry, or a terminal outcome.
#[derive(Debug, Clone, Copy, PartialEq, Eq, Structural)]
pub enum CommitPhase {
    /// About to try the conservative flag set.
    FirstAttempt,
    /// The first attempt was rejected; about to retry with the permissive set.
    RetryAttempt,
    /// A commit attempt was accepted.
    Succeeded,
    /// Both attempts were rejected; carries the final status code.
    Failed(u32),
}

/// The conservative flag set of the first commit attempt.
pub open spec fn spec_conservative_flags() -> u32 {
    SDC_APPLY | SDC_USE_SUPPLIED_DISPLAY_CONFIG | SDC_SAVE_TO_DATABASE | SDC_NO_OPTIMIZATION
}

/// The permissive flag set of the retry: the conservative set plus allow-changes.
pub open spec fn spec_permissive_flags() -> u32 {
    spec_conservative_flags() | SDC_ALLOW_CHANGES
}

/// The flag set a pending commit attempt must pass.
pub fn commit_attempt_flags(phase: CommitPhase) -> (r: u32)
    requires
        phase is FirstAttempt || phase is RetryAttempt,
    ensures
        phase is FirstAttempt ==> r == spec_conservative_flags(),
        phase is RetryAttempt ==> r == spec_permissive_flags(),
{
    let base = SDC_APPLY | SDC_USE_SUPPLIED_DISPLAY_CONFIG | SDC_SAVE_TO_DATABASE
        | SDC_NO_OPTIMIZATION;
    match phase {
        CommitPhase::RetryAttempt => base | SDC_ALLOW_CHANGES,
        _ => base,
    }
}

/// The next phase after an attempt returned `result_code` (zero is success):
/// a rejected first attempt earns exactly one retry; a rejected retry fails
/// with that code; terminal phases stay put.
pub open spec fn spec_commit_step(phase: CommitPhase, result_code: u32) -> CommitPhase {
    match phase {
        CommitPhase::FirstAttempt => if result_code == 0 {
            CommitPhase::Succeeded
        } else {
            CommitPhase::RetryAttempt
        },
        CommitPhase::RetryAttempt => if result_code == 0 {
            CommitPhase::Succeeded
        } else {
            CommitPhase::Failed(result_code)
        },
        terminal => terminal,
    }
}

/// Advance the commit state machine by one attempt result.
pub fn commit_step(phase: CommitPhase, result_code: u32) -> (r: CommitPhase)
    ensures
        r == spec_commit_step(phase, result_code),
{
    match phase {
        CommitPhase::FirstAttempt => if result_code == 0 {
            CommitPhase::Succeeded
        } else {
            CommitPhase::RetryAttempt
        },
        CommitPhase::RetryAttempt => if result_code == 0 {
            CommitPhase::Succeeded
        } else {
            CommitPhase::Failed(result_code)
        },
        terminal => terminal,
    }
}

/// Commit retry discipline: a successful first attempt never retries; a
/// rejected first attempt triggers exactly one retry, which runs with the
/// permissive flag set; a rejected retry surfaces the failure, and both
/// terminal phases absorb any further step.
pub proof fn lemma_commit_retry(first_code: u32, second_code: u32)
    ensures
        first_code == 0 ==> spec_commit_step(CommitPhase::FirstAttempt, first_code)
            == CommitPhase::Succeeded,
        first_code != 0 ==> spec_commit_step(CommitPhase::FirstAttempt, first_code)
            == CommitPhase::RetryAttempt,
        first_code != 0 && second_code == 0 ==> spec_commit_step(
            spec_commit_step(CommitPhase::FirstAttempt, first_code),
            second_code,
        ) == CommitPhase::Succeeded,
        first_code != 0 && second_code != 0 ==> spec_commit_step(
            spec_commit_step(CommitPhase::FirstAttempt, first_code),
            second_code,
        ) == CommitPhase::Failed(second_code),
        forall|c: u32|
            spec_commit_step(CommitPhase::Succeeded, c) == CommitPhase::Succeeded
                && #[trigger] spec_commit_step(CommitPhase::Failed(second_code), c)
                == CommitPhase::Failed(second_code),
{
}

} // verus!
