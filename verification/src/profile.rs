//! The profile document: the stable, versioned form a topology is persisted
//! in. Field names and nesting of the serialized form follow a fixed external
//! convention for compatibility with pre-existing tooling; these types mirror
//! that document one field for one.

use vstd::prelude::*;

verus! {

/// Root object of a persisted display profile.
#[derive(Debug, Clone)]
pub struct DisplayProfile {
    pub version: i32,
    pub path_info_array: Vec<PathInfo>,
    pub mode_info_array: Vec<ModeInfo>,
    pub additional_info: Vec<ProfileMonitorInfo>,
    /// DPI scaling settings per source. Added at format version 2; absent in
    /// older documents, which decode to an empty sequence.
    pub dpi_scale_info: Vec<DpiScaleInfo>,
}

impl Default for DisplayProfile {
    /// An empty profile at the initial format version.
    fn default() -> (r: Self)
        ensures
            r.version == 1,
            r.path_info_array@ == Seq::<PathInfo>::empty(),
            r.mode_info_array@ == Seq::<ModeInfo>::empty(),
            r.additional_info@ == Seq::<ProfileMonitorInfo>::empty(),
            r.dpi_scale_info@ == Seq::<DpiScaleInfo>::empty(),
    {
        DisplayProfile {
            version: 1,
            path_info_array: Vec::new(),
            mode_info_array: Vec::new(),
            additional_info: Vec::new(),
            dpi_scale_info: Vec::new(),
        }
    }
}

/// Display path information.
#[derive(Debug, Clone, Copy, PartialEq, Eq, Structural)]
pub struct PathInfo {
    pub source_info: PathSourceInfo,
    pub target_info: PathTargetInfo,
    pub flags: u32,
}

/// Source information of a path.
#[derive(Debug, Clone, Copy, PartialEq, Eq, Structural)]
pub struct PathSourceInfo {
    pub adapter_id: AdapterId,
    pub id: u32,
    pub mode_info_idx: u32,
    pub status_flags: u32,
}

/// Target information of a path.
#[derive(Debug, Clone, Copy, PartialEq, Eq, Structural)]
pub struct PathTargetInfo {
    pub adapter_id: AdapterId,
    pub id: u32,
    pub mode_info_idx: u32,
    pub output_technology: u32,
    pub rotation: u32,
    pub scaling: u32,
    pub refresh_rate: Rational,
    pub scan_line_ordering: u32,
    pub target_available: bool,
    pub status_flags: u32,
}

/// Adapter identifier as persisted.
#[derive(Debug, Clone, Copy, PartialEq, Eq, Structural)]
pub struct AdapterId {
    pub low_part: u32,
    pub high_part: u32,
}

/// Rational number as persisted.
#[derive(Debug, Clone, Copy, PartialEq, Eq, Structural)]
pub struct Rational {
    pub numerator: u32,
    pub denominator: u32,
}

/// Mode information: the kind tag with at most one payload variant set.
#[derive(Debug, Clone, Copy, PartialEq)]
pub struct ModeInfo {
    pub info_type: u32,
    pub id: u32,
    pub adapter_id: AdapterId,
    pub target_mode: Option<TargetMode>,
    pub source_mode: Option<SourceMode>,
}

/// Target mode information.
#[derive(Debug, Clone, Copy, PartialEq, Eq, Structural)]
pub struct TargetMode {
    pub target_video_signal_info: VideoSignalInfo,
}

/// Video signal timing information.
#[derive(Debug, Clone, Copy, PartialEq, Eq, Structural)]
pub struct VideoSignalInfo {
    pub pixel_rate: i64,
    pub h_sync_freq: Rational,
    pub v_sync_freq: Rational,
    pub active_size: Region2D,
    pub total_size: Region2D,
    pub video_standard: u32,
    pub scan_line_ordering: u32,
}

/// 2D region size.
#[derive(Debug, Clone, Copy, PartialEq, Eq, Structural)]
pub struct Region2D {
    pub cx: u32,
    pub cy: u32,
}

/// Source mode information.
#[derive(Debug, Clone, Copy, PartialEq, Eq, Structural)]
pub struct SourceMode {
    pub width: u32,
    pub height: u32,
    pub pixel_format: u32,
    pub position: Point,
}

/// 2D point.
#[derive(Debug, Clone, Copy, PartialEq, Eq, Structural)]
pub struct Point {
    pub x: i32,
    pub y: i32,
}

/// Additional monitor metadata as persisted.
#[derive(Debug)]
pub struct ProfileMonitorInfo {
    pub manufacture_id: u16,
    pub product_code_id: u16,
    pub valid: bool,
    pub monitor_device_path: String,
    pub monitor_friendly_device: String,
}

impl Clone for ProfileMonitorInfo {
    fn clone(&self) -> (r: Self)
        ensures
            r == *self,
    {
        ProfileMonitorInfo {
            manufacture_id: self.manufacture_id,
            product_code_id: self.product_code_id,
            valid: self.valid,
            monitor_device_path: self.monitor_device_path.clone(),
            monitor_friendly_device: self.monitor_friendly_device.clone(),
        }
    }
}

/// DPI scaling of one display source as persisted.
#[derive(Debug, Clone, Copy, PartialEq, Eq, Structural)]
pub struct DpiScaleInfo {
    /// Source ID this DPI setting applies to.
    pub source_id: u32,
    /// DPI scaling percentage (100, 125, 150, and so on).
    pub dpi_scale: u32,
}

} // verus!
