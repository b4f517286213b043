//! In-memory model of a display topology: paths, modes and DPI scaling.
//!
//! Adapter identifiers change on system restart, so matching a stored
//! topology to the live one must be done by other fields (see `matcher`).

use crate::strutil::{push_char, utf16_lossy_of, utf16_to_string_lossy};
use vstd::prelude::*;

verus! {

/// Tag of a mode entry that carries a source (render surface) description.
pub const MODE_INFO_TYPE_SOURCE: u32 = 1;

/// Tag of a mode entry that carries a target (physical output) description.
pub const MODE_INFO_TYPE_TARGET: u32 = 2;

/// Locally unique identifier for a display adapter.
///
/// Only meaningful within one enumeration of the display topology: the
/// operating system hands out fresh values on restart or driver reload.
#[derive(Debug, Clone, Copy, PartialEq, Eq, Structural)]
pub struct LUID {
    pub low_part: u32,
    pub high_part: u32,
}

/// Rational number (used for refresh rates and sync frequencies).
#[derive(Debug, Clone, Copy, PartialEq, Eq, Structural)]
pub struct DisplayConfigRational {
    pub numerator: u32,
    pub denominator: u32,
}

/// 2D region size in pixels.
#[derive(Debug, Clone, Copy, PartialEq, Eq, Structural)]
pub struct DisplayConfig2DRegion {
    pub cx: u32,
    pub cy: u32,
}

/// Point with x,y coordinates in the virtual desktop.
#[derive(Debug, Clone, Copy, PartialEq, Eq, Structural)]
pub struct PointL {
    pub x: i32,
    pub y: i32,
}

/// Source half of a display path: a rendering surface on an adapter.
#[derive(Debug, Clone, Copy, PartialEq, Eq, Structural)]
pub struct DisplayConfigPathSourceInfo {
    pub adapter_id: LUID,
    pub id: u32,
    pub mode_info_idx: u32,
    pub status_flags: u32,
}

/// Target half of a display path: a physical output with an attached monitor.
#[derive(Debug, Clone, Copy, PartialEq, Eq, Structural)]
pub struct DisplayConfigPathTargetInfo {
    pub adapter_id: LUID,
    pub id: u32,
    pub mode_info_idx: u32,
    pub output_technology: u32,
    pub rotation: u32,
    pub scaling: u32,
    pub refresh_rate: DisplayConfigRational,
    pub scan_line_ordering: u32,
    pub target_available: u32,
    pub status_flags: u32,
}

/// Display path binding one source to one target.
#[derive(Debug, Clone, Copy, PartialEq, Eq, Structural)]
pub struct DisplayConfigPathInfo {
    pub source_info: DisplayConfigPathSourceInfo,
    pub target_info: DisplayConfigPathTargetInfo,
    pub flags: u32,
}

/// Video signal timing information of a target mode.
#[derive(Debug, Clone, Copy, PartialEq, Eq, Structural)]
pub struct DisplayConfigVideoSignalInfo {
    pub pixel_rate: u64,
    pub h_sync_freq: DisplayConfigRational,
    pub v_sync_freq: DisplayConfigRational,
    pub active_size: DisplayConfig2DRegion,
    pub total_size: DisplayConfig2DRegion,
    pub video_standard: u32,
    pub scan_line_ordering: u32,
}

/// Target mode: the video signal driven on a physical output.
#[derive(Debug, Clone, Copy, PartialEq, Eq, Structural)]
pub struct DisplayConfigTargetMode {
    pub target_video_signal_info: DisplayConfigVideoSignalInfo,
}

/// Source mode: pixel geometry and position of a rendering surface.
#[derive(Debug, Clone, Copy, PartialEq, Eq, Structural)]
pub struct DisplayConfigSourceMode {
    pub width: u32,
    pub height: u32,
    pub pixel_format: u32,
    pub position: PointL,
}

/// Payload of a mode entry. Exactly one shape is valid per `info_type` tag;
/// the tag is the sole discriminator and is validated before payload access.
#[derive(Debug, Clone, Copy, PartialEq, Eq, Structural)]
pub enum ModeData {
    Target(DisplayConfigTargetMode),
    Source(DisplayConfigSourceMode),
    Empty,
}

/// Mode entry of a topology: either a source mode or a target mode,
/// tagged by `info_type`.
#[derive(Debug, Clone, Copy, PartialEq, Eq, Structural)]
pub struct DisplayConfigModeInfo {
    pub info_type: u32,
    pub id: u32,
    pub adapter_id: LUID,
    pub mode_data: ModeData,
}

impl Default for DisplayConfigModeInfo {
    /// An untagged mode entry with no payload.
    fn default() -> (r: Self)
        ensures
            r == (DisplayConfigModeInfo {
                info_type: 0,
                id: 0,
                adapter_id: LUID { low_part: 0, high_part: 0 },
                mode_data: ModeData::Empty,
            }),
    {
        DisplayConfigModeInfo {
            info_type: 0,
            id: 0,
            adapter_id: LUID { low_part: 0, high_part: 0 },
            mode_data: ModeData::Empty,
        }
    }
}

impl DisplayConfigModeInfo {
    /// The tag agrees with the payload shape: a target-tagged entry holds a
    /// target mode, a source-tagged entry a source mode, and an entry with
    /// any other tag holds no payload.
    pub open spec fn wf(self) -> bool {
        &&& self.info_type == MODE_INFO_TYPE_TARGET <==> self.mode_data is Target
        &&& self.info_type == MODE_INFO_TYPE_SOURCE <==> self.mode_data is Source
    }

    /// Read the payload as a target mode. Only valid when the tag says so.
    pub fn get_target_mode(&self) -> (r: DisplayConfigTargetMode)
        requires
            self.mode_data is Target,
        ensures
            r == self.mode_data->Target_0,
    {
        match self.mode_data {
            ModeData::Target(tm) => tm,
            _ => vstd::pervasive::unreached(),
        }
    }

    /// Read the payload as a source mode. Only valid when the tag says so.
    pub fn get_source_mode(&self) -> (r: DisplayConfigSourceMode)
        requires
            self.mode_data is Source,
        ensures
            r == self.mode_data->Source_0,
    {
        match self.mode_data {
            ModeData::Source(sm) => sm,
            _ => vstd::pervasive::unreached(),
        }
    }

    /// Replace the payload with a target mode.
    pub fn set_target_mode(&mut self, tm: &DisplayConfigTargetMode)
        ensures
            *final(self) == (DisplayConfigModeInfo { mode_data: ModeData::Target(*tm), ..*old(self) }),
    {
        self.mode_data = ModeData::Target(*tm);
    }

    /// Replace the payload with a source mode.
    pub fn set_source_mode(&mut self, sm: &DisplayConfigSourceMode)
        ensures
            *final(self) == (DisplayConfigModeInfo { mode_data: ModeData::Source(*sm), ..*old(self) }),
    {
        self.mode_data = ModeData::Source(*sm);
    }
}

/// Header naming the adapter, output and request kind of a device query.
#[derive(Debug, Clone, Copy, PartialEq, Eq, Structural)]
pub struct DisplayConfigDeviceInfoHeader {
    pub info_type: u32,
    pub size: u32,
    pub adapter_id: LUID,
    pub id: u32,
}

impl DisplayConfigDeviceInfoHeader {
    /// Create a header for the given request kind and reply-structure size.
    pub fn new(info_type: i32, size: u32, adapter_id: LUID, id: u32) -> (r: Self)
        ensures
            r == (DisplayConfigDeviceInfoHeader { info_type: info_type as u32, size, adapter_id, id }),
    {
        DisplayConfigDeviceInfoHeader { info_type: info_type as u32, size, adapter_id, id }
    }
}

/// Index of the first zero code unit at or after `i`; the length if none.
pub open spec fn first_nul(s: Seq<u16>, i: int) -> int
    decreases s.len() - i,
{
    if i < 0 || i >= s.len() {
        s.len() as int
    } else if s[i] == 0 {
        i
    } else {
        first_nul(s, i + 1)
    }
}

/// A UTF-16 buffer cut at its first zero code unit and decoded to a string.
pub open spec fn nul_terminated_utf16(s: Seq<u16>) -> Seq<char> {
    utf16_lossy_of(s.take(first_nul(s, 0)))
}

fn utf16_prefix_to_string(buf: &[u16]) -> (r: String)
    ensures
        r@ == nul_terminated_utf16(buf@),
{
    let len = buf.len();
    let mut units: Vec<u16> = Vec::new();
    let mut i: usize = 0;
    while i < len && buf[i] != 0
        invariant
            len == buf@.len(),
            0 <= i <= len,
            units@ == buf@.take(i as int),
            first_nul(buf@, 0) == first_nul(buf@, i as int),
        decreases len - i,
    {
        units.push(buf[i]);
        assert(units@ =~= buf@.take(i + 1 as int));
        i += 1;
    }
    assert(units@ =~= buf@.take(first_nul(buf@, 0)));
    utf16_to_string_lossy(&units)
}

/// Monitor name and device path of a target, as the identity probe reports it.
#[derive(Debug, Clone, Copy)]
pub struct DisplayConfigTargetDeviceName {
    pub header: DisplayConfigDeviceInfoHeader,
    pub flags: u32,
    pub output_technology: u32,
    pub edid_manufacture_id: u16,
    pub edid_product_code_id: u16,
    pub connector_instance: u32,
    pub monitor_friendly_device_name: [u16; 64],
    pub monitor_device_path: [u16; 128],
}

impl DisplayConfigTargetDeviceName {
    /// The monitor friendly name, decoded up to its first zero code unit.
    pub fn get_friendly_name(&self) -> (r: String)
        ensures
            r@ == nul_terminated_utf16(self.monitor_friendly_device_name@),
    {
        utf16_prefix_to_string(self.monitor_friendly_device_name.as_slice())
    }

    /// The monitor device path, decoded up to its first zero code unit.
    pub fn get_device_path(&self) -> (r: String)
        ensures
            r@ == nul_terminated_utf16(self.monitor_device_path@),
    {
        utf16_prefix_to_string(self.monitor_device_path.as_slice())
    }
}

/// The DPI scaling percentages the display settings offer, in order.
pub open spec fn spec_dpi_value(i: int) -> u32 {
    if i == 0 {
        100
    } else if i == 1 {
        125
    } else if i == 2 {
        150
    } else if i == 3 {
        175
    } else if i == 4 {
        200
    } else if i == 5 {
        225
    } else if i == 6 {
        250
    } else if i == 7 {
        300
    } else if i == 8 {
        350
    } else if i == 9 {
        400
    } else if i == 10 {
        450
    } else {
        500
    }
}

/// How many DPI scaling percentages the table holds.
pub const DPI_VALUE_COUNT: usize = 12;

/// The DPI percentage at a table index, when the index is in range.
pub open spec fn spec_dpi_from_index(i: int) -> Option<u32> {
    if 0 <= i < DPI_VALUE_COUNT {
        Some(spec_dpi_value(i))
    } else {
        None
    }
}

/// Get the DPI percentage at a table index, with bounds checking.
pub fn dpi_from_index(idx: usize) -> (r: Option<u32>)
    ensures
        r == spec_dpi_from_index(idx as int),
{
    if idx >= DPI_VALUE_COUNT {
        return None;
    }
    let v: u32 = if idx == 0 {
        100
    } else if idx == 1 {
        125
    } else if idx == 2 {
        150
    } else if idx == 3 {
        175
    } else if idx == 4 {
        200
    } else if idx == 5 {
        225
    } else if idx == 6 {
        250
    } else if idx == 7 {
        300
    } else if idx == 8 {
        350
    } else if idx == 9 {
        400
    } else if idx == 10 {
        450
    } else {
        500
    };
    Some(v)
}

/// The table index of a DPI percentage, when the table holds it.
pub open spec fn spec_dpi_to_index(dpi: u32) -> Option<usize> {
    if dpi == 100 {
        Some(0usize)
    } else if dpi == 125 {
        Some(1usize)
    } else if dpi == 150 {
        Some(2usize)
    } else if dpi == 175 {
        Some(3usize)
    } else if dpi == 200 {
        Some(4usize)
    } else if dpi == 225 {
        Some(5usize)
    } else if dpi == 250 {
        Some(6usize)
    } else if dpi == 300 {
        Some(7usize)
    } else if dpi == 350 {
        Some(8usize)
    } else if dpi == 400 {
        Some(9usize)
    } else if dpi == 450 {
        Some(10usize)
    } else if dpi == 500 {
        Some(11usize)
    } else {
        None
    }
}

/// Find the table index of a DPI percentage value.
pub fn dpi_to_index(dpi: u32) -> (r: Option<usize>)
    ensures
        r == spec_dpi_to_index(dpi),
        r is Some ==> spec_dpi_value(r->0 as int) == dpi,
{
    if dpi == 100 {
        Some(0)
    } else if dpi == 125 {
        Some(1)
    } else if dpi == 150 {
        Some(2)
    } else if dpi == 175 {
        Some(3)
    } else if dpi == 200 {
        Some(4)
    } else if dpi == 225 {
        Some(5)
    } else if dpi == 250 {
        Some(6)
    } else if dpi == 300 {
        Some(7)
    } else if dpi == 350 {
        Some(8)
    } else if dpi == 400 {
        Some(9)
    } else if dpi == 450 {
        Some(10)
    } else if dpi == 500 {
        Some(11)
    } else {
        None
    }
}

/// DPI scaling of a display source, in absolute percentages.
#[derive(Debug, Clone, Copy, PartialEq, Eq, Structural)]
pub struct DpiScalingInfo {
    /// Minimum DPI percentage (always 100).
    pub minimum: u32,
    /// Maximum supported DPI percentage.
    pub maximum: u32,
    /// Currently applied DPI percentage.
    pub current: u32,
    /// Recommended DPI percentage for this display.
    pub recommended: u32,
}

/// Reply structure of a DPI scaling query. The operating system reports
/// scaling as integer steps relative to the recommended table index.
#[derive(Debug, Clone, Copy, PartialEq, Eq, Structural)]
pub struct DisplayConfigSourceDpiScaleGet {
    pub header: DisplayConfigDeviceInfoHeader,
    /// Steps down from the recommended DPI to reach 100%.
    pub min_scale_rel: i32,
    /// Current DPI relative to the recommended one.
    pub cur_scale_rel: i32,
    /// Steps up from the recommended DPI to reach the maximum.
    pub max_scale_rel: i32,
}

/// Request structure for setting DPI scaling, relative to the recommended index.
#[derive(Debug, Clone, Copy, PartialEq, Eq, Structural)]
pub struct DisplayConfigSourceDpiScaleSet {
    pub header: DisplayConfigDeviceInfoHeader,
    /// Desired DPI relative to the recommended one.
    pub scale_rel: i32,
}

/// Absolute DPI percentages decoded from relative steps: the recommended
/// index is `-min`, and current/maximum are offsets from it. The decode
/// fails when `cur` lies outside `[min, max]` or an index leaves the table.
pub open spec fn spec_dpi_info(min: int, cur: int, max: int) -> Option<DpiScalingInfo> {
    if !(min <= cur <= max) {
        None
    } else if !(0 <= -min < DPI_VALUE_COUNT) {
        None
    } else if -min + max >= DPI_VALUE_COUNT {
        None
    } else {
        Some(
            DpiScalingInfo {
                minimum: 100,
                maximum: spec_dpi_value(-min + max),
                current: spec_dpi_value(-min + cur),
                recommended: spec_dpi_value(-min),
            },
        )
    }
}

impl DisplayConfigSourceDpiScaleGet {
    /// Convert the relative scale values to absolute DPI percentages.
    pub fn to_dpi_info(&self) -> (r: Option<DpiScalingInfo>)
        ensures
            r == spec_dpi_info(
                self.min_scale_rel as int,
                self.cur_scale_rel as int,
                self.max_scale_rel as int,
            ),
    {
        if self.cur_scale_rel < self.min_scale_rel || self.cur_scale_rel > self.max_scale_rel {
            return None;
        }
        let min = self.min_scale_rel as i64;
        let cur = self.cur_scale_rel as i64;
        let max = self.max_scale_rel as i64;
        let recommended_idx = -min;
        if recommended_idx < 0 || recommended_idx >= DPI_VALUE_COUNT as i64 {
            return None;
        }
        let max_idx = recommended_idx + max;
        if max_idx >= DPI_VALUE_COUNT as i64 {
            return None;
        }
        let current_idx = recommended_idx + cur;
        let maximum = match dpi_from_index(max_idx as usize) {
            Some(v) => v,
            None => vstd::pervasive::unreached(),
        };
        let current = match dpi_from_index(current_idx as usize) {
            Some(v) => v,
            None => vstd::pervasive::unreached(),
        };
        let recommended = match dpi_from_index(recommended_idx as usize) {
            Some(v) => v,
            None => vstd::pervasive::unreached(),
        };
        Some(DpiScalingInfo { minimum: 100, maximum, current, recommended })
    }
}

} // verus!
