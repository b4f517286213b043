//! Save and restore multi-monitor display configurations.
//!
//! The library models display topologies (paths, modes, monitor identity,
//! DPI scale), converts them losslessly to a versioned profile document,
//! and re-binds a stored profile's stale adapter identifiers to the live
//! system's identifiers with a three-tier fallback matcher.

pub mod api;
pub mod ccd;
pub mod convert;
pub mod details;
pub mod edid;
pub mod digits;
pub mod matcher;
pub mod profile;
pub mod rotation;
pub mod storage;
pub mod xrandr;
pub mod strutil;
