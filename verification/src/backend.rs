//! Capture parameters of the stand-alone backend.
use vstd::prelude::*;

verus! {

/// Capture parameters exchanged with the capture worker of the backend.
///
/// - `screen_width`, `screen_height`: filled in by the capture worker
/// - `capture_depth`, `capture_step`: taken from the configuration
/// - `is_ready`: synchronisation flag
#[derive(Clone, Copy, Debug, PartialEq, Eq, Structural)]
pub struct CaptureConfig {
    pub screen_width: u32,
    pub screen_height: u32,
    pub capture_depth: u32,
    pub capture_step: u32,
    pub is_ready: bool,
}

} // verus!
