//! The camera debug window (drawn by the application's UI layer).
use vstd::prelude::*;

verus! {

/// Marker resource: while it is present, the camera debug window is shown.
#[derive(Debug, Clone, Copy)]
pub struct CameraDebugWindow;

} // verus!
