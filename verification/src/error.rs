//! The error taxonomy of one capture iteration.

use vstd::prelude::*;

verus! {

/// Everything that can cut one capture iteration short.  Every variant is
/// recovered at the capture-loop boundary: the caller logs it, delivers no
/// frame for that cycle, and re-invokes the loop on the next cycle.
#[derive(Clone, Copy, Debug, PartialEq, Eq, Structural)]
pub enum CaptureError {
    /// The query for the virtual-desktop bounds failed.
    DesktopQuery,
    /// A drawing surface or transfer buffer could not be created.
    SurfaceAllocation,
    /// The pixel transfer from the live desktop into the surface failed.
    CaptureTransfer,
    /// The selected capture region clipped to an empty rectangle; the
    /// iteration is skipped, never treated as a fault.
    NoVisibleArea,
    /// Reading raw pixels out of the surface failed or returned a buffer of
    /// the wrong size.
    Extraction,
}

impl CaptureError {
    /// An empty clipped region is an expected skip (the pointer merely sat
    /// outside the desktop); every other variant is a failure worth
    /// surfacing to logging before the next cycle.
    pub fn is_skip(&self) -> (r: bool)
        ensures
            r <==> *self is NoVisibleArea,
    {
        matches!(self, CaptureError::NoVisibleArea)
    }
}

} // verus!
