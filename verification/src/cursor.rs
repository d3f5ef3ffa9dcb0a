//! Where to draw the pointer icon inside the captured canvas.

use vstd::prelude::*;

use crate::region::CaptureRequest;

verus! {

/// What one iteration learns about the pointer before compositing.  The
/// native icon handle itself stays with the capture backend; this holds the
/// values the placement decision reads.
#[derive(Clone, Copy, Debug, PartialEq, Eq)]
pub struct CursorState {
    /// Whether the pointer is currently shown at all.
    pub visible: bool,
    /// Pointer position, in desktop coordinates.
    pub screen_x: i32,
    /// Pointer position, in desktop coordinates.
    pub screen_y: i32,
    /// The icon's hotspot offset, when its lookup succeeded: the pixel within
    /// the icon that stands on the logical pointer tip.
    pub hotspot: Option<(i32, i32)>,
}

/// The icon's canvas-space draw position: the pointer's desktop position
/// translated into canvas space, corrected by the hotspot.
pub open spec fn icon_position_spec(
    cursor_x: int,
    cursor_y: int,
    request: CaptureRequest,
    hotspot_x: int,
    hotspot_y: int,
) -> (int, int) {
    (
        cursor_x - request.source.origin_x + request.dest_x - hotspot_x,
        cursor_y - request.source.origin_y + request.dest_y - hotspot_y,
    )
}

/// Decides the cursor overlay for one iteration.  An invisible pointer skips
/// compositing entirely (no error).  A visible pointer is drawn at its
/// canvas-space position corrected by the hotspot; when the hotspot lookup
/// failed, the uncorrected position is used rather than aborting the
/// iteration.
pub fn cursor_overlay_position(state: &CursorState, request: &CaptureRequest) -> (pos: Option<
    (i64, i64),
>)
    ensures
        pos is Some <==> state.visible,
        state.hotspot matches Some(h) ==> (pos matches Some(p) ==> (p.0 as int, p.1 as int)
            == icon_position_spec(
            state.screen_x as int,
            state.screen_y as int,
            *request,
            h.0 as int,
            h.1 as int,
        )),
        state.hotspot is None ==> (pos matches Some(p) ==> (p.0 as int, p.1 as int)
            == icon_position_spec(
            state.screen_x as int,
            state.screen_y as int,
            *request,
            0,
            0,
        )),
{
    if !state.visible {
        return None;
    }
    let base_x: i64 = state.screen_x as i64 - request.source.origin_x as i64
        + request.dest_x as i64;
    let base_y: i64 = state.screen_y as i64 - request.source.origin_y as i64
        + request.dest_y as i64;
    match state.hotspot {
        Some((hx, hy)) => Some((base_x - hx as i64, base_y - hy as i64)),
        None => Some((base_x, base_y)),
    }
}

} // verus!
