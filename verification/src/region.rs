//! Selection of the capture region: a canvas-sized rectangle centered on the
//! pointer, clipped to the virtual desktop, together with the offset at which
//! the clipped part must land inside the output canvas so the composition
//! stays centered where the unclipped rectangle would have been.

use vstd::prelude::*;

use crate::error::CaptureError;
use crate::rect::ScreenRect;
use crate::CANVAS_HEIGHT;
use crate::CANVAS_WIDTH;

verus! {

/// One iteration's capture plan: which desktop rectangle to read and where to
/// place it inside the fixed output canvas.
#[derive(Clone, Copy, Debug, PartialEq, Eq, Structural)]
pub struct CaptureRequest {
    /// The clipped source rectangle, in desktop coordinates.
    pub source: ScreenRect,
    /// Canvas-space x offset at which `source` is placed.
    pub dest_x: i32,
    /// Canvas-space y offset at which `source` is placed.
    pub dest_y: i32,
    /// Width of the output canvas; fixed for the life of the process.
    pub canvas_width: usize,
    /// Height of the output canvas; fixed for the life of the process.
    pub canvas_height: usize,
}

impl CaptureRequest {
    /// Well-formed: the source is a non-empty rectangle no larger than the
    /// canvas, and placed at `dest` it lies entirely inside the canvas.
    pub open spec fn wf(self) -> bool {
        &&& self.source.wf()
        &&& self.source.width > 0
        &&& self.source.height > 0
        &&& self.canvas_width == CANVAS_WIDTH
        &&& self.canvas_height == CANVAS_HEIGHT
        &&& 0 <= self.dest_x
        &&& 0 <= self.dest_y
        &&& self.dest_x + self.source.width <= self.canvas_width
        &&& self.dest_y + self.source.height <= self.canvas_height
    }
}

/// Leftmost column of the desired (unclipped) rectangle centered on `mx`.
pub open spec fn desired_origin_x(mx: int) -> int {
    mx - CANVAS_WIDTH as int / 2
}

/// Topmost row of the desired (unclipped) rectangle centered on `my`.
pub open spec fn desired_origin_y(my: int) -> int {
    my - CANVAS_HEIGHT as int / 2
}

/// Left edge of the desired rectangle clipped to the desktop.
pub open spec fn clipped_left(mx: int, bounds: ScreenRect) -> int {
    if desired_origin_x(mx) > bounds.origin_x {
        desired_origin_x(mx)
    } else {
        bounds.origin_x as int
    }
}

/// Top edge of the desired rectangle clipped to the desktop.
pub open spec fn clipped_top(my: int, bounds: ScreenRect) -> int {
    if desired_origin_y(my) > bounds.origin_y {
        desired_origin_y(my)
    } else {
        bounds.origin_y as int
    }
}

/// Right edge (exclusive) of the desired rectangle clipped to the desktop.
pub open spec fn clipped_right(mx: int, bounds: ScreenRect) -> int {
    if desired_origin_x(mx) + CANVAS_WIDTH < bounds.right() {
        desired_origin_x(mx) + CANVAS_WIDTH
    } else {
        bounds.right()
    }
}

/// Bottom edge (exclusive) of the desired rectangle clipped to the desktop.
pub open spec fn clipped_bottom(my: int, bounds: ScreenRect) -> int {
    if desired_origin_y(my) + CANVAS_HEIGHT < bounds.bottom() {
        desired_origin_y(my) + CANVAS_HEIGHT
    } else {
        bounds.bottom()
    }
}

/// The desired rectangle overlaps the desktop in a region of positive area.
pub open spec fn visible(mx: int, my: int, bounds: ScreenRect) -> bool {
    &&& clipped_right(mx, bounds) - clipped_left(mx, bounds) > 0
    &&& clipped_bottom(my, bounds) - clipped_top(my, bounds) > 0
}

/// The capture plan selected for a pointer at `(mx, my)`: the clipped source
/// rectangle and the canvas offset that keeps the composition centered.
/// Meaningful whenever `visible(mx, my, bounds)` holds.
pub open spec fn selected_request(mx: int, my: int, bounds: ScreenRect) -> CaptureRequest {
    CaptureRequest {
        source: ScreenRect {
            origin_x: clipped_left(mx, bounds) as i32,
            origin_y: clipped_top(my, bounds) as i32,
            width: (clipped_right(mx, bounds) - clipped_left(mx, bounds)) as i32,
            height: (clipped_bottom(my, bounds) - clipped_top(my, bounds)) as i32,
        },
        dest_x: (clipped_left(mx, bounds) - desired_origin_x(mx)) as i32,
        dest_y: (clipped_top(my, bounds) - desired_origin_y(my)) as i32,
        canvas_width: CANVAS_WIDTH,
        canvas_height: CANVAS_HEIGHT,
    }
}

/// Computes the capture plan for a pointer at `(mouse_x, mouse_y)`: the
/// canvas-sized rectangle centered on the pointer, clipped to `bounds`, and
/// the canvas offset that keeps the composition centered.  Returns
/// `NoVisibleArea` exactly when the clipped region is empty; that outcome is
/// a recoverable skip of the current iteration, never a fault.
pub fn select_capture_region(mouse_x: i32, mouse_y: i32, bounds: &ScreenRect) -> (r: Result<
    CaptureRequest,
    CaptureError,
>)
    requires
        bounds.wf(),
    ensures
        r is Ok <==> visible(mouse_x as int, mouse_y as int, *bounds),
        r matches Err(e) ==> e == CaptureError::NoVisibleArea,
        r matches Ok(req) ==> {
            &&& req.wf()
            &&& req == selected_request(mouse_x as int, mouse_y as int, *bounds)
            &&& req.source.origin_x == clipped_left(mouse_x as int, *bounds)
            &&& req.source.origin_y == clipped_top(mouse_y as int, *bounds)
            &&& req.source.width == clipped_right(mouse_x as int, *bounds) - clipped_left(
                mouse_x as int,
                *bounds,
            )
            &&& req.source.height == clipped_bottom(mouse_y as int, *bounds) - clipped_top(
                mouse_y as int,
                *bounds,
            )
            &&& req.dest_x == clipped_left(mouse_x as int, *bounds) - desired_origin_x(
                mouse_x as int,
            )
            &&& req.dest_y == clipped_top(mouse_y as int, *bounds) - desired_origin_y(
                mouse_y as int,
            )
        },
{
    let canvas_w: i64 = CANVAS_WIDTH as i64;
    let canvas_h: i64 = CANVAS_HEIGHT as i64;
    let desired_x: i64 = mouse_x as i64 - canvas_w / 2;
    let desired_y: i64 = mouse_y as i64 - canvas_h / 2;

    let bounds_left: i64 = bounds.origin_x as i64;
    let bounds_top: i64 = bounds.origin_y as i64;
    let bounds_right: i64 = bounds.origin_x as i64 + bounds.width as i64;
    let bounds_bottom: i64 = bounds.origin_y as i64 + bounds.height as i64;

    let left: i64 = if desired_x > bounds_left {
        desired_x
    } else {
        bounds_left
    };
    let top: i64 = if desired_y > bounds_top {
        desired_y
    } else {
        bounds_top
    };
    let right: i64 = if desired_x + canvas_w < bounds_right {
        desired_x + canvas_w
    } else {
        bounds_right
    };
    let bottom: i64 = if desired_y + canvas_h < bounds_bottom {
        desired_y + canvas_h
    } else {
        bounds_bottom
    };

    let adjusted_width: i64 = right - left;
    let adjusted_height: i64 = bottom - top;
    if adjusted_width <= 0 || adjusted_height <= 0 {
        return Err(CaptureError::NoVisibleArea);
    }

    Ok(
        CaptureRequest {
            source: ScreenRect {
                origin_x: left as i32,
                origin_y: top as i32,
                width: adjusted_width as i32,
                height: adjusted_height as i32,
            },
            dest_x: (left - desired_x) as i32,
            dest_y: (top - desired_y) as i32,
            canvas_width: CANVAS_WIDTH,
            canvas_height: CANVAS_HEIGHT,
        },
    )
}

/// For any pointer strictly inside the desktop bounds, selection finds a
/// region of positive size and a destination offset inside the canvas.
pub proof fn lemma_pointer_inside_yields_visible(mx: int, my: int, bounds: ScreenRect)
    requires
        bounds.wf(),
        bounds.interior_contains(mx, my),
    ensures
        visible(mx, my, bounds),
        0 <= clipped_left(mx, bounds) - desired_origin_x(mx) < CANVAS_WIDTH,
        0 <= clipped_top(my, bounds) - desired_origin_y(my) < CANVAS_HEIGHT,
{
}

/// A pointer so far outside the desktop that the desired rectangle misses the
/// desktop entirely selects no visible area.
pub proof fn lemma_pointer_far_outside_yields_no_area(mx: int, my: int, bounds: ScreenRect)
    requires
        bounds.wf(),
        desired_origin_x(mx) + CANVAS_WIDTH <= bounds.origin_x || desired_origin_x(mx)
            >= bounds.right() || desired_origin_y(my) + CANVAS_HEIGHT <= bounds.origin_y
            || desired_origin_y(my) >= bounds.bottom(),
    ensures
        !visible(mx, my, bounds),
{
}

} // verus!

