use screen_stream::error::CaptureError;
use screen_stream::rect::ScreenRect;
use screen_stream::region::select_capture_region;
use screen_stream::CANVAS_HEIGHT;
use screen_stream::CANVAS_WIDTH;

fn desktop(origin_x: i32, origin_y: i32, width: i32, height: i32) -> ScreenRect {
    ScreenRect::new(origin_x, origin_y, width, height)
}

#[test]
fn pointer_at_desktop_corner() {
    // Pointer at (0,0) on a desktop with origin (0,0): the desired rectangle
    // starts at (-240,-135), clips to (0,0), and the clipped half lands at
    // canvas offset (240,135).
    let bounds = desktop(0, 0, 1920, 1080);
    let req = select_capture_region(0, 0, &bounds).unwrap();
    assert_eq!(req.source.origin_x, 0);
    assert_eq!(req.source.origin_y, 0);
    assert_eq!(req.source.width, 240);
    assert_eq!(req.source.height, 135);
    assert_eq!(req.dest_x, 240);
    assert_eq!(req.dest_y, 135);
    assert_eq!(req.canvas_width, CANVAS_WIDTH);
    assert_eq!(req.canvas_height, CANVAS_HEIGHT);
}

#[test]
fn pointer_in_desktop_center_needs_no_clipping() {
    let bounds = desktop(0, 0, 1920, 1080);
    let req = select_capture_region(960, 540, &bounds).unwrap();
    assert_eq!(req.source.origin_x, 960 - 240);
    assert_eq!(req.source.origin_y, 540 - 135);
    assert_eq!(req.source.width, 480);
    assert_eq!(req.source.height, 270);
    assert_eq!(req.dest_x, 0);
    assert_eq!(req.dest_y, 0);
}

#[test]
fn pointer_far_outside_yields_no_visible_area() {
    let bounds = desktop(0, 0, 1920, 1080);
    let err = select_capture_region(5000, 5000, &bounds).unwrap_err();
    assert_eq!(err, CaptureError::NoVisibleArea);
    assert!(err.is_skip());
}

#[test]
fn pointer_on_far_edge_still_sees_a_sliver() {
    let bounds = desktop(0, 0, 1920, 1080);
    let req = select_capture_region(1920, 1080, &bounds).unwrap();
    assert_eq!(req.source.origin_x, 1920 - 240);
    assert_eq!(req.source.origin_y, 1080 - 135);
    assert_eq!(req.source.width, 240);
    assert_eq!(req.source.height, 135);
    assert_eq!(req.dest_x, 0);
    assert_eq!(req.dest_y, 0);
}

#[test]
fn pointer_on_secondary_monitor_with_negative_origin() {
    let bounds = desktop(-1920, 0, 3840, 1080);
    let req = select_capture_region(-1800, 540, &bounds).unwrap();
    assert_eq!(req.source.origin_x, -1920);
    assert_eq!(req.source.origin_y, 540 - 135);
    assert_eq!(req.source.width, 360);
    assert_eq!(req.source.height, 270);
    assert_eq!(req.dest_x, 120);
    assert_eq!(req.dest_y, 0);
}

#[test]
fn empty_desktop_never_has_visible_area() {
    let bounds = desktop(0, 0, 0, 0);
    let err = select_capture_region(0, 0, &bounds).unwrap_err();
    assert_eq!(err, CaptureError::NoVisibleArea);
}
