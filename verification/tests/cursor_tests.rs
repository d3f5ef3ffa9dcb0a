use screen_stream::cursor::cursor_overlay_position;
use screen_stream::cursor::CursorState;
use screen_stream::rect::ScreenRect;
use screen_stream::region::select_capture_region;

fn request_at_center() -> screen_stream::region::CaptureRequest {
    let bounds = ScreenRect::new(0, 0, 1920, 1080);
    select_capture_region(960, 540, &bounds).unwrap()
}

#[test]
fn invisible_pointer_skips_compositing() {
    let state = CursorState { visible: false, screen_x: 960, screen_y: 540, hotspot: Some((3, 5)) };
    assert_eq!(cursor_overlay_position(&state, &request_at_center()), None);
}

#[test]
fn hotspot_corrects_the_draw_position() {
    // Source origin (720, 405), destination offset (0, 0).
    let state = CursorState { visible: true, screen_x: 960, screen_y: 540, hotspot: Some((3, 5)) };
    let pos = cursor_overlay_position(&state, &request_at_center()).unwrap();
    assert_eq!(pos, (960 - 720 - 3, 540 - 405 - 5));
}

#[test]
fn failed_hotspot_lookup_falls_back_to_uncorrected_position() {
    let state = CursorState { visible: true, screen_x: 960, screen_y: 540, hotspot: None };
    let pos = cursor_overlay_position(&state, &request_at_center()).unwrap();
    assert_eq!(pos, (240, 135));
}

#[test]
fn clipped_capture_shifts_the_draw_position_by_the_dest_offset() {
    // Pointer at the desktop corner: source origin (0,0), dest offset (240,135).
    let bounds = ScreenRect::new(0, 0, 1920, 1080);
    let req = select_capture_region(0, 0, &bounds).unwrap();
    let state = CursorState { visible: true, screen_x: 0, screen_y: 0, hotspot: Some((1, 2)) };
    let pos = cursor_overlay_position(&state, &req).unwrap();
    assert_eq!(pos, (0 - 0 + 240 - 1, 0 - 0 + 135 - 2));
}
