use screen_stream::error::CaptureError;
use screen_stream::iteration::CaptureIteration;
use screen_stream::iteration::FrameSequencer;
use screen_stream::iteration::IterationOutcome;
use screen_stream::rect::ScreenRect;
use screen_stream::CANVAS_HEIGHT;
use screen_stream::CANVAS_WIDTH;

fn bounds() -> ScreenRect {
    ScreenRect::new(0, 0, 1920, 1080)
}

fn canvas_bgra() -> Vec<u8> {
    // One canvas worth of pixels; the first is pure blue in BGRA order.
    let mut buf = vec![0u8; CANVAS_WIDTH * CANVAS_HEIGHT * 4];
    buf[0] = 0xFF;
    buf[3] = 0xFF;
    buf
}

#[test]
fn successful_iteration_walks_every_phase() {
    let mut it = CaptureIteration::new(7);
    let req = it.begin(960, 540, Ok(bounds())).expect("region");
    assert_eq!(req.source.width, 480);
    assert_eq!(req.source.height, 270);
    assert!(it.surface_captured(Ok(())));
    it.cursor_composited();
    assert!(it.pixels_extracted(Ok(canvas_bgra())));
    let frame = it.convert_frame();
    assert_eq!(frame.len(), CANVAS_WIDTH * CANVAS_HEIGHT * 2);
    // The first pixel was blue in the surface's BGRA order, so it encodes as
    // packed blue, high byte first.
    assert_eq!(frame[0], 0x00);
    assert_eq!(frame[1], 0x1F);
    assert!(it.dispatch_resolved(false));
    let delay = it.pace(2_000);
    assert_eq!(delay, 8_000);
    assert_eq!(it.outcome, Some(IterationOutcome::Delivered));
    assert_eq!(it.tx_id, 7);
}

#[test]
fn cancellation_during_dispatch_ends_the_iteration() {
    let mut it = CaptureIteration::new(1);
    it.begin(960, 540, Ok(bounds())).expect("region");
    assert!(it.surface_captured(Ok(())));
    it.cursor_composited();
    assert!(it.pixels_extracted(Ok(canvas_bgra())));
    let _frame = it.convert_frame();
    // Cancellation wins the race: no pacing, no second delivery attempt.
    assert!(!it.dispatch_resolved(true));
    assert_eq!(it.outcome, Some(IterationOutcome::Cancelled));
}

#[test]
fn no_visible_area_skips_and_the_loop_continues() {
    // First invocation: the pointer sits far outside every display.
    let mut first = CaptureIteration::new(1);
    assert!(first.begin(50_000, 50_000, Ok(bounds())).is_none());
    assert_eq!(
        first.outcome,
        Some(IterationOutcome::Failed(CaptureError::NoVisibleArea))
    );
    assert!(CaptureError::NoVisibleArea.is_skip());

    // The next invocation begins untroubled.
    let mut second = CaptureIteration::new(2);
    assert!(second.begin(960, 540, Ok(bounds())).is_some());
}

#[test]
fn failed_bounds_query_is_surfaced() {
    let mut it = CaptureIteration::new(1);
    assert!(it.begin(0, 0, Err(CaptureError::DesktopQuery)).is_none());
    assert_eq!(
        it.outcome,
        Some(IterationOutcome::Failed(CaptureError::DesktopQuery))
    );
    assert!(!CaptureError::DesktopQuery.is_skip());
}

#[test]
fn failed_transfer_aborts_the_iteration() {
    let mut it = CaptureIteration::new(1);
    it.begin(960, 540, Ok(bounds())).expect("region");
    assert!(!it.surface_captured(Err(CaptureError::CaptureTransfer)));
    assert_eq!(
        it.outcome,
        Some(IterationOutcome::Failed(CaptureError::CaptureTransfer))
    );
}

#[test]
fn failed_allocation_aborts_the_iteration() {
    let mut it = CaptureIteration::new(1);
    it.begin(960, 540, Ok(bounds())).expect("region");
    assert!(!it.surface_captured(Err(CaptureError::SurfaceAllocation)));
    assert_eq!(
        it.outcome,
        Some(IterationOutcome::Failed(CaptureError::SurfaceAllocation))
    );
}

#[test]
fn wrong_sized_extraction_is_an_extraction_error() {
    let mut it = CaptureIteration::new(1);
    it.begin(960, 540, Ok(bounds())).expect("region");
    assert!(it.surface_captured(Ok(())));
    it.cursor_composited();
    assert!(!it.pixels_extracted(Ok(vec![0u8; 16])));
    assert_eq!(
        it.outcome,
        Some(IterationOutcome::Failed(CaptureError::Extraction))
    );
}

#[test]
fn failed_pixel_read_is_surfaced() {
    let mut it = CaptureIteration::new(1);
    it.begin(960, 540, Ok(bounds())).expect("region");
    assert!(it.surface_captured(Ok(())));
    it.cursor_composited();
    assert!(!it.pixels_extracted(Err(CaptureError::Extraction)));
    assert_eq!(
        it.outcome,
        Some(IterationOutcome::Failed(CaptureError::Extraction))
    );
}

#[test]
fn frame_transaction_ids_increase_monotonically() {
    let mut seq = FrameSequencer::new();
    assert_eq!(seq.next_tx_id(), 0);
    assert_eq!(seq.next_tx_id(), 1);
    assert_eq!(seq.next_tx_id(), 2);
}
