//! One end-to-end capture iteration as a state machine.
//!
//! The caller owns the native backend and the delivery channel; this machine
//! owns the decisions.  Each invocation of the capture loop walks the phases
//! strictly in order — select the region, capture, composite, extract,
//! convert, dispatch, pace — and every early exit records why.  The caller
//! performs the blocking native work on an isolated worker and feeds each
//! outcome back in as the next event.

use vstd::prelude::*;

use crate::error::CaptureError;
use crate::pacing::pace_delay_micros;
use crate::pixel::encode_rgb565;
use crate::pixel::encode_rgb565_spec;
use crate::pixel::normalize_bgra;
use crate::pixel::normalized_rgba;
use crate::rect::ScreenRect;
use crate::region::select_capture_region;
use crate::region::selected_request;
use crate::region::visible;
use crate::region::CaptureRequest;
use crate::CANVAS_HEIGHT;
use crate::CANVAS_WIDTH;
use crate::FRAME_INTERVAL_MICROS;

verus! {

/// The stations of one capture iteration, traversed strictly in this order;
/// `Done` absorbs every early exit.
#[derive(Clone, Copy, Debug, PartialEq, Eq, Structural)]
pub enum Phase {
    Idle,
    Capturing,
    Compositing,
    Extracting,
    Converting,
    Dispatching,
    Pacing,
    Done,
}

/// How one iteration ended.  Every variant leaves the capture loop alive: the
/// caller logs a failure and simply re-invokes on the next cycle.
#[derive(Clone, Copy, Debug, PartialEq, Eq, Structural)]
pub enum IterationOutcome {
    /// The frame was delivered and the iteration paced out its interval.
    Delivered,
    /// Cancellation won the dispatch race; nothing was delivered and no
    /// pacing suspension follows.
    Cancelled,
    /// The iteration ended early; the error says at which station.
    Failed(CaptureError),
}

/// The state of one capture iteration.  Nothing in it survives the iteration:
/// the caller builds a fresh machine each cycle.
pub struct CaptureIteration {
    /// Where the iteration stands.
    pub phase: Phase,
    /// The transaction identifier the frame will be dispatched under.
    pub tx_id: u64,
    /// The capture plan, from region selection onward.
    pub request: Option<CaptureRequest>,
    /// The normalized red, green, blue, alpha buffer, between extraction and
    /// conversion.
    pub raw: Option<Vec<u8>>,
    /// Why the iteration ended, once it has.
    pub outcome: Option<IterationOutcome>,
}

impl CaptureIteration {
    /// The machine's invariant: each phase carries exactly the data its
    /// remaining work needs, and an outcome exists exactly once the iteration
    /// is done.
    pub open spec fn wf(self) -> bool {
        &&& (self.phase is Idle ==> self.request is None && self.raw is None)
        &&& ((self.phase is Capturing || self.phase is Compositing || self.phase is Extracting)
            ==> (self.request matches Some(req) && req.wf()) && self.raw is None)
        &&& (self.phase is Converting ==> (self.request matches Some(req) && req.wf()) && (
        self.raw matches Some(raw) && raw@.len() == CANVAS_WIDTH * CANVAS_HEIGHT * 4))
        &&& ((self.phase is Dispatching || self.phase is Pacing) ==> self.raw is None)
        &&& (self.phase is Done <==> self.outcome is Some)
    }

    /// A fresh iteration, not yet begun, that will dispatch under `tx_id`.
    pub fn new(tx_id: u64) -> (it: Self)
        ensures
            it.wf(),
            it.phase is Idle,
            it.tx_id == tx_id,
    {
        CaptureIteration { phase: Phase::Idle, tx_id, request: None, raw: None, outcome: None }
    }

    /// Begins the iteration from the pointer position and the result of the
    /// desktop-bounds query.  A failed query is fatal for the iteration; an
    /// empty clipped region is a recoverable skip; otherwise the returned
    /// request is what the backend must capture next.
    pub fn begin(&mut self, mouse_x: i32, mouse_y: i32, bounds: Result<ScreenRect, CaptureError>) -> (r:
        Option<CaptureRequest>)
        requires
            old(self).wf(),
            old(self).phase is Idle,
            bounds matches Ok(b) ==> b.wf(),
        ensures
            final(self).wf(),
            final(self).tx_id == old(self).tx_id,
            bounds matches Err(e) ==> final(self).phase is Done && final(self).outcome == Some(
                IterationOutcome::Failed(e),
            ) && r is None,
            bounds matches Ok(b) ==> (visible(mouse_x as int, mouse_y as int, b) ==> {
                &&& final(self).phase is Capturing
                &&& r == Some(selected_request(mouse_x as int, mouse_y as int, b))
                &&& final(self).request == r
            }),
            bounds matches Ok(b) ==> (!visible(mouse_x as int, mouse_y as int, b) ==> {
                &&& final(self).phase is Done
                &&& final(self).outcome == Some(IterationOutcome::Failed(CaptureError::NoVisibleArea))
                &&& r is None
            }),
    {
        match bounds {
            Err(e) => {
                self.phase = Phase::Done;
                self.outcome = Some(IterationOutcome::Failed(e));
                None
            },
            Ok(b) => {
                match select_capture_region(mouse_x, mouse_y, &b) {
                    Ok(req) => {
                        self.phase = Phase::Capturing;
                        self.request = Some(req);
                        Some(req)
                    },
                    Err(e) => {
                        self.phase = Phase::Done;
                        self.outcome = Some(IterationOutcome::Failed(e));
                        None
                    },
                }
            },
        }
    }

    /// Records the backend's transfer result.  On success compositing
    /// follows; on failure the iteration ends with the error recorded (the
    /// backend's scoped owners have already released every handle).
    pub fn surface_captured(&mut self, result: Result<(), CaptureError>) -> (go_on: bool)
        requires
            old(self).wf(),
            old(self).phase is Capturing,
        ensures
            final(self).wf(),
            final(self).tx_id == old(self).tx_id,
            result is Ok ==> final(self).phase is Compositing && go_on && final(self).request
                == old(self).request,
            result matches Err(e) ==> final(self).phase is Done && final(self).outcome == Some(
                IterationOutcome::Failed(e),
            ) && !go_on,
    {
        match result {
            Ok(()) => {
                self.phase = Phase::Compositing;
                true
            },
            Err(e) => {
                self.phase = Phase::Done;
                self.outcome = Some(IterationOutcome::Failed(e));
                false
            },
        }
    }

    /// Closes the compositing station.  Compositing never fails the
    /// iteration: an invisible pointer was skipped, and a failed icon draw is
    /// ignored.
    pub fn cursor_composited(&mut self)
        requires
            old(self).wf(),
            old(self).phase is Compositing,
        ensures
            final(self).wf(),
            final(self).tx_id == old(self).tx_id,
            final(self).phase is Extracting,
            final(self).request == old(self).request,
    {
        self.phase = Phase::Extracting;
    }

    /// Takes the raw bytes read back from the surface, in the native blue,
    /// green, red, alpha order.  A read failure or a buffer of the wrong size
    /// ends the iteration as an extraction error; otherwise the buffer is
    /// normalized to red, green, blue, alpha and conversion follows.
    pub fn pixels_extracted(&mut self, result: Result<Vec<u8>, CaptureError>) -> (go_on: bool)
        requires
            old(self).wf(),
            old(self).phase is Extracting,
        ensures
            final(self).wf(),
            final(self).tx_id == old(self).tx_id,
            final(self).request == old(self).request,
            result matches Ok(bgra) ==> (bgra@.len() == CANVAS_WIDTH * CANVAS_HEIGHT * 4 ==> {
                &&& final(self).phase is Converting
                &&& go_on
                &&& (final(self).raw matches Some(raw) && raw@ == normalized_rgba(bgra@))
            }),
            result matches Ok(bgra) ==> (bgra@.len() != CANVAS_WIDTH * CANVAS_HEIGHT * 4 ==> {
                &&& final(self).phase is Done
                &&& final(self).outcome == Some(IterationOutcome::Failed(CaptureError::Extraction))
                &&& !go_on
            }),
            result matches Err(e) ==> final(self).phase is Done && final(self).outcome == Some(
                IterationOutcome::Failed(e),
            ) && !go_on,
    {
        match result {
            Ok(bgra) => {
                if bgra.len() == CANVAS_WIDTH * CANVAS_HEIGHT * 4 {
                    let rgba = normalize_bgra(&bgra);
                    self.raw = Some(rgba);
                    self.phase = Phase::Converting;
                    true
                } else {
                    self.phase = Phase::Done;
                    self.outcome = Some(IterationOutcome::Failed(CaptureError::Extraction));
                    false
                }
            },
            Err(e) => {
                self.phase = Phase::Done;
                self.outcome = Some(IterationOutcome::Failed(e));
                false
            },
        }
    }

    /// Converts the normalized buffer into the packed 16-bit frame and hands
    /// it out for dispatch.  The frame is a pure function of the extracted
    /// pixels; dispatching it under this iteration's transaction id is next.
    pub fn convert_frame(&mut self) -> (frame: Vec<u8>)
        requires
            old(self).wf(),
            old(self).phase is Converting,
        ensures
            final(self).wf(),
            final(self).tx_id == old(self).tx_id,
            final(self).request == old(self).request,
            final(self).phase is Dispatching,
            old(self).raw matches Some(raw) ==> frame@ == encode_rgb565_spec(raw@),
            frame@.len() == CANVAS_WIDTH * CANVAS_HEIGHT * 2,
    {
        let raw = self.raw.take().unwrap();
        let frame = encode_rgb565(&raw, CANVAS_WIDTH, CANVAS_HEIGHT);
        self.phase = Phase::Dispatching;
        frame
    }

    /// Settles the race between delivering the frame and cancellation.  If
    /// cancellation won, the iteration is over at once: the frame was not
    /// delivered, no second delivery may be attempted, and no pacing
    /// suspension follows.
    pub fn dispatch_resolved(&mut self, cancelled: bool) -> (go_on: bool)
        requires
            old(self).wf(),
            old(self).phase is Dispatching,
        ensures
            final(self).wf(),
            final(self).tx_id == old(self).tx_id,
            cancelled ==> final(self).phase is Done && final(self).outcome == Some(
                IterationOutcome::Cancelled,
            ) && !go_on,
            !cancelled ==> final(self).phase is Pacing && go_on && final(self).outcome is None,
    {
        if cancelled {
            self.phase = Phase::Done;
            self.outcome = Some(IterationOutcome::Cancelled);
            false
        } else {
            self.phase = Phase::Pacing;
            true
        }
    }

    /// Ends a delivered iteration: returns how long the caller must still
    /// suspend to fill the frame interval — the remainder when the work was
    /// quick, nothing when the iteration already ran long.
    pub fn pace(&mut self, elapsed_micros: u64) -> (delay_micros: u64)
        requires
            old(self).wf(),
            old(self).phase is Pacing,
        ensures
            final(self).wf(),
            final(self).tx_id == old(self).tx_id,
            final(self).phase is Done,
            final(self).outcome == Some(IterationOutcome::Delivered),
            elapsed_micros < FRAME_INTERVAL_MICROS ==> delay_micros == FRAME_INTERVAL_MICROS
                - elapsed_micros,
            elapsed_micros >= FRAME_INTERVAL_MICROS ==> delay_micros == 0,
    {
        self.phase = Phase::Done;
        self.outcome = Some(IterationOutcome::Delivered);
        pace_delay_micros(elapsed_micros, FRAME_INTERVAL_MICROS)
    }
}

/// Hands out the transaction identifiers that dispatched frames carry, one
/// greater on every call — the identifiers increase monotonically across
/// iterations.
pub struct FrameSequencer {
    /// The identifier the next frame will carry.
    pub next: u64,
}

impl FrameSequencer {
    pub fn new() -> (s: Self)
        ensures
            s.next == 0,
    {
        FrameSequencer { next: 0 }
    }

    /// The identifier for the next frame; each call returns one more than the
    /// last.
    pub fn next_tx_id(&mut self) -> (id: u64)
        requires
            old(self).next < u64::MAX,
        ensures
            id == old(self).next,
            final(self).next == old(self).next + 1,
    {
        let id = self.next;
        self.next = self.next + 1;
        id
    }
}

/// A cancelled iteration is finished outright: it stands in no phase from
/// which the frame could be dispatched again or a pacing suspension taken.
pub proof fn lemma_cancelled_iteration_is_done(it: CaptureIteration)
    requires
        it.wf(),
        it.outcome == Some(IterationOutcome::Cancelled),
    ensures
        it.phase is Done,
        !(it.phase is Dispatching),
        !(it.phase is Pacing),
{
}

/// An empty clipped region never ends the capture loop: the iteration closes
/// with an outcome the caller treats as a skip, and a fresh iteration can
/// begin at once.
pub proof fn lemma_no_visible_area_is_recoverable(it: CaptureIteration)
    requires
        it.wf(),
        it.outcome == Some(IterationOutcome::Failed(CaptureError::NoVisibleArea)),
    ensures
        it.phase is Done,
        it.outcome matches Some(IterationOutcome::Failed(e)) && e is NoVisibleArea,
{
}

} // verus!
