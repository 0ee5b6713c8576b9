//! Capturing one frame of the primary display without blocking.
//!
//! The capture device is polled: every attempt either hands back a frame,
//! reports that none is buffered yet, or fails for good. Not being ready is
//! transient and calls for another attempt; a failure is fatal and must not
//! be retried. [`Screenshot`] is both the frame source and the capture task
//! on top of it: it keeps what the pipeline needs to know about an open
//! capture session (its native resolution and whether the capture has
//! completed) and decides, attempt by attempt, what the scheduler is told.
//!
//! The device itself is driven by the host. On every scheduler tick the host
//! makes exactly one capture attempt, hands its raw result to
//! [`Screenshot::try_capture`] and the classified outcome to
//! [`Screenshot::poll`]; on [`CaptureState::Pending`] it asks to be woken and
//! suspends, otherwise the capture is complete. Nothing here sleeps or spins,
//! and there is no timeout: a device that is never ready is polled for ever.

use crate::frame::{frame_len, Frame, FrameView};
use vstd::prelude::*;

verus! {

/// The kind of an I/O failure, as the operating system reports it.
#[derive(Clone, Copy, Debug, PartialEq, Eq, Structural)]
pub enum IoErrorKind {
    NotFound,
    PermissionDenied,
    ConnectionRefused,
    ConnectionReset,
    ConnectionAborted,
    NotConnected,
    AddrInUse,
    AddrNotAvailable,
    BrokenPipe,
    AlreadyExists,
    /// The operation would have to wait: nothing is wrong, but nothing is ready.
    WouldBlock,
    InvalidInput,
    InvalidData,
    TimedOut,
    WriteZero,
    Interrupted,
    Unsupported,
    UnexpectedEof,
    OutOfMemory,
    Other,
}

/// Why a scan could not capture a frame. Every one of these is fatal for the
/// scan in which it occurs.
#[derive(Clone, Copy, Debug, PartialEq, Eq, Structural)]
pub enum CaptureError {
    /// No primary display could be enumerated.
    NoDisplay,
    /// The platform's capture interface could not be initialised.
    DeviceBusy,
    /// The device failed while a capture was in flight.
    IoError(IoErrorKind),
}

/// How far opening the capture device got.
#[derive(Clone, Copy, Debug, PartialEq, Eq, Structural)]
pub enum Opening {
    /// Enumerating the primary display failed.
    DisplayFailed(IoErrorKind),
    /// The display was found, but no capture session could be bound to it.
    SessionFailed(IoErrorKind),
    /// A capture session is open; this is its native resolution.
    Opened { width: usize, height: usize },
}

/// The result of one capture attempt.
#[derive(Clone, Debug, PartialEq, Eq)]
pub enum CaptureOutcome {
    /// No new frame is buffered yet: try again on the next tick.
    NotReady,
    /// A complete frame of the session's resolution.
    Frame(Frame),
    /// An unrecoverable failure: give up, do not try again.
    Error(IoErrorKind),
}

/// Where a capture stands after a poll.
#[derive(Clone, Debug, PartialEq, Eq)]
pub enum CaptureState {
    /// The device was not ready; the task asks to be polled again.
    Pending,
    /// The capture completed with this frame.
    Ready(Frame),
    /// The capture failed for good.
    Failed(IoErrorKind),
}

/// An open capture session on the primary display, and the one capture that
/// runs on it.
#[derive(Debug)]
pub struct Screenshot {
    width: usize,
    height: usize,
    finished: bool,
}

/// What a [`Screenshot`] is, mathematically.
pub struct ScreenshotView {
    pub width: nat,
    pub height: nat,
    pub finished: bool,
}

impl View for Screenshot {
    type V = ScreenshotView;

    closed spec fn view(&self) -> ScreenshotView {
        ScreenshotView {
            width: self.width as nat,
            height: self.height as nat,
            finished: self.finished,
        }
    }
}

/// Whether a buffer of `len` bytes is a complete frame of the given
/// resolution: the dimensions fit the frame format and the length is exactly
/// four bytes per pixel.
pub open spec fn is_complete_frame(width: nat, height: nat, len: nat) -> bool {
    width <= u32::MAX && height <= u32::MAX && len == frame_len(width, height)
}

/// What a poll reports for an outcome: a suspension while the device is not
/// ready, completion otherwise.
pub open spec fn settle(outcome: CaptureOutcome) -> CaptureState {
    match outcome {
        CaptureOutcome::NotReady => CaptureState::Pending,
        CaptureOutcome::Frame(frame) => CaptureState::Ready(frame),
        CaptureOutcome::Error(kind) => CaptureState::Failed(kind),
    }
}

impl CaptureState {
    /// The capture has completed, with a frame or with a failure.
    pub open spec fn is_complete(self) -> bool {
        !(self is Pending)
    }

    /// The result of a completed capture; `None` while it is pending.
    pub fn into_result(self) -> (r: Option<Result<Frame, CaptureError>>)
        ensures
            r == match self {
                CaptureState::Pending => None::<Result<Frame, CaptureError>>,
                CaptureState::Ready(frame) => Some(Ok(frame)),
                CaptureState::Failed(kind) => Some(Err(CaptureError::IoError(kind))),
            },
    {
        match self {
            CaptureState::Pending => None,
            CaptureState::Ready(frame) => Some(Ok(frame)),
            CaptureState::Failed(kind) => Some(Err(CaptureError::IoError(kind))),
        }
    }
}

impl Screenshot {
    /// Starts a capture on a freshly opened session, or reports why there is
    /// none: [`CaptureError::NoDisplay`] when no primary display was found,
    /// [`CaptureError::DeviceBusy`] when no session could be bound to it.
    pub fn new(opening: Opening) -> (r: Result<Screenshot, CaptureError>)
        ensures
            opening is DisplayFailed ==> r == Err::<Screenshot, CaptureError>(
                CaptureError::NoDisplay,
            ),
            opening is SessionFailed ==> r == Err::<Screenshot, CaptureError>(
                CaptureError::DeviceBusy,
            ),
            opening matches Opening::Opened { width, height } ==> r matches Ok(shot) && shot@ == (
            ScreenshotView { width: width as nat, height: height as nat, finished: false }),
    {
        match opening {
            Opening::DisplayFailed(_) => Err(CaptureError::NoDisplay),
            Opening::SessionFailed(_) => Err(CaptureError::DeviceBusy),
            Opening::Opened { width, height } => Ok(Screenshot { width, height, finished: false }),
        }
    }

    /// The session's native resolution, width first. It never changes.
    pub fn capturer_size(&self) -> (size: (usize, usize))
        ensures
            size.0 == self@.width,
            size.1 == self@.height,
    {
        (self.width, self.height)
    }

    /// Whether the capture has completed. A completed capture is not polled again.
    pub fn is_finished(&self) -> (finished: bool)
        ensures
            finished == self@.finished,
    {
        self.finished
    }

    /// Classifies what the device handed back for one attempt.
    ///
    /// A would-block failure means that no frame is buffered yet; every other
    /// failure is fatal. Data counts as a frame only when it is complete for
    /// the session's resolution; anything else is rejected as invalid data.
    pub fn try_capture(&self, grabbed: Result<Vec<u8>, IoErrorKind>) -> (outcome: CaptureOutcome)
        ensures
            match grabbed {
                Err(kind) => outcome == (if kind == IoErrorKind::WouldBlock {
                    CaptureOutcome::NotReady
                } else {
                    CaptureOutcome::Error(kind)
                }),
                Ok(buffer) => if is_complete_frame(self@.width, self@.height, buffer@.len()) {
                    outcome matches CaptureOutcome::Frame(frame) && frame@ == (FrameView {
                        width: self@.width,
                        height: self@.height,
                        pixels: buffer@,
                    }) && frame@.complete()
                } else {
                    outcome == CaptureOutcome::Error(IoErrorKind::InvalidData)
                },
            },
    {
        match grabbed {
            Err(IoErrorKind::WouldBlock) => CaptureOutcome::NotReady,
            Err(kind) => CaptureOutcome::Error(kind),
            Ok(buffer) => {
                if self.width > u32::MAX as usize || self.height > u32::MAX as usize {
                    return CaptureOutcome::Error(IoErrorKind::InvalidData);
                }
                match Frame::new(self.width as u32, self.height as u32, buffer) {
                    Some(frame) => CaptureOutcome::Frame(frame),
                    None => CaptureOutcome::Error(IoErrorKind::InvalidData),
                }
            },
        }
    }

    /// One scheduler tick: takes the outcome of exactly one capture attempt.
    ///
    /// While the device is not ready the task stays unfinished and reports
    /// [`CaptureState::Pending`]; the caller then asks to be woken again. On a
    /// frame or a failure the task completes at once with that result.
    pub fn poll(&mut self, outcome: CaptureOutcome) -> (state: CaptureState)
        requires
            !old(self)@.finished,
        ensures
            state == settle(outcome),
            final(self)@ == (ScreenshotView { finished: state.is_complete(), ..old(self)@ }),
    {
        match outcome {
            CaptureOutcome::NotReady => CaptureState::Pending,
            CaptureOutcome::Frame(frame) => {
                self.finished = true;
                CaptureState::Ready(frame)
            },
            CaptureOutcome::Error(kind) => {
                self.finished = true;
                CaptureState::Failed(kind)
            },
        }
    }
}

/// The course of one capture: how often the device was polled, how often the
/// task suspended, and where the capture stood at the end.
pub struct Run {
    pub polls: nat,
    pub suspensions: nat,
    pub end: CaptureState,
}

/// The course a fresh capture takes when the device hands out the given
/// outcomes, one per scheduler tick. Once the capture has completed, the
/// device is not polled again: whatever outcomes remain are never asked for.
pub open spec fn run(outcomes: Seq<CaptureOutcome>) -> Run
    decreases outcomes.len(),
{
    if outcomes.len() == 0 {
        Run { polls: 0, suspensions: 0, end: CaptureState::Pending }
    } else {
        let before = run(outcomes.drop_last());
        if before.end.is_complete() {
            before
        } else {
            let state = settle(outcomes.last());
            Run {
                polls: before.polls + 1,
                suspensions: if state.is_complete() {
                    before.suspensions
                } else {
                    before.suspensions + 1
                },
                end: state,
            }
        }
    }
}

/// A device that is not ready `n` times in a row.
pub open spec fn not_ready(n: nat) -> Seq<CaptureOutcome> {
    Seq::new(n, |i: int| CaptureOutcome::NotReady)
}

/// While the device is not ready, every poll is a suspension and the capture
/// stays pending.
pub proof fn lemma_run_not_ready(n: nat)
    ensures
        run(not_ready(n)) == (Run { polls: n, suspensions: n, end: CaptureState::Pending }),
    decreases n,
{
    if n > 0 {
        lemma_run_not_ready((n - 1) as nat);
        assert(not_ready(n).drop_last() =~= not_ready((n - 1) as nat));
    }
}

/// A capture never suspends more often than it polls, and never polls more
/// often than there are outcomes.
pub proof fn lemma_run_bounds(outcomes: Seq<CaptureOutcome>)
    ensures
        run(outcomes).suspensions <= run(outcomes).polls <= outcomes.len(),
        run(outcomes).end.is_complete() ==> run(outcomes).polls == run(outcomes).suspensions + 1,
        !run(outcomes).end.is_complete() ==> run(outcomes).polls == run(outcomes).suspensions,
    decreases outcomes.len(),
{
    if outcomes.len() > 0 {
        lemma_run_bounds(outcomes.drop_last());
    }
}

/// Poll, then complete: a device that is not ready `n` times and then hands
/// out a frame makes the capture suspend exactly `n` times, poll `n + 1`
/// times, and complete with that frame.
pub proof fn poll_then_complete(n: nat, frame: Frame)
    ensures
        run(not_ready(n).push(CaptureOutcome::Frame(frame))) == (Run {
            polls: n + 1,
            suspensions: n,
            end: CaptureState::Ready(frame),
        }),
{
    let outcomes = not_ready(n).push(CaptureOutcome::Frame(frame));
    lemma_run_not_ready(n);
    assert(outcomes.drop_last() =~= not_ready(n));
}

/// Fatal short-circuit: a device that fails on the first attempt makes the
/// capture complete at once with that failure, after one poll and without a
/// suspension, whatever the device would have handed out afterwards.
pub proof fn fatal_short_circuit(kind: IoErrorKind, later: Seq<CaptureOutcome>)
    ensures
        run(seq![CaptureOutcome::Error(kind)] + later) == (Run {
            polls: 1,
            suspensions: 0,
            end: CaptureState::Failed(kind),
        }),
    decreases later.len(),
{
    let first = seq![CaptureOutcome::Error(kind)];
    if later.len() == 0 {
        assert(first + later =~= first);
        assert(first.drop_last() =~= Seq::<CaptureOutcome>::empty());
        assert(run(first.drop_last()).end is Pending);
    } else {
        fatal_short_circuit(kind, later.drop_last());
        assert((first + later).drop_last() =~= first + later.drop_last());
    }
}

/// The course of a capture as it was actually driven.
#[derive(Clone, Debug, PartialEq, Eq)]
pub struct Replay {
    pub polls: usize,
    pub suspensions: usize,
    pub end: CaptureState,
}

impl Screenshot {
    /// Drives the capture over a scripted device: the outcomes are handed to
    /// [`Screenshot::poll`] in order, one per tick, until the capture
    /// completes or the script runs out. Outcomes after completion are
    /// dropped without a poll.
    pub fn replay(&mut self, outcomes: Vec<CaptureOutcome>) -> (r: Replay)
        requires
            !old(self)@.finished,
        ensures
            r.polls == run(outcomes@).polls,
            r.suspensions == run(outcomes@).suspensions,
            r.end == run(outcomes@).end,
            final(self)@ == (ScreenshotView { finished: r.end.is_complete(), ..old(self)@ }),
    {
        let mut polls: usize = 0;
        let mut suspensions: usize = 0;
        let mut end = CaptureState::Pending;
        let ghost script = outcomes@;
        assert(script.len() <= usize::MAX) by {
            assert(outcomes.len() <= usize::MAX);
        }
        for outcome in it: outcomes.into_iter()
            invariant
                it.seq() == script,
                script.len() <= usize::MAX,
                polls == run(script.take(it.index() as int)).polls,
                suspensions == run(script.take(it.index() as int)).suspensions,
                end == run(script.take(it.index() as int)).end,
                self@ == (ScreenshotView { finished: end.is_complete(), ..old(self)@ }),
        {
            proof {
                let done = script.take(it.index() as int);
                let next = script.take(it.index() as int + 1);
                assert(next.drop_last() =~= done);
                assert(next.last() == outcome);
                lemma_run_bounds(done);
                assert(polls <= it.index() < script.len());
            }
            if !self.finished {
                end = self.poll(outcome);
                polls = polls + 1;
                if !self.finished {
                    suspensions = suspensions + 1;
                }
            }
        }
        proof {
            assert(script.take(script.len() as int) =~= script);
        }
        Replay { polls, suspensions, end }
    }
}

} // verus!
