//! The capture loop: the order in which tasks are drained, frames are drawn
//! and the ready state is polled, until the frame is captured or the attempt
//! has failed.
//!
//! The loop does none of the work itself. It names the step that is due; the
//! caller performs it and reports back, handing in what the poll observed
//! and what the capture read.

use crate::coords::{Decimal, RectCoord};
use crate::frame::{flip_rows, frame_len, Viewport};
use crate::ready_state::ReadyState;
use vstd::prelude::*;

verus! {

/// How long the loop gives way to other threads between two cycles, in
/// milliseconds.
pub const YIELD_MILLIS: u64 = 10;

/// The tolerance that the engine is given for a ready frame unless the
/// caller names another.
pub open spec fn default_tolerance_spec() -> Decimal {
    Decimal { digits: 10, scale: 0 }
}

/// The tolerance that the engine is given for a ready frame unless the
/// caller names another.
pub fn default_tolerance() -> (tolerance: Decimal)
    ensures
        tolerance == default_tolerance_spec(),
{
    Decimal { digits: 10, scale: 0 }
}

/// Why no frame was captured.
#[derive(Clone, Copy, Debug, PartialEq, Eq, Structural)]
pub enum RenderFailure {
    /// The engine reported an error.
    EngineError,
    /// The engine reported that it ran out of time.
    EngineTimeout,
    /// The frame was still not ready when the loop had used up its retries.
    DeadlineElapsed,
    /// What was read back from the graphics card is not a whole frame.
    CaptureFailed,
}

/// A step of the capture loop.
#[derive(Clone, Copy, Debug, PartialEq, Eq, Structural)]
pub enum RenderStep {
    /// Tell the map the size of the viewport of the loop.
    SetViewport,
    /// Ask the engine, on a thread of its own, to produce a ready frame for
    /// the bounds and the tolerance of the loop.
    RequestReadyFrame,
    /// Run every graphics task that is queued right now.
    Drain,
    /// Let the engine draw a frame.
    Draw,
    /// Read the ready state without blocking.
    Poll,
    /// Give way to other threads for a moment.
    Yield,
    /// The frame is ready: run the queued graphics tasks once more.
    FinalDrain,
    /// The frame is ready: draw once more.
    FinalDraw,
    /// Flush the graphics pipeline and read the framebuffer back.
    Capture,
    /// The frame was captured; the loop is over.
    Captured,
    /// The attempt failed; the loop is over.
    Failed(RenderFailure),
}

impl RenderStep {
    /// Whether the loop is over.
    pub open spec fn is_final_spec(self) -> bool {
        self is Captured || self is Failed
    }

    /// Whether the loop is over.
    #[verifier::when_used_as_spec(is_final_spec)]
    pub fn is_final(self) -> (over: bool)
        ensures
            over == self.is_final_spec(),
    {
        match self {
            RenderStep::Captured | RenderStep::Failed(_) => true,
            _ => false,
        }
    }
}

/// What the caller reports when the step that was due is done.
pub enum RenderEvent {
    /// The step is done and there is nothing to tell.
    Done,
    /// What the poll read.
    Polled(ReadyState),
    /// The bytes that were read back from the graphics card, bottom row
    /// first.
    Captured(Vec<u8>),
}

pub enum RenderEventView {
    Done,
    Polled(ReadyState),
    Captured(Seq<u8>),
}

impl View for RenderEvent {
    type V = RenderEventView;

    open spec fn view(&self) -> RenderEventView {
        match self {
            RenderEvent::Done => RenderEventView::Done,
            RenderEvent::Polled(state) => RenderEventView::Polled(*state),
            RenderEvent::Captured(raw) => RenderEventView::Captured(raw@),
        }
    }
}

/// Where a capture loop stands.
pub struct RenderLoopState {
    /// The step that is due.
    pub step: RenderStep,
    /// How many more times the loop may find the frame not ready and try
    /// again; `None` when there is no limit.
    pub retries: Option<nat>,
    /// The width of the frame in pixels.
    pub width: nat,
    /// The height of the frame in pixels.
    pub height: nat,
    /// The captured frame, top row first, once there is one.
    pub picture: Option<Seq<u8>>,
}

/// Where a new capture loop stands.
pub open spec fn initial_state(width: nat, height: nat, retries: Option<nat>) -> RenderLoopState {
    RenderLoopState { step: RenderStep::SetViewport, retries, width, height, picture: None }
}

/// What a poll read, as a report tells it: a report that is no poll counts
/// as `NotReady`.
pub open spec fn observed(event: RenderEventView) -> ReadyState {
    match event {
        RenderEventView::Polled(state) => state,
        _ => ReadyState::NotReady,
    }
}

/// Where the loop stands when its poll has read `state`. A frame that is
/// ready goes on to its capture. A frame that is not ready makes the loop
/// yield and start the next cycle, unless its retries are used up. An error
/// or a timeout of the engine ends the loop at once.
pub open spec fn after_poll(state: RenderLoopState, read: ReadyState) -> RenderLoopState {
    match read {
        ReadyState::Ready => RenderLoopState { step: RenderStep::FinalDrain, ..state },
        ReadyState::Error => RenderLoopState {
            step: RenderStep::Failed(RenderFailure::EngineError),
            ..state
        },
        ReadyState::TimeoutError => RenderLoopState {
            step: RenderStep::Failed(RenderFailure::EngineTimeout),
            ..state
        },
        ReadyState::NotReady => match state.retries {
            None => RenderLoopState { step: RenderStep::Yield, ..state },
            Some(left) => if left == 0 {
                RenderLoopState { step: RenderStep::Failed(RenderFailure::DeadlineElapsed), ..state }
            } else {
                RenderLoopState {
                    step: RenderStep::Yield,
                    retries: Some((left - 1) as nat),
                    ..state
                }
            },
        },
    }
}

/// Where the loop stands when its capture is reported. Bytes that make up a
/// whole frame become the picture, with their rows in reverse order so that
/// the top row comes first. Anything else is a failed capture.
pub open spec fn after_capture(state: RenderLoopState, event: RenderEventView) -> RenderLoopState {
    match event {
        RenderEventView::Captured(raw) => if raw.len() == frame_len(state.width, state.height) {
            RenderLoopState {
                step: RenderStep::Captured,
                picture: Some(flip_rows(raw, state.width * 4, state.height)),
                ..state
            }
        } else {
            RenderLoopState { step: RenderStep::Failed(RenderFailure::CaptureFailed), ..state }
        },
        _ => RenderLoopState { step: RenderStep::Failed(RenderFailure::CaptureFailed), ..state },
    }
}

/// Where the loop stands after the step that was due is done and the caller
/// has reported `event`.
///
/// The loop first tells the map the size of the viewport and then asks for
/// the ready frame, once. A cycle drains, draws and polls; what comes of the
/// poll is said by
/// `after_poll`. A frame that is ready is captured after one more drain and
/// one more draw; what comes of the capture is said by `after_capture`. For
/// every other step the report carries nothing that counts. A loop that is
/// over stays where it is.
pub open spec fn advance_spec(state: RenderLoopState, event: RenderEventView) -> RenderLoopState {
    match state.step {
        RenderStep::SetViewport => RenderLoopState {
            step: RenderStep::RequestReadyFrame,
            ..state
        },
        RenderStep::RequestReadyFrame => RenderLoopState { step: RenderStep::Drain, ..state },
        RenderStep::Drain => RenderLoopState { step: RenderStep::Draw, ..state },
        RenderStep::Draw => RenderLoopState { step: RenderStep::Poll, ..state },
        RenderStep::Poll => after_poll(state, observed(event)),
        RenderStep::Yield => RenderLoopState { step: RenderStep::Drain, ..state },
        RenderStep::FinalDrain => RenderLoopState { step: RenderStep::FinalDraw, ..state },
        RenderStep::FinalDraw => RenderLoopState { step: RenderStep::Capture, ..state },
        RenderStep::Capture => after_capture(state, event),
        RenderStep::Captured | RenderStep::Failed(_) => state,
    }
}

/// What a loop has to show for itself: the picture, the reason why there is
/// none, or nothing yet.
pub open spec fn outcome_spec(state: RenderLoopState) -> Option<Result<Seq<u8>, RenderFailure>> {
    match state.step {
        RenderStep::Captured => match state.picture {
            Some(picture) => Some(Ok(picture)),
            None => Some(Err(RenderFailure::CaptureFailed)),
        },
        RenderStep::Failed(reason) => Some(Err(reason)),
        _ => None,
    }
}

/// The view of what a loop has to show for itself.
pub open spec fn outcome_view(outcome: Option<Result<Vec<u8>, RenderFailure>>) -> Option<
    Result<Seq<u8>, RenderFailure>,
> {
    match outcome {
        Some(Ok(picture)) => Some(Ok(picture@)),
        Some(Err(reason)) => Some(Err(reason)),
        None => None,
    }
}

/// The loop that waits for a frame to become ready and then captures it.
pub struct RenderCaptureLoop {
    viewport: Viewport,
    bounds: RectCoord,
    tolerance: Decimal,
    step: RenderStep,
    retries: Option<u64>,
    picture: Option<Vec<u8>>,
}

impl View for RenderCaptureLoop {
    type V = RenderLoopState;

    closed spec fn view(&self) -> RenderLoopState {
        RenderLoopState {
            step: self.step,
            retries: match self.retries {
                Some(left) => Some(left as nat),
                None => None,
            },
            width: self.viewport.width_spec(),
            height: self.viewport.height_spec(),
            picture: match self.picture {
                Some(picture) => Some(picture@),
                None => None,
            },
        }
    }
}

impl RenderCaptureLoop {
    #[verifier::type_invariant]
    spec fn holds_whole_picture(&self) -> bool {
        self.step is Captured ==> (self.picture matches Some(picture) && picture@.len()
            == frame_len(self.viewport.width_spec(), self.viewport.height_spec()))
    }

    /// The size of the frame.
    pub closed spec fn viewport_spec(&self) -> Viewport {
        self.viewport
    }

    /// The region that the frame shows.
    pub closed spec fn bounds_spec(&self) -> RectCoord {
        self.bounds
    }

    /// The tolerance that the engine is given for the ready frame.
    pub closed spec fn tolerance_spec(&self) -> Decimal {
        self.tolerance
    }

    /// A loop for one frame of the region `bounds`. With `retries` the loop
    /// gives up after it has found the frame not ready that many times and
    /// once more; without, it goes on for as long as the engine reports
    /// nothing else.
    pub fn new(viewport: Viewport, bounds: RectCoord, tolerance: Decimal, retries: Option<u64>) -> (capture: Self)
        ensures
            capture@ == initial_state(
                viewport.width_spec(),
                viewport.height_spec(),
                match retries {
                    Some(left) => Some(left as nat),
                    None => None,
                },
            ),
            capture.viewport_spec() == viewport,
            capture.bounds_spec() == bounds,
            capture.tolerance_spec() == tolerance,
    {
        RenderCaptureLoop {
            viewport,
            bounds,
            tolerance,
            step: RenderStep::SetViewport,
            retries,
            picture: None,
        }
    }

    /// The size of the frame.
    pub fn viewport(&self) -> (viewport: Viewport)
        ensures
            viewport == self.viewport_spec(),
            viewport.width_spec() == self@.width,
            viewport.height_spec() == self@.height,
    {
        self.viewport
    }

    /// The region that the frame shows.
    pub fn bounds(&self) -> (bounds: RectCoord)
        ensures
            bounds == self.bounds_spec(),
    {
        self.bounds
    }

    /// The tolerance that the engine is given for the ready frame.
    pub fn tolerance(&self) -> (tolerance: Decimal)
        ensures
            tolerance == self.tolerance_spec(),
    {
        self.tolerance
    }

    /// The step that is due.
    pub fn step(&self) -> (step: RenderStep)
        ensures
            step == self@.step,
    {
        self.step
    }

    /// Takes note that the step that was due is done, and returns the step
    /// that is due now.
    pub fn advance(&mut self, event: RenderEvent) -> (step: RenderStep)
        ensures
            final(self)@ == advance_spec(old(self)@, event@),
            step == final(self)@.step,
            final(self).viewport_spec() == old(self).viewport_spec(),
            final(self).bounds_spec() == old(self).bounds_spec(),
            final(self).tolerance_spec() == old(self).tolerance_spec(),
    {
        proof {
            use_type_invariant(&*self);
        }
        let next = match self.step {
            RenderStep::SetViewport => RenderStep::RequestReadyFrame,
            RenderStep::RequestReadyFrame => RenderStep::Drain,
            RenderStep::Drain => RenderStep::Draw,
            RenderStep::Draw => RenderStep::Poll,
            RenderStep::Poll => {
                let read = match event {
                    RenderEvent::Polled(state) => state,
                    _ => ReadyState::NotReady,
                };
                match read {
                    ReadyState::Ready => RenderStep::FinalDrain,
                    ReadyState::Error => RenderStep::Failed(RenderFailure::EngineError),
                    ReadyState::TimeoutError => RenderStep::Failed(RenderFailure::EngineTimeout),
                    ReadyState::NotReady => match self.retries {
                        None => RenderStep::Yield,
                        Some(left) => if left == 0 {
                            RenderStep::Failed(RenderFailure::DeadlineElapsed)
                        } else {
                            self.retries = Some(left - 1);
                            RenderStep::Yield
                        },
                    },
                }
            },
            RenderStep::Yield => RenderStep::Drain,
            RenderStep::FinalDrain => RenderStep::FinalDraw,
            RenderStep::FinalDraw => RenderStep::Capture,
            RenderStep::Capture => {
                let picture = match event {
                    RenderEvent::Captured(raw) => self.viewport.finish_capture(raw),
                    _ => None,
                };
                match picture {
                    Some(picture) => {
                        self.picture = Some(picture);
                        RenderStep::Captured
                    },
                    None => RenderStep::Failed(RenderFailure::CaptureFailed),
                }
            },
            RenderStep::Captured => RenderStep::Captured,
            RenderStep::Failed(reason) => RenderStep::Failed(reason),
        };
        self.step = next;
        next
    }

    /// Gives up the loop for what it has to show: the picture, top row
    /// first, or the reason why there is none. A loop that is not over has
    /// nothing to show. A picture holds four bytes for each pixel of the
    /// frame.
    pub fn finish(self) -> (outcome: Option<Result<Vec<u8>, RenderFailure>>)
        ensures
            outcome_view(outcome) == outcome_spec(self@),
            outcome is Some <==> self@.step.is_final_spec(),
            outcome matches Some(Ok(picture)) ==> self@.step is Captured && picture@.len()
                == self@.width * self@.height * 4,
    {
        proof {
            use_type_invariant(&self);
        }
        match self.step {
            RenderStep::Captured => match self.picture {
                Some(picture) => Some(Ok(picture)),
                None => Some(Err(RenderFailure::CaptureFailed)),
            },
            RenderStep::Failed(reason) => Some(Err(reason)),
            _ => None,
        }
    }
}

/// How far a step is from the poll of its cycle, or from the end of the
/// loop once the frame is ready.
pub open spec fn steps_to_poll(step: RenderStep) -> nat {
    match step {
        RenderStep::SetViewport => 6,
        RenderStep::RequestReadyFrame => 5,
        RenderStep::Yield => 4,
        RenderStep::Drain => 3,
        RenderStep::Draw => 2,
        RenderStep::Poll => 1,
        RenderStep::FinalDrain => 4,
        RenderStep::FinalDraw => 3,
        RenderStep::Capture => 2,
        RenderStep::Captured | RenderStep::Failed(_) => 0,
    }
}

/// The report that a caller makes of the step `step` when its next poll
/// reads `read` and its capture reads `frame`.
pub open spec fn report(step: RenderStep, read: ReadyState, frame: Seq<u8>) -> RenderEventView {
    match step {
        RenderStep::Poll => RenderEventView::Polled(read),
        RenderStep::Capture => RenderEventView::Captured(frame),
        _ => RenderEventView::Done,
    }
}

/// Where a loop ends up that starts in `state`, when its polls read `polls`
/// one after the other and its capture reads `frame`. The loop is followed
/// until it is over, or until it polls and `polls` holds nothing any more.
pub open spec fn run_to_end(state: RenderLoopState, polls: Seq<ReadyState>, frame: Seq<u8>) -> RenderLoopState
    decreases polls.len(), steps_to_poll(state.step),
{
    if state.step.is_final_spec() {
        state
    } else if state.step == RenderStep::Poll {
        if polls.len() == 0 {
            state
        } else {
            run_to_end(
                advance_spec(state, report(state.step, polls[0], frame)),
                polls.drop_first(),
                frame,
            )
        }
    } else {
        run_to_end(advance_spec(state, report(state.step, ReadyState::NotReady, frame)), polls, frame)
    }
}

/// The steps that the loop of `run_to_end` goes through, in order, the one
/// it ends up in included.
pub open spec fn run(state: RenderLoopState, polls: Seq<ReadyState>, frame: Seq<u8>) -> Seq<RenderStep>
    decreases polls.len(), steps_to_poll(state.step),
{
    if state.step.is_final_spec() {
        seq![state.step]
    } else if state.step == RenderStep::Poll {
        if polls.len() == 0 {
            seq![state.step]
        } else {
            seq![state.step] + run(
                advance_spec(state, report(state.step, polls[0], frame)),
                polls.drop_first(),
                frame,
            )
        }
    } else {
        seq![state.step] + run(
            advance_spec(state, report(state.step, ReadyState::NotReady, frame)),
            polls,
            frame,
        )
    }
}

/// The steps with which every loop starts: it tells the map the size of the
/// viewport and asks for the ready frame.
pub open spec fn opening() -> Seq<RenderStep> {
    seq![RenderStep::SetViewport, RenderStep::RequestReadyFrame]
}

/// The steps of `cycles` cycles that found the frame not ready.
pub open spec fn idle_cycles(cycles: nat) -> Seq<RenderStep>
    decreases cycles,
{
    if cycles == 0 {
        Seq::empty()
    } else {
        seq![RenderStep::Drain, RenderStep::Draw, RenderStep::Poll, RenderStep::Yield]
            + idle_cycles((cycles - 1) as nat)
    }
}

/// The steps of the cycle that finds the frame ready.
pub open spec fn capture_cycle() -> Seq<RenderStep> {
    seq![
        RenderStep::Drain,
        RenderStep::Draw,
        RenderStep::Poll,
        RenderStep::FinalDrain,
        RenderStep::FinalDraw,
        RenderStep::Capture,
        RenderStep::Captured,
    ]
}

/// The steps of a cycle that ends the loop with a failure.
pub open spec fn failing_cycle(reason: RenderFailure) -> Seq<RenderStep> {
    seq![RenderStep::Drain, RenderStep::Draw, RenderStep::Poll, RenderStep::Failed(reason)]
}

/// `count` polls that read `NotReady`.
pub open spec fn not_ready(count: nat) -> Seq<ReadyState> {
    Seq::new(count, |i: int| ReadyState::NotReady)
}

/// The retries that are left after `used` of them are used up.
pub open spec fn retries_after(retries: Option<nat>, used: nat) -> Option<nat> {
    match retries {
        Some(left) => Some((left - used) as nat),
        None => None,
    }
}

/// Whether `retries` allow for `cycles` cycles that find the frame not ready
/// and are followed by another cycle.
pub open spec fn allows(retries: Option<nat>, cycles: nat) -> bool {
    match retries {
        Some(left) => cycles <= left,
        None => true,
    }
}

/// The failure with which the loop ends when its poll reads an error or a
/// timeout of the engine.
pub open spec fn engine_failure(read: ReadyState) -> RenderFailure {
    if read == ReadyState::Error {
        RenderFailure::EngineError
    } else {
        RenderFailure::EngineTimeout
    }
}

/// While the polls read `NotReady` and retries are left, the loop repeats
/// the cycle of drain, draw, poll and yield, and then goes on as a loop
/// would that starts its cycle with the retries that remain.
pub proof fn lemma_idle_cycles(state: RenderLoopState, cycles: nat, rest: Seq<ReadyState>, frame: Seq<u8>)
    requires
        state.step == RenderStep::Drain,
        allows(state.retries, cycles),
    ensures
        run(state, not_ready(cycles) + rest, frame) == idle_cycles(cycles) + run(
            RenderLoopState { retries: retries_after(state.retries, cycles), ..state },
            rest,
            frame,
        ),
        run_to_end(state, not_ready(cycles) + rest, frame) == run_to_end(
            RenderLoopState { retries: retries_after(state.retries, cycles), ..state },
            rest,
            frame,
        ),
    decreases cycles,
{
    let polls = not_ready(cycles) + rest;
    let after = RenderLoopState { retries: retries_after(state.retries, cycles), ..state };
    if cycles == 0 {
        assert(polls =~= rest);
        assert(after == state);
        assert(idle_cycles(0) + run(state, rest, frame) =~= run(state, rest, frame));
    } else {
        let draw = RenderLoopState { step: RenderStep::Draw, ..state };
        let poll = RenderLoopState { step: RenderStep::Poll, ..state };
        let later = retries_after(state.retries, 1);
        let idle = RenderLoopState { step: RenderStep::Yield, retries: later, ..state };
        let again = RenderLoopState { step: RenderStep::Drain, retries: later, ..state };
        let tail = not_ready((cycles - 1) as nat) + rest;
        assert(polls[0] == ReadyState::NotReady);
        assert(polls.drop_first() =~= tail);
        assert(advance_spec(state, RenderEventView::Done) == draw);
        assert(advance_spec(draw, RenderEventView::Done) == poll);
        assert(advance_spec(poll, RenderEventView::Polled(ReadyState::NotReady)) == idle);
        assert(advance_spec(idle, RenderEventView::Done) == again);
        assert(run(state, polls, frame) == seq![RenderStep::Drain] + run(draw, polls, frame));
        assert(run(draw, polls, frame) == seq![RenderStep::Draw] + run(poll, polls, frame));
        assert(run(poll, polls, frame) == seq![RenderStep::Poll] + run(idle, tail, frame));
        assert(run(idle, tail, frame) == seq![RenderStep::Yield] + run(again, tail, frame));
        assert(run_to_end(state, polls, frame) == run_to_end(draw, polls, frame));
        assert(run_to_end(draw, polls, frame) == run_to_end(poll, polls, frame));
        assert(run_to_end(poll, polls, frame) == run_to_end(idle, tail, frame));
        assert(run_to_end(idle, tail, frame) == run_to_end(again, tail, frame));
        lemma_idle_cycles(again, (cycles - 1) as nat, rest, frame);
        assert(retries_after(later, (cycles - 1) as nat) == retries_after(state.retries, cycles));
        assert(RenderLoopState { retries: retries_after(later, (cycles - 1) as nat), ..again }
            == after);
        assert(run(state, polls, frame) =~= idle_cycles(cycles) + run(after, rest, frame));
    }
}

/// The cycle in which the poll reads `Ready`: the loop drains, draws and
/// polls, drains and draws once more, captures, and is over. Where the
/// capture reads a whole frame, the loop ends up with that frame, its rows
/// in reverse order.
pub proof fn lemma_capture_cycle(state: RenderLoopState, frame: Seq<u8>)
    requires
        state.step == RenderStep::Drain,
        frame.len() == frame_len(state.width, state.height),
    ensures
        run(state, seq![ReadyState::Ready], frame) == capture_cycle(),
        run_to_end(state, seq![ReadyState::Ready], frame) == (RenderLoopState {
            step: RenderStep::Captured,
            picture: Some(flip_rows(frame, state.width * 4, state.height)),
            ..state
        }),
{
    let polls = seq![ReadyState::Ready];
    let none = Seq::<ReadyState>::empty();
    assert(polls.drop_first() =~= none);
    let draw = RenderLoopState { step: RenderStep::Draw, ..state };
    let poll = RenderLoopState { step: RenderStep::Poll, ..state };
    let final_drain = RenderLoopState { step: RenderStep::FinalDrain, ..state };
    let final_draw = RenderLoopState { step: RenderStep::FinalDraw, ..state };
    let capture = RenderLoopState { step: RenderStep::Capture, ..state };
    let captured = RenderLoopState {
        step: RenderStep::Captured,
        picture: Some(flip_rows(frame, state.width * 4, state.height)),
        ..state
    };
    assert(advance_spec(poll, RenderEventView::Polled(ReadyState::Ready)) == final_drain);
    assert(advance_spec(capture, RenderEventView::Captured(frame)) == captured);
    assert(run(state, polls, frame) == seq![RenderStep::Drain] + run(draw, polls, frame));
    assert(run(draw, polls, frame) == seq![RenderStep::Draw] + run(poll, polls, frame));
    assert(run(poll, polls, frame) == seq![RenderStep::Poll] + run(final_drain, none, frame));
    assert(run(final_drain, none, frame) == seq![RenderStep::FinalDrain] + run(
        final_draw,
        none,
        frame,
    ));
    assert(run(final_draw, none, frame) == seq![RenderStep::FinalDraw] + run(capture, none, frame));
    assert(run(capture, none, frame) == seq![RenderStep::Capture] + run(captured, none, frame));
    assert(run(captured, none, frame) == seq![RenderStep::Captured]);
    assert(run(state, polls, frame) =~= capture_cycle());
    assert(run_to_end(state, polls, frame) == run_to_end(draw, polls, frame));
    assert(run_to_end(draw, polls, frame) == run_to_end(poll, polls, frame));
    assert(run_to_end(poll, polls, frame) == run_to_end(final_drain, none, frame));
    assert(run_to_end(final_drain, none, frame) == run_to_end(final_draw, none, frame));
    assert(run_to_end(final_draw, none, frame) == run_to_end(capture, none, frame));
    assert(run_to_end(capture, none, frame) == run_to_end(captured, none, frame));
    assert(run_to_end(captured, none, frame) == captured);
}

/// The cycle in which the poll ends the loop with the failure `reason`: the
/// loop drains, draws and polls, and is over.
proof fn lemma_failing_cycle(state: RenderLoopState, read: ReadyState, reason: RenderFailure, frame: Seq<u8>)
    requires
        state.step == RenderStep::Drain,
        after_poll(RenderLoopState { step: RenderStep::Poll, ..state }, read).step
            == RenderStep::Failed(reason),
    ensures
        run(state, seq![read], frame) == failing_cycle(reason),
        outcome_spec(run_to_end(state, seq![read], frame)) == Some(
            Err::<Seq<u8>, RenderFailure>(reason),
        ),
{
    let polls = seq![read];
    let none = Seq::<ReadyState>::empty();
    assert(polls.drop_first() =~= none);
    let draw = RenderLoopState { step: RenderStep::Draw, ..state };
    let poll = RenderLoopState { step: RenderStep::Poll, ..state };
    let failed = after_poll(poll, read);
    assert(advance_spec(poll, RenderEventView::Polled(read)) == failed);
    assert(run(state, polls, frame) == seq![RenderStep::Drain] + run(draw, polls, frame));
    assert(run(draw, polls, frame) == seq![RenderStep::Draw] + run(poll, polls, frame));
    assert(run(poll, polls, frame) == seq![RenderStep::Poll] + run(failed, none, frame));
    assert(run(failed, none, frame) == seq![failed.step]);
    assert(run(state, polls, frame) =~= failing_cycle(reason));
    assert(run_to_end(state, polls, frame) == run_to_end(draw, polls, frame));
    assert(run_to_end(draw, polls, frame) == run_to_end(poll, polls, frame));
    assert(run_to_end(poll, polls, frame) == run_to_end(failed, none, frame));
    assert(run_to_end(failed, none, frame) == failed);
}

/// The first steps of a loop: it tells the map the size of the viewport,
/// requests the ready frame and starts its first cycle.
proof fn lemma_first_step(start: RenderLoopState, polls: Seq<ReadyState>, frame: Seq<u8>)
    requires
        start.step == RenderStep::SetViewport,
    ensures
        run(start, polls, frame) == opening() + run(
            RenderLoopState { step: RenderStep::Drain, ..start },
            polls,
            frame,
        ),
        run_to_end(start, polls, frame) == run_to_end(
            RenderLoopState { step: RenderStep::Drain, ..start },
            polls,
            frame,
        ),
{
    let request = RenderLoopState { step: RenderStep::RequestReadyFrame, ..start };
    let drain = RenderLoopState { step: RenderStep::Drain, ..start };
    assert(advance_spec(start, RenderEventView::Done) == request);
    assert(advance_spec(request, RenderEventView::Done) == drain);
    assert(run(start, polls, frame) == seq![RenderStep::SetViewport] + run(request, polls, frame));
    assert(run(request, polls, frame) == seq![RenderStep::RequestReadyFrame] + run(
        drain,
        polls,
        frame,
    ));
    assert(run(start, polls, frame) =~= opening() + run(drain, polls, frame));
    assert(run_to_end(start, polls, frame) == run_to_end(request, polls, frame));
    assert(run_to_end(request, polls, frame) == run_to_end(drain, polls, frame));
}

/// A loop whose `cycles`-th poll is the first to read `Ready` comes to an
/// end. It sets the viewport, requests the frame once, spends the cycles
/// before that on drain, draw, poll and yield, and in the last one drains,
/// draws, polls, drains and draws once more and captures the frame. What it has to show then is a picture
/// of exactly `width * height * 4` bytes: what the capture read, top row
/// first.
pub proof fn lemma_terminates_when_ready(
    width: nat,
    height: nat,
    retries: Option<nat>,
    cycles: nat,
    frame: Seq<u8>,
)
    requires
        cycles >= 1,
        allows(retries, (cycles - 1) as nat),
        frame.len() == frame_len(width, height),
    ensures
        run(
            initial_state(width, height, retries),
            not_ready((cycles - 1) as nat) + seq![ReadyState::Ready],
            frame,
        ) == opening() + idle_cycles((cycles - 1) as nat) + capture_cycle(),
        outcome_spec(
            run_to_end(
                initial_state(width, height, retries),
                not_ready((cycles - 1) as nat) + seq![ReadyState::Ready],
                frame,
            ),
        ) == Some(Ok::<Seq<u8>, RenderFailure>(flip_rows(frame, width * 4, height))),
        flip_rows(frame, width * 4, height).len() == width * height * 4,
{
    let before = (cycles - 1) as nat;
    let last = seq![ReadyState::Ready];
    let start = initial_state(width, height, retries);
    let drain = RenderLoopState { step: RenderStep::Drain, ..start };
    lemma_first_step(start, not_ready(before) + last, frame);
    lemma_idle_cycles(drain, before, last, frame);
    lemma_capture_cycle(RenderLoopState { retries: retries_after(retries, before), ..drain }, frame);
    assert(width * 4 * height == width * height * 4) by (nonlinear_arith);
}

/// A loop whose engine reports an error or a timeout comes to an end with
/// the poll that reads it, whatever came before, and has the failure to show
/// for it.
pub proof fn lemma_terminates_when_engine_fails(
    width: nat,
    height: nat,
    retries: Option<nat>,
    cycles: nat,
    read: ReadyState,
    frame: Seq<u8>,
)
    requires
        cycles >= 1,
        allows(retries, (cycles - 1) as nat),
        read == ReadyState::Error || read == ReadyState::TimeoutError,
    ensures
        run(
            initial_state(width, height, retries),
            not_ready((cycles - 1) as nat) + seq![read],
            frame,
        ) == opening() + idle_cycles((cycles - 1) as nat) + failing_cycle(engine_failure(read)),
        outcome_spec(
            run_to_end(
                initial_state(width, height, retries),
                not_ready((cycles - 1) as nat) + seq![read],
                frame,
            ),
        ) == Some(Err::<Seq<u8>, RenderFailure>(engine_failure(read))),
{
    let before = (cycles - 1) as nat;
    let last = seq![read];
    let start = initial_state(width, height, retries);
    let drain = RenderLoopState { step: RenderStep::Drain, ..start };
    lemma_first_step(start, not_ready(before) + last, frame);
    lemma_idle_cycles(drain, before, last, frame);
    lemma_failing_cycle(
        RenderLoopState { retries: retries_after(retries, before), ..drain },
        read,
        engine_failure(read),
        frame,
    );
}

/// A loop without a limit whose engine never reports anything goes on for
/// as long as it is polled: after any number of polls it has drained and
/// drawn once for each of them, has set the viewport and requested the frame
/// once, is not over,
/// and is in the middle of another cycle of drain, draw and poll.
pub proof fn lemma_never_ready_keeps_draining(width: nat, height: nat, cycles: nat, frame: Seq<u8>)
    ensures
        run(initial_state(width, height, None), not_ready(cycles), frame) == opening()
            + idle_cycles(cycles) + seq![RenderStep::Drain, RenderStep::Draw, RenderStep::Poll],
        outcome_spec(run_to_end(initial_state(width, height, None), not_ready(cycles), frame))
            is None,
{
    let none = Seq::<ReadyState>::empty();
    let polls = not_ready(cycles);
    let start = initial_state(width, height, None);
    let drain = RenderLoopState { step: RenderStep::Drain, ..start };
    let draw = RenderLoopState { step: RenderStep::Draw, ..start };
    let poll = RenderLoopState { step: RenderStep::Poll, ..start };
    assert(polls =~= not_ready(cycles) + none);
    lemma_first_step(start, polls, frame);
    lemma_idle_cycles(drain, cycles, none, frame);
    assert(run(drain, none, frame) == seq![RenderStep::Drain] + run(draw, none, frame));
    assert(run(draw, none, frame) == seq![RenderStep::Draw] + run(poll, none, frame));
    assert(run(poll, none, frame) == seq![RenderStep::Poll]);
    assert(run(drain, none, frame) =~= seq![RenderStep::Drain, RenderStep::Draw, RenderStep::Poll]);
    assert(run_to_end(drain, none, frame) == run_to_end(draw, none, frame));
    assert(run_to_end(draw, none, frame) == run_to_end(poll, none, frame));
    assert(run_to_end(poll, none, frame) == poll);
}

/// A loop with a limit gives up in the cycle after its last retry: with
/// `retries` retries it polls `retries + 1` times and fails with
/// `DeadlineElapsed` when all of them read `NotReady`.
pub proof fn lemma_deadline_ends_the_loop(width: nat, height: nat, retries: nat, frame: Seq<u8>)
    ensures
        run(initial_state(width, height, Some(retries)), not_ready(retries + 1), frame)
            == opening() + idle_cycles(retries) + failing_cycle(RenderFailure::DeadlineElapsed),
        outcome_spec(
            run_to_end(initial_state(width, height, Some(retries)), not_ready(retries + 1), frame),
        ) == Some(Err::<Seq<u8>, RenderFailure>(RenderFailure::DeadlineElapsed)),
{
    let last = seq![ReadyState::NotReady];
    let polls = not_ready(retries + 1);
    let start = initial_state(width, height, Some(retries));
    let drain = RenderLoopState { step: RenderStep::Drain, ..start };
    assert(polls =~= not_ready(retries) + last);
    lemma_first_step(start, polls, frame);
    lemma_idle_cycles(drain, retries, last, frame);
    lemma_failing_cycle(
        RenderLoopState { retries: Some(0nat), ..drain },
        ReadyState::NotReady,
        RenderFailure::DeadlineElapsed,
        frame,
    );
}

} // verus!
