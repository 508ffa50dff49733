//! The producer loop's state machine.
//!
//! The embedding application runs one dedicated thread that owns the
//! operating-system capture session. Each iteration it performs the action
//! the pump last asked for — acquire a frame, back off, reinitialize the
//! session, or exit — and hands the outcome back to the pump. Every decision
//! — when to publish, when to recover, when to give up — is made here, and
//! `spec_step` pins each one down.
//!
//! Threshold policy: a single transient acquire failure is retried after a
//! short backoff; `MAX_TRANSIENT_FAILURES` consecutive ones force a full
//! session rebuild, the same recovery as a lost duplication.

use vstd::prelude::*;

use crate::buffer::BufferView;
use crate::buffer::FrameBuffer;
use crate::convert::ConversionStrategy;
use crate::convert::FrameConverter;
use crate::convert::convert_spec;
use crate::frame::CaptureError;
use crate::frame::CaptureFrame;
use crate::frame::FrameView;
use crate::frame::PixelFormat;
use crate::frame::RawFrame;
use crate::frame::RawFrameView;
use crate::math::bump;
use crate::math::spec_bump;

verus! {

/// Consecutive transient acquire failures tolerated before the session is
/// torn down and rebuilt.
pub const MAX_TRANSIENT_FAILURES: u32 = 5;

/// How long the producer backs off after a single transient failure, in
/// microseconds.
pub const BACKOFF_MICROS: u64 = 100;

/// The lifecycle of the capture session and its producer loop.
#[derive(Clone, Copy, PartialEq, Eq, Structural, Debug)]
pub enum PumpState {
    /// No session has been asked for yet.
    Uninitialized,
    /// A session is being created.
    Initializing,
    /// Frames are being acquired.
    Running,
    /// The session was lost and is being rebuilt.
    Recovering,
    /// Terminal: reached only by an explicit stop.
    Stopped,
    /// Terminal: a fatal error, surfaced to the caller.
    Failed(CaptureError),
}

/// What one attempt to acquire a frame produced, as the embedding
/// application observed it.
pub enum AcquireOutcome {
    /// The wait elapsed without a new frame: the steady state on a static
    /// screen, not an error.
    Timeout,
    /// A new frame, copied to staging and mapped for reading.
    Frame(RawFrame),
    /// The acquisition failed; how is in the error.
    Error(CaptureError),
}

/// Mathematical value of an `AcquireOutcome`.
pub enum OutcomeView {
    Timeout,
    Frame(RawFrameView),
    Error(CaptureError),
}

impl View for AcquireOutcome {
    type V = OutcomeView;

    open spec fn view(&self) -> OutcomeView {
        match self {
            AcquireOutcome::Timeout => OutcomeView::Timeout,
            AcquireOutcome::Frame(raw) => OutcomeView::Frame(raw@),
            AcquireOutcome::Error(e) => OutcomeView::Error(*e),
        }
    }
}

/// What the producer loop is asked to do next.
#[derive(Clone, Copy, PartialEq, Eq, Structural, Debug)]
pub enum PumpAction {
    /// Create the first session, then report the result.
    Initialize,
    /// Wait for the next frame, up to the acquire timeout.
    Acquire,
    /// Sleep `BACKOFF_MICROS`, then acquire again.
    Backoff,
    /// Tear the session down, create a fresh one, then report the result.
    Reinitialize,
    /// Leave the loop; the pump is done.
    Exit,
}

/// Mathematical value of a `FramePump`.
#[verifier::ext_equal]
pub struct PumpView {
    pub state: PumpState,
    pub transient_failures: u32,
    /// Bumped on every successful session creation, so no stale session is
    /// ever mistaken for the current one.
    pub generation: u64,
    /// Sequence number the next published frame will carry.
    pub next_seq: u64,
    pub buffer: BufferView,
    /// Target geometry; `0 x 0` publishes at the source's own size.
    pub target_width: u32,
    pub target_height: u32,
    pub target_format: PixelFormat,
    /// The configured frame interval the loop paces itself to.
    pub interval_micros: u64,
}

impl PumpView {
    pub open spec fn wf(self) -> bool {
        &&& self.buffer.wf()
        &&& self.transient_failures < MAX_TRANSIENT_FAILURES
        &&& (self.target_width == 0 <==> self.target_height == 0)
        &&& self.buffer.latest_seq() <= self.next_seq
    }

    /// The geometry a raw frame of `raw`'s size is published at.
    pub open spec fn dst_size_for(self, raw: RawFrameView) -> (u32, u32) {
        if self.target_width == 0 {
            (raw.width, raw.height)
        } else {
            (self.target_width, self.target_height)
        }
    }
}

/// The pump after handling `ev`. Only `Running` handles events; every other
/// state ignores them, so nothing — the buffer included — changes there.
pub open spec fn spec_step(v: PumpView, ev: OutcomeView) -> PumpView {
    if !(v.state is Running) {
        v
    } else {
        match ev {
            OutcomeView::Timeout => v,
            OutcomeView::Frame(raw) => spec_step_frame(v, raw),
            OutcomeView::Error(e) => spec_step_error(v, e),
        }
    }
}

/// A well-formed raw frame is converted and published with the next sequence
/// number; a malformed one is dropped, leaving the published frame current.
pub open spec fn spec_step_frame(v: PumpView, raw: RawFrameView) -> PumpView {
    if raw.wf() {
        let (dst_w, dst_h) = v.dst_size_for(raw);
        PumpView {
            transient_failures: 0,
            next_seq: spec_bump(v.next_seq),
            buffer: BufferView {
                front: v.buffer.front,
                back: Some(
                    FrameView {
                        data: convert_spec(raw, dst_w as int, dst_h as int, v.target_format),
                        width: dst_w,
                        height: dst_h,
                        format: v.target_format,
                        seq: v.next_seq,
                    },
                ),
                swap_pending: true,
                writes: spec_bump(v.buffer.writes),
            },
            ..v
        }
    } else {
        v
    }
}

/// Fatal errors end the pump; a lost duplication, or too many consecutive
/// transient failures, sends it to recovery; a dropped frame and a single
/// transient failure change nothing but the failure counter.
pub open spec fn spec_step_error(v: PumpView, e: CaptureError) -> PumpView {
    match e {
        CaptureError::DuplicationLost => PumpView {
            state: PumpState::Recovering,
            transient_failures: 0,
            ..v
        },
        CaptureError::AccessDenied | CaptureError::DeviceCreation => PumpView {
            state: PumpState::Failed(e),
            ..v
        },
        CaptureError::FrameAcquire => {
            if v.transient_failures + 1 >= MAX_TRANSIENT_FAILURES {
                PumpView { state: PumpState::Recovering, transient_failures: 0, ..v }
            } else {
                PumpView { transient_failures: (v.transient_failures + 1) as u32, ..v }
            }
        },
        CaptureError::FrameMap | CaptureError::BufferSizeMismatch => v,
    }
}

/// The action the loop is asked to take after `ev`: what the new state asks
/// for, except that a single transient failure below the threshold asks for
/// a short backoff before the next acquire.
pub open spec fn spec_step_action(v: PumpView, ev: OutcomeView) -> PumpAction {
    if v.state is Running && ev is Error && ev->Error_0 is FrameAcquire
        && v.transient_failures + 1 < MAX_TRANSIENT_FAILURES {
        PumpAction::Backoff
    } else {
        spec_action_for(spec_step(v, ev).state)
    }
}

/// The action each state asks of the loop.
pub open spec fn spec_action_for(state: PumpState) -> PumpAction {
    match state {
        PumpState::Uninitialized | PumpState::Initializing => PumpAction::Initialize,
        PumpState::Running => PumpAction::Acquire,
        PumpState::Recovering => PumpAction::Reinitialize,
        PumpState::Stopped | PumpState::Failed(_) => PumpAction::Exit,
    }
}

/// The pump after a whole sequence of events.
pub open spec fn run_events(v: PumpView, evs: Seq<OutcomeView>) -> PumpView
    decreases evs.len(),
{
    if evs.len() == 0 {
        v
    } else {
        run_events(spec_step(v, evs[0]), evs.subrange(1, evs.len() as int))
    }
}

/// Once stopped, the pump is terminal: no sequence of later events changes
/// it, so in particular nothing is ever written to the frame buffer again.
pub proof fn lemma_stopped_is_terminal(v: PumpView, evs: Seq<OutcomeView>)
    requires
        v.state is Stopped,
    ensures
        run_events(v, evs) == v,
    decreases evs.len(),
{
    if evs.len() > 0 {
        assert(spec_step(v, evs[0]) == v);
        lemma_stopped_is_terminal(v, evs.subrange(1, evs.len() as int));
    }
}

/// Timeouts change nothing: any run of them leaves the pump — its published
/// frame included — exactly as it was.
pub proof fn lemma_timeouts_change_nothing(v: PumpView, evs: Seq<OutcomeView>)
    requires
        forall|i: int| 0 <= i < evs.len() ==> evs[i] is Timeout,
    ensures
        run_events(v, evs) == v,
    decreases evs.len(),
{
    if evs.len() > 0 {
        assert(spec_step(v, evs[0]) == v);
        lemma_timeouts_change_nothing(v, evs.subrange(1, evs.len() as int));
    }
}

/// The producer's state and buffers, and the decisions taken on each event.
pub struct FramePump {
    state: PumpState,
    transient_failures: u32,
    generation: u64,
    next_seq: u64,
    converter: FrameConverter,
    buffer: FrameBuffer,
    target_width: u32,
    target_height: u32,
    target_format: PixelFormat,
    interval_micros: u64,
}

impl View for FramePump {
    type V = PumpView;

    closed spec fn view(&self) -> PumpView {
        PumpView {
            state: self.state,
            transient_failures: self.transient_failures,
            generation: self.generation,
            next_seq: self.next_seq,
            buffer: self.buffer@,
            target_width: self.target_width,
            target_height: self.target_height,
            target_format: self.target_format,
            interval_micros: self.interval_micros,
        }
    }
}

impl FramePump {
    /// The pump's invariant: its view is well formed and its converter's
    /// cached tables match their geometry.
    pub closed spec fn inv(self) -> bool {
        &&& self@.wf()
        &&& self.converter.wf()
    }

    /// A pump that has not asked for a session yet. A target of `0 x 0`
    /// publishes each frame at the source's own size.
    pub fn new(
        strategy: ConversionStrategy,
        target_width: u32,
        target_height: u32,
        target_format: PixelFormat,
        interval_micros: u64,
    ) -> (r: FramePump)
        requires
            (target_width == 0) <==> (target_height == 0),
        ensures
            r.inv(),
            r@ == (PumpView {
                state: PumpState::Uninitialized,
                transient_failures: 0,
                generation: 0,
                next_seq: 0,
                buffer: BufferView { front: None, back: None, swap_pending: false, writes: 0 },
                target_width,
                target_height,
                target_format,
                interval_micros,
            }),
    {
        let r = FramePump {
            state: PumpState::Uninitialized,
            transient_failures: 0,
            generation: 0,
            next_seq: 0,
            converter: FrameConverter::new(strategy),
            buffer: FrameBuffer::new(),
            target_width,
            target_height,
            target_format,
            interval_micros,
        };
        assert(r@ =~= PumpView {
            state: PumpState::Uninitialized,
            transient_failures: 0,
            generation: 0,
            next_seq: 0,
            buffer: BufferView { front: None, back: None, swap_pending: false, writes: 0 },
            target_width,
            target_height,
            target_format,
            interval_micros,
        });
        r
    }

    /// Asks for a session: the loop's next action becomes `Initialize`.
    /// Restarting a stopped pump keeps its buffer — the last published frame
    /// stays available — and its generation count.
    pub fn begin(&mut self)
        requires
            old(self).inv(),
        ensures
            final(self).inv(),
            final(self)@ == (PumpView {
                state: PumpState::Initializing,
                transient_failures: 0,
                ..old(self)@
            }),
    {
        self.state = PumpState::Initializing;
        self.transient_failures = 0;
        assert(self@ =~= PumpView {
            state: PumpState::Initializing,
            transient_failures: 0,
            ..old(self)@
        });
    }

    /// Reports whether the session the loop was asked to create came up.
    /// Success, whether first creation or recovery, bumps the generation:
    /// frames only ever come from the newest session. Failure is fatal and
    /// surfaced as `DeviceCreation`.
    pub fn on_init_result(&mut self, ok: bool) -> (r: PumpAction)
        requires
            old(self).inv(),
        ensures
            final(self).inv(),
            final(self)@ == spec_init_step(old(self)@, ok),
            r == spec_action_for(final(self)@.state),
    {
        if matches!(self.state, PumpState::Initializing | PumpState::Recovering) {
            if ok {
                self.state = PumpState::Running;
                self.generation = bump(self.generation);
                self.transient_failures = 0;
            } else {
                self.state = PumpState::Failed(CaptureError::DeviceCreation);
            }
        }
        proof {
            assert(self@ =~= spec_init_step(old(self)@, ok));
        }
        self.action()
    }

    /// Hands the pump the outcome of one acquire attempt; the pump takes
    /// every decision `spec_step` describes and answers with the loop's next
    /// action.
    pub fn on_event(&mut self, ev: AcquireOutcome) -> (r: PumpAction)
        requires
            old(self).inv(),
        ensures
            final(self).inv(),
            final(self)@ == spec_step(old(self)@, ev@),
            r == spec_step_action(old(self)@, ev@),
    {
        if !matches!(self.state, PumpState::Running) {
            return self.action();
        }
        match ev {
            AcquireOutcome::Timeout => {},
            AcquireOutcome::Frame(raw) => {
                if raw.well_formed() {
                    let dst_w: u32 = if self.target_width == 0 {
                        raw.width
                    } else {
                        self.target_width
                    };
                    let dst_h: u32 = if self.target_width == 0 {
                        raw.height
                    } else {
                        self.target_height
                    };
                    let converted = self.converter.convert(
                        &raw,
                        dst_w,
                        dst_h,
                        self.target_format,
                        self.next_seq,
                    );
                    match converted {
                        Ok(frame) => {
                            self.buffer.publish(frame);
                            self.next_seq = bump(self.next_seq);
                            self.transient_failures = 0;
                        },
                        Err(_) => {
                            proof {
                                // The raw frame was well formed, so the
                                // converter cannot have refused it.
                                assert(false);
                            }
                        },
                    }
                }
            },
            AcquireOutcome::Error(e) => {
                match e {
                    CaptureError::DuplicationLost => {
                        self.state = PumpState::Recovering;
                        self.transient_failures = 0;
                    },
                    CaptureError::AccessDenied | CaptureError::DeviceCreation => {
                        self.state = PumpState::Failed(e);
                    },
                    CaptureError::FrameAcquire => {
                        if self.transient_failures + 1 >= MAX_TRANSIENT_FAILURES {
                            self.state = PumpState::Recovering;
                            self.transient_failures = 0;
                        } else {
                            self.transient_failures = self.transient_failures + 1;
                            proof {
                                assert(self@ =~= spec_step(old(self)@, ev@));
                            }
                            return PumpAction::Backoff;
                        }
                    },
                    CaptureError::FrameMap | CaptureError::BufferSizeMismatch => {},
                }
            },
        }
        proof {
            assert(self@ =~= spec_step(old(self)@, ev@));
        }
        self.action()
    }

    /// The cooperative cancellation: sets the terminal state. The loop
    /// observes it through the next action and exits within one bounded
    /// iteration.
    pub fn request_stop(&mut self)
        requires
            old(self).inv(),
        ensures
            final(self).inv(),
            final(self)@ == (PumpView { state: PumpState::Stopped, ..old(self)@ }),
    {
        self.state = PumpState::Stopped;
        assert(self@ =~= PumpView { state: PumpState::Stopped, ..old(self)@ });
    }

    /// Consumer side: the most recently completed frame, owned, or `None`
    /// before the first capture. Never blocks the producer for more than the
    /// one buffer swap.
    pub fn get_frame(&mut self) -> (r: Option<CaptureFrame>)
        requires
            old(self).inv(),
        ensures
            final(self).inv(),
            final(self)@ == (PumpView {
                buffer: BufferView {
                    front: old(self)@.buffer.latest(),
                    swap_pending: false,
                    ..old(self)@.buffer
                },
                ..old(self)@
            }),
            r is Some <==> old(self)@.buffer.latest() is Some,
            r is Some ==> r->0@ == old(self)@.buffer.latest()->0 && r->0@.wf(),
    {
        let r = self.buffer.get_frame();
        proof {
            assert(self@ =~= PumpView {
                buffer: BufferView {
                    front: old(self)@.buffer.latest(),
                    swap_pending: false,
                    ..old(self)@.buffer
                },
                ..old(self)@
            });
        }
        r
    }

    /// The action the loop should take in the current state.
    pub fn action(&self) -> (r: PumpAction)
        ensures
            r == spec_action_for(self@.state),
    {
        match self.state {
            PumpState::Uninitialized | PumpState::Initializing => PumpAction::Initialize,
            PumpState::Running => PumpAction::Acquire,
            PumpState::Recovering => PumpAction::Reinitialize,
            PumpState::Stopped | PumpState::Failed(_) => PumpAction::Exit,
        }
    }

    /// The current lifecycle state.
    pub fn state(&self) -> (r: PumpState)
        ensures
            r == self@.state,
    {
        self.state
    }

    /// How many sessions have been created so far.
    pub fn generation(&self) -> (r: u64)
        ensures
            r == self@.generation,
    {
        self.generation
    }

    /// How many times the producer has written to the frame buffer.
    pub fn write_count(&self) -> (r: u64)
        ensures
            r == self@.buffer.writes,
    {
        self.buffer.write_count()
    }

    /// The configured frame interval, in microseconds.
    pub fn interval_micros(&self) -> (r: u64)
        ensures
            r == self@.interval_micros,
    {
        self.interval_micros
    }
}

/// The pump after a session-creation report: see `FramePump::on_init_result`.
pub open spec fn spec_init_step(v: PumpView, ok: bool) -> PumpView {
    if v.state is Initializing || v.state is Recovering {
        if ok {
            PumpView {
                state: PumpState::Running,
                generation: spec_bump(v.generation),
                transient_failures: 0,
                ..v
            }
        } else {
            PumpView { state: PumpState::Failed(CaptureError::DeviceCreation), ..v }
        }
    } else {
        v
    }
}

/// Frame pacing: how long the loop still has to wait before the next
/// iteration, given the time already elapsed since the last one.
pub fn remaining_wait(elapsed_micros: u64, interval_micros: u64) -> (r: u64)
    ensures
        r == if elapsed_micros < interval_micros {
            interval_micros - elapsed_micros
        } else {
            0
        },
{
    if elapsed_micros < interval_micros {
        interval_micros - elapsed_micros
    } else {
        0
    }
}

/// The frame interval, in microseconds, for a target frame rate.
pub fn interval_micros_for_fps(fps: u32) -> (r: u64)
    requires
        fps > 0,
    ensures
        r == 1_000_000int / fps as int,
{
    1_000_000u64 / (fps as u64)
}

} // verus!
