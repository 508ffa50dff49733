//! The consumer-facing lifecycle facade around the producer state machine.
//!
//! `start` and `stop` are idempotent: starting twice never asks for a second
//! producer thread, stopping is safe even if nothing ever started. The
//! embedding application spawns or joins its thread exactly when `start` or
//! `stop` says so, and drives `pump` from that thread.

use vstd::prelude::*;

use crate::buffer::BufferView;
use crate::config::QualitySettings;
use crate::convert::ConversionStrategy;
use crate::frame::CaptureFrame;
use crate::frame::PixelFormat;
use crate::pump::FramePump;
use crate::pump::PumpState;
use crate::pump::PumpView;
use crate::pump::interval_micros_for_fps;

verus! {

/// What part of the screen a session captures. Only the full screen is
/// implemented by the desktop-duplication session; the other variants name
/// the structurally identical capabilities a session may grow.
#[derive(Clone, Copy, PartialEq, Eq, Structural, Debug)]
pub enum CaptureAreaType {
    FullScreen,
    Window,
    Custom,
}

impl Default for CaptureAreaType {
    fn default() -> (r: CaptureAreaType)
        ensures
            r is FullScreen,
    {
        CaptureAreaType::FullScreen
    }
}

/// Screen-capture configuration: whether it runs, what area it captures, and
/// the area's placement in pixels.
pub struct ScreenCaptureSettings {
    pub enabled: bool,
    pub area_type: CaptureAreaType,
    pub position: (u32, u32),
    pub size: (u32, u32),
}

impl Default for ScreenCaptureSettings {
    fn default() -> (r: ScreenCaptureSettings)
        ensures
            !r.enabled,
            r.area_type is FullScreen,
            r.position == (0u32, 0u32),
            r.size == (0u32, 0u32),
    {
        ScreenCaptureSettings {
            enabled: false,
            area_type: CaptureAreaType::FullScreen,
            position: (0, 0),
            size: (0, 0),
        }
    }
}

/// The screen capture as its consumers see it: start, stop, and the latest
/// frame. Owns the producer state machine; the embedding application owns
/// the thread.
pub struct ScreenCapture {
    /// The producer state machine the capture thread drives.
    pub pump: FramePump,
    thread_active: bool,
}

impl ScreenCapture {
    /// The facade's invariant: the pump's own.
    pub closed spec fn inv(self) -> bool {
        self.pump.inv()
    }

    /// Whether a producer thread has been asked for and not yet joined.
    pub closed spec fn thread_active(self) -> bool {
        self.thread_active
    }

    /// The producer state machine's mathematical value.
    pub closed spec fn pump_view(self) -> PumpView {
        self.pump@
    }

    /// A capture that publishes each frame at the source's own size, as
    /// packed `Rgb8`, pacing itself to 120 frames a second, converting one
    /// pixel at a time.
    pub fn new() -> (r: ScreenCapture)
        ensures
            r.inv(),
            !r.thread_active(),
            r.pump_view() == (PumpView {
                state: PumpState::Uninitialized,
                transient_failures: 0,
                generation: 0,
                next_seq: 0,
                buffer: BufferView { front: None, back: None, swap_pending: false, writes: 0 },
                target_width: 0,
                target_height: 0,
                target_format: PixelFormat::Rgb8,
                interval_micros: 8333,
            }),
    {
        ScreenCapture {
            pump: FramePump::new(ConversionStrategy::Scalar, 0, 0, PixelFormat::Rgb8, 8333),
            thread_active: false,
        }
    }

    /// A capture configured from the console's quality settings: its target
    /// resolution (`0 x 0` for the source's own size), its frame rate, and
    /// the conversion strategy the capability check chose.
    pub fn with_config(strategy: ConversionStrategy, quality: &QualitySettings) -> (r:
        ScreenCapture)
        requires
            quality.fps > 0,
            (quality.resolution.width == 0) <==> (quality.resolution.height == 0),
        ensures
            r.inv(),
            !r.thread_active(),
            r.pump_view() == (PumpView {
                state: PumpState::Uninitialized,
                transient_failures: 0,
                generation: 0,
                next_seq: 0,
                buffer: BufferView { front: None, back: None, swap_pending: false, writes: 0 },
                target_width: quality.resolution.width,
                target_height: quality.resolution.height,
                target_format: PixelFormat::Rgb8,
                interval_micros: (1_000_000int / quality.fps as int) as u64,
            }),
    {
        let interval = interval_micros_for_fps(quality.fps);
        ScreenCapture {
            pump: FramePump::new(
                strategy,
                quality.resolution.width,
                quality.resolution.height,
                PixelFormat::Rgb8,
                interval,
            ),
            thread_active: false,
        }
    }

    /// Starts the capture. Idempotent: while a producer thread is active
    /// this is a no-op, and no second thread is ever asked for. Returns
    /// whether the caller must spawn the producer thread.
    pub fn start(&mut self) -> (spawn: bool)
        requires
            old(self).inv(),
        ensures
            final(self).inv(),
            final(self).thread_active(),
            spawn <==> !old(self).thread_active(),
            old(self).thread_active() ==> final(self).pump_view() == old(self).pump_view(),
            !old(self).thread_active() ==> final(self).pump_view() == (PumpView {
                state: PumpState::Initializing,
                transient_failures: 0,
                ..old(self).pump_view()
            }),
    {
        if self.thread_active {
            return false;
        }
        self.pump.begin();
        self.thread_active = true;
        true
    }

    /// Stops the capture: sets the terminal state the producer thread
    /// observes within one bounded iteration. Idempotent and safe to call
    /// even if never started. Returns whether the caller must join the
    /// producer thread.
    pub fn stop(&mut self) -> (join: bool)
        requires
            old(self).inv(),
        ensures
            final(self).inv(),
            !final(self).thread_active(),
            join <==> old(self).thread_active(),
            final(self).pump_view() == (PumpView { state: PumpState::Stopped, ..old(self).pump_view() }),
    {
        self.pump.request_stop();
        let was_active = self.thread_active;
        self.thread_active = false;
        was_active
    }

    /// The most recently completed frame, owned by the caller, or `None`
    /// before the first capture. Never blocks the producer beyond one
    /// frame-sized copy; never returns a torn frame; the returned bytes
    /// always agree with the returned geometry.
    pub fn get_frame(&mut self) -> (r: Option<CaptureFrame>)
        requires
            old(self).inv(),
        ensures
            final(self).inv(),
            final(self).thread_active() == old(self).thread_active(),
            final(self).pump_view() == (PumpView {
                buffer: BufferView {
                    front: old(self).pump_view().buffer.latest(),
                    swap_pending: false,
                    ..old(self).pump_view().buffer
                },
                ..old(self).pump_view()
            }),
            r is Some <==> old(self).pump_view().buffer.latest() is Some,
            r is Some ==> r->0@ == old(self).pump_view().buffer.latest()->0 && r->0@.wf(),
    {
        self.pump.get_frame()
    }
}

} // verus!
