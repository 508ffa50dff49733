//! Verified core of a screen-frame capture and conversion pipeline.
//!
//! A dedicated producer thread (run by the embedding application) pulls raw
//! frames from the operating system's desktop-duplication interface, converts
//! the pixel layout (optionally downscaling), and publishes the latest
//! complete frame to any number of consumers without ever blocking the
//! producer on a slow reader.
//!
//! This crate holds the logic of that pipeline — the frame model, the
//! converter, the double-buffered publish/consume protocol, and the producer
//! state machine — all verified. The embedding application supplies the
//! operating-system calls, the thread, and the locks, and drives the state
//! machine with the outcomes it observes.

pub mod buffer;
pub mod capture;
pub mod config;
pub mod convert;
pub mod frame;
pub mod math;
pub mod pump;
pub mod staging;

pub use capture::ScreenCapture;
pub use capture::ScreenCaptureSettings;
pub use frame::CaptureError;
pub use frame::CaptureFrame;
pub use frame::PixelFormat;
pub use frame::RawFrame;
pub use pump::AcquireOutcome;
pub use pump::FramePump;
pub use pump::PumpAction;
pub use pump::PumpState;
