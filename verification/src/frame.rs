//! The frame data model: pixel formats, raw (padded) source frames, packed
//! published frames, and the error taxonomy of the capture pipeline.

use vstd::prelude::*;

verus! {

/// Byte layout of one pixel.
///
/// `Bgra8` is the native layout of the desktop compositor's frames; `Rgb8`
/// and `Rgba8` are the layouts a consumer can ask for.
#[derive(Clone, Copy, PartialEq, Eq, Structural, Debug)]
pub enum PixelFormat {
    /// 4 bytes per pixel, in the order blue, green, red, alpha.
    Bgra8,
    /// 4 bytes per pixel, in the order red, green, blue, alpha.
    Rgba8,
    /// 3 bytes per pixel, in the order red, green, blue.
    Rgb8,
}

/// Bytes that one pixel occupies in the given layout.
pub open spec fn spec_bytes_per_pixel(f: PixelFormat) -> int {
    match f {
        PixelFormat::Bgra8 => 4,
        PixelFormat::Rgba8 => 4,
        PixelFormat::Rgb8 => 3,
    }
}

impl PixelFormat {
    /// Bytes that one pixel occupies in this layout.
    pub fn bytes_per_pixel(self) -> (r: u32)
        ensures
            r == spec_bytes_per_pixel(self),
    {
        match self {
            PixelFormat::Bgra8 => 4,
            PixelFormat::Rgba8 => 4,
            PixelFormat::Rgb8 => 3,
        }
    }
}

/// The failure taxonomy of the pipeline.
#[derive(Clone, Copy, PartialEq, Eq, Structural, Debug)]
pub enum CaptureError {
    /// The adapter, device or duplication handle could not be created.
    /// Fatal: surfaced to the caller, never retried inside the core.
    DeviceCreation,
    /// A single frame acquisition failed. Transient: the producer backs off
    /// briefly and continues.
    FrameAcquire,
    /// The compositor invalidated the duplication (mode change, lock screen).
    /// The session must be torn down and reinitialized before resuming.
    DuplicationLost,
    /// Protected content denied the capture. Fatal for this session.
    AccessDenied,
    /// A frame's byte length disagrees with its declared geometry. The frame
    /// is dropped; the previously published frame stays current.
    BufferSizeMismatch,
    /// The staging resource could not be mapped for reading. The frame is
    /// dropped; the previously published frame stays current.
    FrameMap,
}

impl CaptureError {
    /// Whether this error ends the session for good rather than being
    /// recovered inside the producer loop.
    pub fn is_fatal(self) -> (r: bool)
        ensures
            r == (self is DeviceCreation || self is AccessDenied),
    {
        match self {
            CaptureError::DeviceCreation => true,
            CaptureError::AccessDenied => true,
            _ => false,
        }
    }
}

/// Mathematical value of a `RawFrame`.
#[verifier::ext_equal]
pub struct RawFrameView {
    pub data: Seq<u8>,
    pub width: u32,
    pub height: u32,
    pub row_pitch: u32,
    pub format: PixelFormat,
}

impl RawFrameView {
    /// A raw frame is well formed when its geometry is positive, its rows are
    /// at least as wide as its pixels, and its byte length covers exactly
    /// `height` rows of `row_pitch` bytes.
    pub open spec fn wf(self) -> bool {
        &&& self.format is Bgra8
        &&& self.width > 0
        &&& self.height > 0
        &&& self.row_pitch >= 4 * self.width
        &&& self.data.len() == self.height * self.row_pitch
    }
}

/// One frame as mapped from the compositor: pixel bytes whose rows may carry
/// alignment padding (`row_pitch >= width * 4`), in the compositor's native
/// `Bgra8` layout.
pub struct RawFrame {
    pub data: Vec<u8>,
    pub width: u32,
    pub height: u32,
    pub row_pitch: u32,
    pub format: PixelFormat,
}

impl View for RawFrame {
    type V = RawFrameView;

    open spec fn view(&self) -> RawFrameView {
        RawFrameView {
            data: self.data@,
            width: self.width,
            height: self.height,
            row_pitch: self.row_pitch,
            format: self.format,
        }
    }
}

impl RawFrame {
    /// Runtime check of `RawFrameView::wf`.
    pub fn well_formed(&self) -> (r: bool)
        ensures
            r == self@.wf(),
    {
        proof {
            crate::math::lemma_mul_u32_bound(self.height as int, self.row_pitch as int);
        }
        self.format == PixelFormat::Bgra8 && self.width > 0 && self.height > 0
            && (self.row_pitch as u64) >= 4 * (self.width as u64)
            && (self.data.len() as u128) == (self.height as u128) * (self.row_pitch as u128)
    }
}

/// Mathematical value of a `CaptureFrame`.
#[verifier::ext_equal]
pub struct FrameView {
    pub data: Seq<u8>,
    pub width: u32,
    pub height: u32,
    pub format: PixelFormat,
    pub seq: u64,
}

impl FrameView {
    /// A published frame is well formed when its bytes are tightly packed:
    /// exactly `width * height * bytes_per_pixel` of them.
    pub open spec fn wf(self) -> bool {
        self.data.len() == self.width * self.height * spec_bytes_per_pixel(self.format)
    }
}

/// The published unit: a tightly packed byte sequence with its geometry and a
/// monotonic sequence number. Immutable once published; a consumer may hold
/// one indefinitely.
pub struct CaptureFrame {
    pub data: Vec<u8>,
    pub width: u32,
    pub height: u32,
    pub format: PixelFormat,
    pub seq: u64,
}

impl View for CaptureFrame {
    type V = FrameView;

    open spec fn view(&self) -> FrameView {
        FrameView {
            data: self.data@,
            width: self.width,
            height: self.height,
            format: self.format,
            seq: self.seq,
        }
    }
}

impl CaptureFrame {
    /// Runtime check of `FrameView::wf`.
    pub fn well_formed(&self) -> (r: bool)
        ensures
            r == self@.wf(),
    {
        let bpp = self.format.bytes_per_pixel();
        proof {
            crate::math::lemma_mul3_bound(self.width as int, self.height as int, bpp as int);
        }
        (self.data.len() as u128) == (self.width as u128) * (self.height as u128) * (bpp as u128)
    }

    /// An owned copy of this frame, byte for byte.
    pub fn duplicate(&self) -> (r: CaptureFrame)
        ensures
            r@ == self@,
    {
        let mut data: Vec<u8> = Vec::new();
        let n = self.data.len();
        let mut i: usize = 0;
        while i < n
            invariant
                n == self.data.len(),
                i <= n,
                data@ =~= self.data@.subrange(0, i as int),
            decreases n - i,
        {
            data.push(self.data[i]);
            i = i + 1;
        }
        assert(data@ =~= self.data@);
        let r = CaptureFrame {
            data,
            width: self.width,
            height: self.height,
            format: self.format,
            seq: self.seq,
        };
        assert(r@ =~= self@);
        r
    }
}

} // verus!
