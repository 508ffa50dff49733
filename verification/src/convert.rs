//! The frame converter: turns one padded `Bgra8` raw frame into a tightly
//! packed frame in a requested layout, optionally resampling to a different
//! resolution with nearest-neighbour lookup tables.
//!
//! Two interchangeable code paths implement the conversion: a scalar path and
//! a wide path that processes pixels in blocks of eight, as a
//! vector-instruction implementation would. Both are proved to produce the
//! same output, byte for byte: `convert_spec` pins every byte of the result.

use vstd::prelude::*;

use crate::frame::CaptureError;
use crate::frame::CaptureFrame;
use crate::frame::FrameView;
use crate::frame::PixelFormat;
use crate::frame::RawFrame;
use crate::frame::RawFrameView;
use crate::frame::spec_bytes_per_pixel;
use crate::math::lemma_div_monotone;
use crate::math::lemma_flat_index;
use crate::math::lemma_mul_distrib;
use crate::math::lemma_mul_le;
use crate::math::lemma_mul_u32_bound;
use crate::math::lemma_scaled_index_bound;

verus! {

/// Nearest-neighbour resampling: the source coordinate that feeds output
/// coordinate `t` when a dimension of `src_dim` is mapped onto `dst_dim`.
pub open spec fn src_index(t: int, src_dim: int, dst_dim: int) -> int {
    (t * src_dim) / dst_dim
}

/// The byte offset, within one 4-byte `Bgra8` source pixel, that feeds output
/// channel `c` of layout `f`.
pub open spec fn channel_source(f: PixelFormat, c: int) -> int {
    match f {
        PixelFormat::Bgra8 => c,
        PixelFormat::Rgba8 => if c == 3 {
            3
        } else {
            2 - c
        },
        PixelFormat::Rgb8 => 2 - c,
    }
}

/// Byte `i` of the conversion of `src` to a `dst_w` by `dst_h` frame in
/// layout `f`: the output is row-major, `spec_bytes_per_pixel(f)` bytes per
/// pixel, and each output pixel is the nearest-neighbour source pixel with
/// its channels reordered by `channel_source`.
pub open spec fn converted_byte(src: RawFrameView, dst_w: int, dst_h: int, f: PixelFormat, i: int) -> u8 {
    let bpp = spec_bytes_per_pixel(f);
    let p = i / bpp;
    let c = i % bpp;
    let y = p / dst_w;
    let x = p % dst_w;
    src.data[src_index(y, src.height as int, dst_h) * src.row_pitch + src_index(
        x,
        src.width as int,
        dst_w,
    ) * 4 + channel_source(f, c)]
}

/// The whole converted output of `src` at `dst_w` by `dst_h` in layout `f`.
pub open spec fn convert_spec(src: RawFrameView, dst_w: int, dst_h: int, f: PixelFormat) -> Seq<u8> {
    Seq::new(
        (dst_w * dst_h * spec_bytes_per_pixel(f)) as nat,
        |i: int| converted_byte(src, dst_w, dst_h, f, i),
    )
}

/// The converter's output length is exactly
/// `dst_w * dst_h * bytes_per_pixel(f)`, for every source frame and every
/// valid target geometry.
pub proof fn lemma_output_length(src: RawFrameView, dst_w: int, dst_h: int, f: PixelFormat)
    requires
        dst_w >= 0,
        dst_h >= 0,
    ensures
        convert_spec(src, dst_w, dst_h, f).len() == dst_w * dst_h * spec_bytes_per_pixel(f),
{
    assert(dst_w * dst_h * spec_bytes_per_pixel(f) >= 0) by (nonlinear_arith)
        requires
            dst_w >= 0,
            dst_h >= 0,
            spec_bytes_per_pixel(f) >= 0,
    ;
}

/// The resampling index is monotonic, non-decreasing, in the output
/// coordinate: a later output pixel never reads an earlier source pixel.
pub proof fn lemma_src_index_monotonic(t1: int, t2: int, src_dim: int, dst_dim: int)
    requires
        0 <= t1 <= t2,
        0 <= src_dim,
        0 < dst_dim,
    ensures
        src_index(t1, src_dim, dst_dim) <= src_index(t2, src_dim, dst_dim),
{
    lemma_mul_le(t1, t2, src_dim);
    lemma_div_monotone(t1 * src_dim, t2 * src_dim, dst_dim);
}

/// The resampling tables are deterministic: any two tables built for the same
/// `(src_dim, dst_dim)` pair are equal.
pub proof fn lemma_scale_table_deterministic(a: Seq<u32>, b: Seq<u32>, src_dim: int, dst_dim: int, len: int)
    requires
        a.len() == len,
        b.len() == len,
        forall|i: int| 0 <= i < len ==> a[i] == src_index(i, src_dim, dst_dim),
        forall|i: int| 0 <= i < len ==> b[i] == src_index(i, src_dim, dst_dim),
    ensures
        a == b,
{
    assert(a =~= b);
}

/// The wide and the scalar conversion path produce byte-identical output for
/// the same input frame and the same target: both are pinned to
/// `convert_spec`.
pub proof fn lemma_paths_agree(a: Seq<u8>, b: Seq<u8>, src: RawFrameView, dst_w: int, dst_h: int, f: PixelFormat)
    requires
        a == convert_spec(src, dst_w, dst_h, f),
        b == convert_spec(src, dst_w, dst_h, f),
    ensures
        a == b,
{
}

/// One per-axis nearest-neighbour lookup table: entry `t` is the source
/// coordinate feeding output coordinate `t`.
pub fn build_scale_table(src_dim: u32, dst_dim: u32) -> (t: Vec<u32>)
    requires
        src_dim > 0,
        dst_dim > 0,
    ensures
        t.len() == dst_dim,
        forall|i: int| 0 <= i < dst_dim ==> t@[i] == src_index(i, src_dim as int, dst_dim as int),
        forall|i: int| 0 <= i < dst_dim ==> t@[i] < src_dim,
{
    let mut t: Vec<u32> = Vec::new();
    let mut i: u32 = 0;
    while i < dst_dim
        invariant
            src_dim > 0,
            dst_dim > 0,
            i <= dst_dim,
            t.len() == i,
            forall|j: int| 0 <= j < i ==> t@[j] == src_index(j, src_dim as int, dst_dim as int),
            forall|j: int| 0 <= j < i ==> t@[j] < src_dim,
        decreases dst_dim - i,
    {
        proof {
            lemma_mul_u32_bound(i as int, src_dim as int);
            lemma_scaled_index_bound(i as int, src_dim as int, dst_dim as int);
        }
        let v: u64 = (i as u64) * (src_dim as u64) / (dst_dim as u64);
        t.push(v as u32);
        i = i + 1;
    }
    t
}

/// Emits the `spec_bytes_per_pixel(f)` bytes of output pixel `(x, y)` onto
/// the end of `out`. Shared by the scalar and the wide conversion path.
fn emit_pixel(
    out: &mut Vec<u8>,
    raw: &RawFrame,
    xt: &Vec<u32>,
    yt: &Vec<u32>,
    dst_w: u32,
    dst_h: u32,
    f: PixelFormat,
    x: u32,
    y: u32,
)
    requires
        raw@.wf(),
        dst_w > 0,
        dst_h > 0,
        x < dst_w,
        y < dst_h,
        xt.len() == dst_w,
        yt.len() == dst_h,
        forall|i: int| 0 <= i < dst_w ==> xt@[i] == src_index(i, raw@.width as int, dst_w as int),
        forall|i: int| 0 <= i < dst_h ==> yt@[i] == src_index(i, raw@.height as int, dst_h as int),
        old(out).len() == (y * dst_w + x) * spec_bytes_per_pixel(f),
        forall|j: int|
            0 <= j < old(out).len() ==> old(out)@[j] == converted_byte(
                raw@,
                dst_w as int,
                dst_h as int,
                f,
                j,
            ),
    ensures
        final(out).len() == old(out).len() + spec_bytes_per_pixel(f),
        forall|j: int|
            0 <= j < final(out).len() ==> final(out)@[j] == converted_byte(
                raw@,
                dst_w as int,
                dst_h as int,
                f,
                j,
            ),
{
    let pitch: u32 = raw.row_pitch;
    proof {
        // The mapped data is a real vector: its length is bounded by the
        // machine and by `height * row_pitch`.
        assert(raw.data.len() == raw@.data.len());
        lemma_mul_u32_bound(raw@.height as int, pitch as int);
        lemma_scaled_index_bound(y as int, raw@.height as int, dst_h as int);
        lemma_scaled_index_bound(x as int, raw@.width as int, dst_w as int);
        lemma_mul_u32_bound(yt@[y as int] as int, pitch as int);
        // The addressed row lies inside the mapped data:
        // yt[y] * pitch + pitch <= height * pitch == data.len().
        lemma_mul_le(yt@[y as int] as int + 1, raw@.height as int, pitch as int);
        lemma_mul_distrib(yt@[y as int] as int, 1, pitch as int);
        // The addressed pixel lies inside its row:
        // xt[x] * 4 + 3 < 4 * width <= pitch.
        lemma_mul_le(xt@[x as int] as int + 1, raw@.width as int, 4);
        lemma_mul_distrib(xt@[x as int] as int, 1, 4);
    }
    let row_base: u64 = (yt[y as usize] as u64) * (pitch as u64);
    let px_base: u64 = row_base + (xt[x as usize] as u64) * 4;
    let bpp: u32 = f.bytes_per_pixel();
    let mut c: u32 = 0;
    while c < bpp
        invariant
            raw@.wf(),
            dst_w > 0,
            dst_h > 0,
            x < dst_w,
            y < dst_h,
            xt.len() == dst_w,
            yt.len() == dst_h,
            forall|i: int|
                0 <= i < dst_w ==> xt@[i] == src_index(i, raw@.width as int, dst_w as int),
            forall|i: int|
                0 <= i < dst_h ==> yt@[i] == src_index(i, raw@.height as int, dst_h as int),
            bpp == spec_bytes_per_pixel(f),
            c <= bpp,
            pitch == raw.row_pitch,
            row_base == yt@[y as int] * pitch,
            px_base == row_base + xt@[x as int] * 4,
            px_base + bpp <= raw@.data.len(),
            row_base + pitch <= raw@.data.len(),
            raw@.data.len() <= usize::MAX,
            xt@[x as int] * 4 + 4 <= pitch,
            out.len() == (y * dst_w + x) * spec_bytes_per_pixel(f) + c,
            forall|j: int|
                0 <= j < out.len() ==> out@[j] == converted_byte(
                    raw@,
                    dst_w as int,
                    dst_h as int,
                    f,
                    j,
                ),
        decreases bpp - c,
    {
        let off: u32 = channel_offset(f, c);
        let idx: u64 = px_base + (off as u64);
        let b: u8 = raw.data[idx as usize];
        proof {
            let i = out.len() as int;
            lemma_flat_index((y * dst_w + x) as int, c as int, spec_bytes_per_pixel(f));
            lemma_flat_index(y as int, x as int, dst_w as int);
            assert(converted_byte(raw@, dst_w as int, dst_h as int, f, i) == b);
        }
        out.push(b);
        c = c + 1;
    }
}

/// The source byte offset, within one `Bgra8` pixel, for output channel `c`
/// of layout `f`.
fn channel_offset(f: PixelFormat, c: u32) -> (r: u32)
    requires
        c < spec_bytes_per_pixel(f),
    ensures
        r == channel_source(f, c as int),
        r < 4,
{
    match f {
        PixelFormat::Bgra8 => c,
        PixelFormat::Rgba8 => if c == 3 {
            3
        } else {
            2 - c
        },
        PixelFormat::Rgb8 => 2 - c,
    }
}

/// The scalar conversion path: one pixel at a time.
pub fn convert_scalar(
    raw: &RawFrame,
    xt: &Vec<u32>,
    yt: &Vec<u32>,
    dst_w: u32,
    dst_h: u32,
    f: PixelFormat,
) -> (out: Vec<u8>)
    requires
        raw@.wf(),
        dst_w > 0,
        dst_h > 0,
        xt.len() == dst_w,
        yt.len() == dst_h,
        forall|i: int| 0 <= i < dst_w ==> xt@[i] == src_index(i, raw@.width as int, dst_w as int),
        forall|i: int| 0 <= i < dst_h ==> yt@[i] == src_index(i, raw@.height as int, dst_h as int),
    ensures
        out@ == convert_spec(raw@, dst_w as int, dst_h as int, f),
{
    let bpp: u32 = f.bytes_per_pixel();
    let mut out: Vec<u8> = Vec::new();
    let mut y: u32 = 0;
    while y < dst_h
        invariant
            raw@.wf(),
            dst_w > 0,
            dst_h > 0,
            xt.len() == dst_w,
            yt.len() == dst_h,
            forall|i: int|
                0 <= i < dst_w ==> xt@[i] == src_index(i, raw@.width as int, dst_w as int),
            forall|i: int|
                0 <= i < dst_h ==> yt@[i] == src_index(i, raw@.height as int, dst_h as int),
            bpp == spec_bytes_per_pixel(f),
            y <= dst_h,
            out.len() == y * dst_w * bpp,
            forall|j: int|
                0 <= j < out.len() ==> out@[j] == converted_byte(
                    raw@,
                    dst_w as int,
                    dst_h as int,
                    f,
                    j,
                ),
        decreases dst_h - y,
    {
        let mut x: u32 = 0;
        proof {
            assert(y * dst_w * bpp == (y * dst_w + 0) * bpp) by (nonlinear_arith);
        }
        while x < dst_w
            invariant
                raw@.wf(),
                dst_w > 0,
                dst_h > 0,
                x <= dst_w,
                y < dst_h,
                xt.len() == dst_w,
                yt.len() == dst_h,
                forall|i: int|
                    0 <= i < dst_w ==> xt@[i] == src_index(i, raw@.width as int, dst_w as int),
                forall|i: int|
                    0 <= i < dst_h ==> yt@[i] == src_index(i, raw@.height as int, dst_h as int),
                bpp == spec_bytes_per_pixel(f),
                out.len() == (y * dst_w + x) * bpp,
                forall|j: int|
                    0 <= j < out.len() ==> out@[j] == converted_byte(
                        raw@,
                        dst_w as int,
                        dst_h as int,
                        f,
                        j,
                    ),
            decreases dst_w - x,
        {
            emit_pixel(&mut out, raw, xt, yt, dst_w, dst_h, f, x, y);
            proof {
                lemma_mul_distrib((y * dst_w + x) as int, 1, bpp as int);
            }
            x = x + 1;
        }
        proof {
            assert((y * dst_w + dst_w) * bpp == (y + 1) * dst_w * bpp) by (nonlinear_arith);
        }
        y = y + 1;
    }
    proof {
        assert(dst_h * dst_w * bpp == dst_w * dst_h * spec_bytes_per_pixel(f)) by (nonlinear_arith)
            requires
                bpp == spec_bytes_per_pixel(f),
        ;
        assert(out@ =~= convert_spec(raw@, dst_w as int, dst_h as int, f));
    }
    out
}

/// The wide conversion path: blocks of eight pixels per step, with a scalar
/// tail for the remainder, as a vector-instruction implementation processes
/// them. Produces exactly the output of the scalar path.
pub fn convert_wide(
    raw: &RawFrame,
    xt: &Vec<u32>,
    yt: &Vec<u32>,
    dst_w: u32,
    dst_h: u32,
    f: PixelFormat,
) -> (out: Vec<u8>)
    requires
        raw@.wf(),
        dst_w > 0,
        dst_h > 0,
        xt.len() == dst_w,
        yt.len() == dst_h,
        forall|i: int| 0 <= i < dst_w ==> xt@[i] == src_index(i, raw@.width as int, dst_w as int),
        forall|i: int| 0 <= i < dst_h ==> yt@[i] == src_index(i, raw@.height as int, dst_h as int),
    ensures
        out@ == convert_spec(raw@, dst_w as int, dst_h as int, f),
{
    let bpp: u32 = f.bytes_per_pixel();
    let mut out: Vec<u8> = Vec::new();
    let mut y: u32 = 0;
    while y < dst_h
        invariant
            raw@.wf(),
            dst_w > 0,
            dst_h > 0,
            xt.len() == dst_w,
            yt.len() == dst_h,
            forall|i: int|
                0 <= i < dst_w ==> xt@[i] == src_index(i, raw@.width as int, dst_w as int),
            forall|i: int|
                0 <= i < dst_h ==> yt@[i] == src_index(i, raw@.height as int, dst_h as int),
            bpp == spec_bytes_per_pixel(f),
            y <= dst_h,
            out.len() == y * dst_w * bpp,
            forall|j: int|
                0 <= j < out.len() ==> out@[j] == converted_byte(
                    raw@,
                    dst_w as int,
                    dst_h as int,
                    f,
                    j,
                ),
        decreases dst_h - y,
    {
        let mut x: u32 = 0;
        proof {
            assert(y * dst_w * bpp == (y * dst_w + 0) * bpp) by (nonlinear_arith);
        }
        // Main block loop: eight pixels per step.
        while dst_w - x >= 8
            invariant
                raw@.wf(),
                dst_w > 0,
                dst_h > 0,
                x <= dst_w,
                y < dst_h,
                xt.len() == dst_w,
                yt.len() == dst_h,
                forall|i: int|
                    0 <= i < dst_w ==> xt@[i] == src_index(i, raw@.width as int, dst_w as int),
                forall|i: int|
                    0 <= i < dst_h ==> yt@[i] == src_index(i, raw@.height as int, dst_h as int),
                bpp == spec_bytes_per_pixel(f),
                out.len() == (y * dst_w + x) * bpp,
                forall|j: int|
                    0 <= j < out.len() ==> out@[j] == converted_byte(
                        raw@,
                        dst_w as int,
                        dst_h as int,
                        f,
                        j,
                    ),
            decreases dst_w - x,
        {
            let mut k: u32 = 0;
            while k < 8
                invariant
                    raw@.wf(),
                    dst_w > 0,
                    dst_h > 0,
                    x + 8 <= dst_w,
                    k <= 8,
                    y < dst_h,
                    xt.len() == dst_w,
                    yt.len() == dst_h,
                    forall|i: int|
                        0 <= i < dst_w ==> xt@[i] == src_index(i, raw@.width as int, dst_w as int),
                    forall|i: int|
                        0 <= i < dst_h ==> yt@[i] == src_index(i, raw@.height as int, dst_h as int),
                    bpp == spec_bytes_per_pixel(f),
                    out.len() == (y * dst_w + x + k) * bpp,
                    forall|j: int|
                        0 <= j < out.len() ==> out@[j] == converted_byte(
                            raw@,
                            dst_w as int,
                            dst_h as int,
                            f,
                            j,
                        ),
                decreases 8 - k,
            {
                emit_pixel(&mut out, raw, xt, yt, dst_w, dst_h, f, x + k, y);
                proof {
                    lemma_mul_distrib((y * dst_w + x + k) as int, 1, bpp as int);
                }
                k = k + 1;
            }
            x = x + 8;
        }
        // Scalar tail for the remaining pixels of the row.
        while x < dst_w
            invariant
                raw@.wf(),
                dst_w > 0,
                dst_h > 0,
                x <= dst_w,
                y < dst_h,
                xt.len() == dst_w,
                yt.len() == dst_h,
                forall|i: int|
                    0 <= i < dst_w ==> xt@[i] == src_index(i, raw@.width as int, dst_w as int),
                forall|i: int|
                    0 <= i < dst_h ==> yt@[i] == src_index(i, raw@.height as int, dst_h as int),
                bpp == spec_bytes_per_pixel(f),
                out.len() == (y * dst_w + x) * bpp,
                forall|j: int|
                    0 <= j < out.len() ==> out@[j] == converted_byte(
                        raw@,
                        dst_w as int,
                        dst_h as int,
                        f,
                        j,
                    ),
            decreases dst_w - x,
        {
            emit_pixel(&mut out, raw, xt, yt, dst_w, dst_h, f, x, y);
            proof {
                lemma_mul_distrib((y * dst_w + x) as int, 1, bpp as int);
            }
            x = x + 1;
        }
        proof {
            assert((y * dst_w + dst_w) * bpp == (y + 1) * dst_w * bpp) by (nonlinear_arith);
        }
        y = y + 1;
    }
    proof {
        assert(dst_h * dst_w * bpp == dst_w * dst_h * spec_bytes_per_pixel(f)) by (nonlinear_arith)
            requires
                bpp == spec_bytes_per_pixel(f),
        ;
        assert(out@ =~= convert_spec(raw@, dst_w as int, dst_h as int, f));
    }
    out
}

/// How the converter walks the pixels: in wide blocks, as on hardware with
/// vector instructions, or one at a time. Chosen once at startup by a
/// capability check in the embedding application; both produce identical
/// output.
#[derive(Clone, Copy, PartialEq, Eq, Structural, Debug)]
pub enum ConversionStrategy {
    Wide,
    Scalar,
}

/// The converter: owns the per-axis resampling tables, rebuilt only when the
/// source or target geometry changes, and the strategy choice.
pub struct FrameConverter {
    strategy: ConversionStrategy,
    /// Cached geometry of the current tables; `src_w == 0` means no tables
    /// have been built yet.
    src_w: u32,
    src_h: u32,
    dst_w: u32,
    dst_h: u32,
    xt: Vec<u32>,
    yt: Vec<u32>,
}

impl FrameConverter {
    /// Tables, when present, match their cached geometry.
    pub closed spec fn wf(self) -> bool {
        self.src_w > 0 ==> {
            &&& self.src_h > 0
            &&& self.dst_w > 0
            &&& self.dst_h > 0
            &&& self.xt.len() == self.dst_w
            &&& self.yt.len() == self.dst_h
            &&& forall|i: int|
                0 <= i < self.dst_w ==> self.xt@[i] == src_index(
                    i,
                    self.src_w as int,
                    self.dst_w as int,
                )
            &&& forall|i: int|
                0 <= i < self.dst_h ==> self.yt@[i] == src_index(
                    i,
                    self.src_h as int,
                    self.dst_h as int,
                )
        }
    }

    /// A converter with no tables built yet.
    pub fn new(strategy: ConversionStrategy) -> (r: FrameConverter)
        ensures
            r.wf(),
            r.strategy() == strategy,
    {
        FrameConverter {
            strategy,
            src_w: 0,
            src_h: 0,
            dst_w: 0,
            dst_h: 0,
            xt: Vec::new(),
            yt: Vec::new(),
        }
    }

    /// The strategy this converter was built with.
    pub closed spec fn strategy(self) -> ConversionStrategy {
        self.strategy
    }

    /// Builds the resampling tables for the given geometry if the cached ones
    /// do not match; leaves the converter untouched if they do.
    fn ensure_tables(&mut self, src_w: u32, src_h: u32, dst_w: u32, dst_h: u32)
        requires
            old(self).wf(),
            src_w > 0,
            src_h > 0,
            dst_w > 0,
            dst_h > 0,
        ensures
            final(self).wf(),
            final(self).strategy() == old(self).strategy(),
            final(self).src_w == src_w,
            final(self).src_h == src_h,
            final(self).dst_w == dst_w,
            final(self).dst_h == dst_h,
            old(self).src_w == src_w && old(self).src_h == src_h && old(self).dst_w == dst_w
                && old(self).dst_h == dst_h ==> *final(self) == *old(self),
    {
        if self.src_w == src_w && self.src_h == src_h && self.dst_w == dst_w && self.dst_h
            == dst_h {
            return ;
        }
        self.xt = build_scale_table(src_w, dst_w);
        self.yt = build_scale_table(src_h, dst_h);
        self.src_w = src_w;
        self.src_h = src_h;
        self.dst_w = dst_w;
        self.dst_h = dst_h;
    }

    /// Converts one raw frame to a packed `dst_w` by `dst_h` frame in layout
    /// `f`, stamped with sequence number `seq`. Returns
    /// `Err(BufferSizeMismatch)` exactly when the raw frame's byte length
    /// disagrees with its declared geometry; the converter's tables are still
    /// updated only on success.
    pub fn convert(
        &mut self,
        raw: &RawFrame,
        dst_w: u32,
        dst_h: u32,
        f: PixelFormat,
        seq: u64,
    ) -> (r: Result<CaptureFrame, CaptureError>)
        requires
            old(self).wf(),
            dst_w > 0,
            dst_h > 0,
        ensures
            final(self).wf(),
            final(self).strategy() == old(self).strategy(),
            r is Ok <==> raw@.wf(),
            !raw@.wf() ==> r == Result::<CaptureFrame, CaptureError>::Err(
                CaptureError::BufferSizeMismatch,
            ) && *final(self) == *old(self),
            raw@.wf() ==> r->Ok_0@ == (FrameView {
                data: convert_spec(raw@, dst_w as int, dst_h as int, f),
                width: dst_w,
                height: dst_h,
                format: f,
                seq,
            }),
    {
        if !raw.well_formed() {
            return Err(CaptureError::BufferSizeMismatch);
        }
        self.ensure_tables(raw.width, raw.height, dst_w, dst_h);
        let data: Vec<u8> = match self.strategy {
            ConversionStrategy::Wide => convert_wide(raw, &self.xt, &self.yt, dst_w, dst_h, f),
            ConversionStrategy::Scalar => convert_scalar(raw, &self.xt, &self.yt, dst_w, dst_h, f),
        };
        let frame = CaptureFrame { data, width: dst_w, height: dst_h, format: f, seq };
        assert(frame@ =~= FrameView {
            data: convert_spec(raw@, dst_w as int, dst_h as int, f),
            width: dst_w,
            height: dst_h,
            format: f,
            seq,
        });
        Ok(frame)
    }
}

} // verus!
