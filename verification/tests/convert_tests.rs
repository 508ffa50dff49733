//! Tests of the scale tables and the two conversion paths.

use capture_core::convert::build_scale_table;
use capture_core::convert::convert_scalar;
use capture_core::convert::convert_wide;
use capture_core::convert::ConversionStrategy;
use capture_core::convert::FrameConverter;
use capture_core::frame::CaptureError;
use capture_core::frame::PixelFormat;
use capture_core::frame::RawFrame;

/// A synthetic raw frame of uniform BGRA pixels, with optional row padding.
fn uniform_raw(width: u32, height: u32, pad: u32, bgra: [u8; 4]) -> RawFrame {
    let pitch = width * 4 + pad;
    let mut data = Vec::with_capacity((height * pitch) as usize);
    for _y in 0..height {
        for _x in 0..width {
            data.extend_from_slice(&bgra);
        }
        for _p in 0..pad {
            data.push(0xEE);
        }
    }
    RawFrame { data, width, height, row_pitch: pitch, format: PixelFormat::Bgra8 }
}

/// A deterministic pseudo-random raw frame (linear congruential bytes).
fn noisy_raw(width: u32, height: u32, pad: u32, seed: u64) -> RawFrame {
    let pitch = width * 4 + pad;
    let mut state = seed;
    let mut data = Vec::with_capacity((height * pitch) as usize);
    for _ in 0..(height * pitch) {
        state = state.wrapping_mul(6364136223846793005).wrapping_add(1442695040888963407);
        data.push((state >> 33) as u8);
    }
    RawFrame { data, width, height, row_pitch: pitch, format: PixelFormat::Bgra8 }
}

#[test]
fn scale_table_exact_values() {
    // 1920 -> 1280: source index is floor(t * 3 / 2).
    let t = build_scale_table(1920, 1280);
    assert_eq!(t.len(), 1280);
    assert_eq!(t[0], 0);
    assert_eq!(t[1], 1);
    assert_eq!(t[2], 3);
    assert_eq!(t[3], 4);
    assert_eq!(t[1279], 1918);
    // 1080 -> 720: floor(t * 3 / 2) as well.
    let t = build_scale_table(1080, 720);
    assert_eq!(t.len(), 720);
    assert_eq!(t[719], 1078);
}

#[test]
fn scale_table_identity() {
    let t = build_scale_table(100, 100);
    for (i, v) in t.iter().enumerate() {
        assert_eq!(*v as usize, i);
    }
}

#[test]
fn scale_table_monotonic_and_deterministic() {
    let a = build_scale_table(1917, 733);
    let b = build_scale_table(1917, 733);
    assert_eq!(a, b);
    for w in a.windows(2) {
        assert!(w[0] <= w[1]);
    }
    // Upscaling tables are monotonic too, and stay below the source size.
    let c = build_scale_table(733, 1917);
    for w in c.windows(2) {
        assert!(w[0] <= w[1]);
    }
    assert!(c.iter().all(|&v| v < 733));
}

#[test]
fn scenario_uniform_red_full_size() {
    // 1920x1080, 4 bytes per pixel in (B,G,R,A) order, every pixel pure red
    // with full alpha; converted 1:1 to 3-byte (R,G,B): every output pixel
    // must be (255, 0, 0).
    let raw = uniform_raw(1920, 1080, 0, [0, 0, 255, 255]);
    let xt = build_scale_table(1920, 1920);
    let yt = build_scale_table(1080, 1080);
    let out = convert_scalar(&raw, &xt, &yt, 1920, 1080, PixelFormat::Rgb8);
    assert_eq!(out.len(), 1920 * 1080 * 3);
    for px in out.chunks_exact(3) {
        assert_eq!(px, &[255, 0, 0]);
    }
}

#[test]
fn scenario_uniform_red_downscaled() {
    // The same source downscaled to 1280x720 RGB: a uniform color is
    // scale-invariant, so every output pixel is still (255, 0, 0).
    let raw = uniform_raw(1920, 1080, 0, [0, 0, 255, 255]);
    let xt = build_scale_table(1920, 1280);
    let yt = build_scale_table(1080, 720);
    let out = convert_wide(&raw, &xt, &yt, 1280, 720, PixelFormat::Rgb8);
    assert_eq!(out.len(), 1280 * 720 * 3);
    for px in out.chunks_exact(3) {
        assert_eq!(px, &[255, 0, 0]);
    }
}

#[test]
fn wide_and_scalar_paths_identical() {
    // Odd target sizes exercise the wide path's remainder loop; the row
    // padding carries a sentinel that must never leak into the output.
    let raw = noisy_raw(64, 48, 36, 12345);
    for (dw, dh) in [(33u32, 17u32), (64, 48), (70, 50), (8, 8), (1, 1)] {
        let xt = build_scale_table(64, dw);
        let yt = build_scale_table(48, dh);
        for f in [PixelFormat::Rgb8, PixelFormat::Rgba8, PixelFormat::Bgra8] {
            let a = convert_scalar(&raw, &xt, &yt, dw, dh, f);
            let b = convert_wide(&raw, &xt, &yt, dw, dh, f);
            assert_eq!(a, b);
        }
    }
}

#[test]
fn row_padding_is_ignored() {
    let raw = uniform_raw(10, 4, 14, [1, 2, 3, 4]);
    let xt = build_scale_table(10, 10);
    let yt = build_scale_table(4, 4);
    let out = convert_scalar(&raw, &xt, &yt, 10, 4, PixelFormat::Rgb8);
    assert!(out.iter().all(|&b| b != 0xEE));
}

#[test]
fn channel_orders() {
    // Two pixels: (B,G,R,A) = (1,2,3,4) and (5,6,7,8).
    let raw = RawFrame {
        data: vec![1, 2, 3, 4, 5, 6, 7, 8],
        width: 2,
        height: 1,
        row_pitch: 8,
        format: PixelFormat::Bgra8,
    };
    let xt = build_scale_table(2, 2);
    let yt = build_scale_table(1, 1);
    let rgb = convert_scalar(&raw, &xt, &yt, 2, 1, PixelFormat::Rgb8);
    assert_eq!(rgb, vec![3, 2, 1, 7, 6, 5]);
    let rgba = convert_scalar(&raw, &xt, &yt, 2, 1, PixelFormat::Rgba8);
    assert_eq!(rgba, vec![3, 2, 1, 4, 7, 6, 5, 8]);
    let bgra = convert_scalar(&raw, &xt, &yt, 2, 1, PixelFormat::Bgra8);
    assert_eq!(bgra, vec![1, 2, 3, 4, 5, 6, 7, 8]);
}

#[test]
fn upscaling_replicates_pixels() {
    // One white and one black pixel, upscaled to four columns: each source
    // pixel is replicated.
    let raw = RawFrame {
        data: vec![255, 255, 255, 255, 0, 0, 0, 255],
        width: 2,
        height: 1,
        row_pitch: 8,
        format: PixelFormat::Bgra8,
    };
    let xt = build_scale_table(2, 4);
    let yt = build_scale_table(1, 1);
    let out = convert_scalar(&raw, &xt, &yt, 4, 1, PixelFormat::Rgb8);
    assert_eq!(out, vec![255, 255, 255, 255, 255, 255, 0, 0, 0, 0, 0, 0]);
}

#[test]
fn converter_rejects_size_mismatch() {
    // The frame claims 4x4 but holds one row too few.
    let raw = RawFrame {
        data: vec![0; 3 * 16],
        width: 4,
        height: 4,
        row_pitch: 16,
        format: PixelFormat::Bgra8,
    };
    let mut conv = FrameConverter::new(ConversionStrategy::Scalar);
    let r = conv.convert(&raw, 4, 4, PixelFormat::Rgb8, 0);
    assert_eq!(r.err(), Some(CaptureError::BufferSizeMismatch));
}

#[test]
fn converter_converts_and_stamps_sequence() {
    let raw = uniform_raw(8, 8, 0, [9, 8, 7, 6]);
    let mut conv = FrameConverter::new(ConversionStrategy::Wide);
    let frame = conv.convert(&raw, 4, 4, PixelFormat::Rgb8, 42).unwrap();
    assert_eq!(frame.width, 4);
    assert_eq!(frame.height, 4);
    assert_eq!(frame.seq, 42);
    assert_eq!(frame.data.len(), 4 * 4 * 3);
    for px in frame.data.chunks_exact(3) {
        assert_eq!(px, &[7, 8, 9]);
    }
}
