//! Tests of the double-buffered publish/consume protocol.

use capture_core::buffer::FrameBuffer;
use capture_core::frame::CaptureFrame;
use capture_core::frame::PixelFormat;

fn frame(seq: u64, fill: u8) -> CaptureFrame {
    CaptureFrame {
        data: vec![fill; 2 * 2 * 3],
        width: 2,
        height: 2,
        format: PixelFormat::Rgb8,
        seq,
    }
}

#[test]
fn empty_buffer_returns_none() {
    let mut b = FrameBuffer::new();
    assert!(b.get_frame().is_none());
    assert_eq!(b.write_count(), 0);
}

#[test]
fn publish_then_get_returns_the_frame() {
    let mut b = FrameBuffer::new();
    b.publish(frame(0, 7));
    let f = b.get_frame().unwrap();
    assert_eq!(f.seq, 0);
    assert_eq!(f.data, vec![7; 12]);
    // Without a new publish, the same frame stays current.
    let f2 = b.get_frame().unwrap();
    assert_eq!(f2.seq, 0);
    assert_eq!(f2.data, vec![7; 12]);
}

#[test]
fn newest_frame_wins() {
    let mut b = FrameBuffer::new();
    b.publish(frame(0, 1));
    b.publish(frame(1, 2));
    b.publish(frame(2, 3));
    // The consumer polled slower than the producer captured: it sees only
    // the newest completed frame.
    let f = b.get_frame().unwrap();
    assert_eq!(f.seq, 2);
    assert_eq!(f.data, vec![3; 12]);
}

#[test]
fn sequence_never_rewinds() {
    let mut b = FrameBuffer::new();
    let mut last = 0u64;
    for s in 0..10u64 {
        b.publish(frame(s, s as u8));
        let f = b.get_frame().unwrap();
        assert!(f.seq >= last);
        last = f.seq;
    }
}

#[test]
fn writes_counted_only_for_publishes() {
    let mut b = FrameBuffer::new();
    b.publish(frame(0, 1));
    b.publish(frame(1, 2));
    assert_eq!(b.write_count(), 2);
    let _ = b.get_frame();
    let _ = b.get_frame();
    assert_eq!(b.write_count(), 2);
}

#[test]
fn returned_length_matches_geometry() {
    let mut b = FrameBuffer::new();
    b.publish(CaptureFrame {
        data: vec![5; 7 * 3 * 4],
        width: 7,
        height: 3,
        format: PixelFormat::Bgra8,
        seq: 0,
    });
    let f = b.get_frame().unwrap();
    assert_eq!(f.data.len(), (f.width * f.height * 4) as usize);
    assert_eq!((f.width, f.height), (7, 3));
}
