use dictate::pcm::{
    needs_resampling, pcm16_le_bytes, FrameBatcher, MIN_TAIL_BYTES, SEND_CHUNK_BYTES,
    TARGET_SAMPLE_RATE,
};

#[test]
fn pcm16_encodes_little_endian() {
    let bytes = pcm16_le_bytes(&[0, 1, -1, 0x1234, i16::MIN, i16::MAX]);
    assert_eq!(
        bytes,
        vec![0x00, 0x00, 0x01, 0x00, 0xff, 0xff, 0x34, 0x12, 0x00, 0x80, 0xff, 0x7f]
    );
}

#[test]
fn pcm16_matches_std_encoding() {
    let samples: Vec<i16> = (-300..300).map(|i: i16| i.wrapping_mul(97)).collect();
    let mut expected = Vec::new();
    for s in &samples {
        expected.extend_from_slice(&s.to_le_bytes());
    }
    assert_eq!(pcm16_le_bytes(&samples), expected);
}

#[test]
fn pcm16_empty_input() {
    assert!(pcm16_le_bytes(&[]).is_empty());
}

#[test]
fn frame_sizes_are_service_limits() {
    assert_eq!(SEND_CHUNK_BYTES, 3200);
    assert_eq!(MIN_TAIL_BYTES, 1600);
    assert_eq!(TARGET_SAMPLE_RATE, 16000);
}

#[test]
fn resampling_needed_only_off_target_rate() {
    assert!(!needs_resampling(16000));
    assert!(needs_resampling(48000));
    assert!(needs_resampling(44100));
}

#[test]
fn batcher_holds_back_partial_frame() {
    let mut b = FrameBatcher::<u8>::new(4);
    let frames = b.push(&[1, 2, 3]);
    assert!(frames.is_empty());
    assert_eq!(b.pending_len(), 3);
    let frames = b.push(&[4, 5, 6, 7, 8, 9]);
    assert_eq!(frames, vec![vec![1, 2, 3, 4], vec![5, 6, 7, 8]]);
    assert_eq!(b.pending_len(), 1);
    assert_eq!(b.finish(3, 0), Some(vec![9, 0, 0]));
}

#[test]
fn batcher_preserves_stream_order() {
    let mut b = FrameBatcher::<u8>::new(SEND_CHUNK_BYTES);
    let input: Vec<u8> = (0..10_000u32).map(|i| (i % 251) as u8).collect();
    let mut out = Vec::new();
    for piece in input.chunks(777) {
        for frame in b.push(piece) {
            assert_eq!(frame.len(), SEND_CHUNK_BYTES);
            out.extend(frame);
        }
    }
    let tail = b.finish(MIN_TAIL_BYTES, 0).expect("a remainder is pending");
    assert_eq!(out.len(), 9600);
    assert_eq!(tail.len(), 1600);
    out.extend(tail.iter().take(400));
    assert_eq!(out, input);
    assert!(tail[400..].iter().all(|&b| b == 0));
}

#[test]
fn batcher_long_tail_is_not_padded() {
    let mut b = FrameBatcher::<u8>::new(SEND_CHUNK_BYTES);
    assert!(b.push(&vec![7u8; 2000]).is_empty());
    assert_eq!(b.finish(MIN_TAIL_BYTES, 0), Some(vec![7u8; 2000]));
}

#[test]
fn batcher_empty_finish_sends_nothing() {
    let mut b = FrameBatcher::<u8>::new(SEND_CHUNK_BYTES);
    assert_eq!(b.push(&vec![1u8; 6400]).len(), 2);
    assert_eq!(b.finish(MIN_TAIL_BYTES, 0), None);
}

#[test]
fn batcher_works_on_float_samples() {
    let mut b = FrameBatcher::<f32>::new(2);
    let frames = b.push(&[0.5, -0.25, 1.0]);
    assert_eq!(frames, vec![vec![0.5, -0.25]]);
    assert_eq!(b.pending_len(), 1);
}
