use actor_core::actor::WeakAddr;
use actor_core::frame::{decode_frames, DecodeError};
use actor_core::stream::StreamActor;

fn framed(payload: &[u8]) -> Vec<u8> {
    let n = payload.len() as u32;
    let mut out = vec![
        (n >> 24) as u8,
        (n >> 16) as u8,
        (n >> 8) as u8,
        n as u8,
    ];
    out.extend_from_slice(payload);
    out
}

#[test]
fn two_frames_decode_in_order() {
    let mut input = vec![0u8, 0, 0, 5];
    input.extend_from_slice(b"hello");
    input.extend_from_slice(&[0, 0, 0, 3]);
    input.extend_from_slice(b"abc");
    let frames = decode_frames(&input).unwrap();
    assert_eq!(frames.len(), 2);
    assert_eq!(frames[0], b"hello".to_vec());
    assert_eq!(frames[1], b"abc".to_vec());
}

#[test]
fn empty_stream_has_no_frames() {
    let frames = decode_frames(&[]).unwrap();
    assert!(frames.is_empty());
}

#[test]
fn empty_payload_is_a_frame() {
    let frames = decode_frames(&[0, 0, 0, 0]).unwrap();
    assert_eq!(frames, vec![Vec::<u8>::new()]);
}

#[test]
fn short_prefix_is_truncated() {
    assert_eq!(decode_frames(&[0, 0, 1]), Err(DecodeError::Truncated));
}

#[test]
fn short_payload_is_truncated() {
    assert_eq!(decode_frames(&[0, 0, 0, 5, b'h', b'e']), Err(DecodeError::Truncated));
}

#[test]
fn oversize_length_is_rejected() {
    assert_eq!(decode_frames(&[0xff, 0xff, 0xff, 0xff]), Err(DecodeError::FrameTooLong));
}

#[test]
fn length_prefix_is_big_endian() {
    let mut input = vec![0u8, 0, 1, 0];
    input.extend_from_slice(&[9u8; 256]);
    let frames = decode_frames(&input).unwrap();
    assert_eq!(frames.len(), 1);
    assert_eq!(frames[0].len(), 256);
}

#[test]
fn largest_allowed_frame_decodes() {
    // 8 MiB exactly: the boundary the decoder still accepts.
    let payload = vec![0u8; 8 * 1024 * 1024];
    let input = framed(&payload);
    let frames = decode_frames(&input).unwrap();
    assert_eq!(frames.len(), 1);
    assert_eq!(frames[0].len(), payload.len());
    // One byte more is malformed.
    let over = vec![0x00u8, 0x80, 0x00, 0x01];
    assert_eq!(decode_frames(&over), Err(DecodeError::FrameTooLong));
}

#[test]
fn stream_actor_reassembles_split_chunks() {
    let mut actor = StreamActor::new();
    actor.started(WeakAddr);
    assert_eq!(actor.feed(&[0, 0, 0, 5, b'h', b'e']), Ok(0));
    assert_eq!(actor.frame_count(), 0);
    let mut middle = b"llo".to_vec();
    middle.extend_from_slice(&[0, 0, 0, 3]);
    middle.extend_from_slice(b"ab");
    assert_eq!(actor.feed(&middle), Ok(1));
    assert_eq!(actor.feed(b"c"), Ok(1));
    assert_eq!(actor.take_frame(), Some(b"hello".to_vec()));
    assert_eq!(actor.take_frame(), Some(b"abc".to_vec()));
    assert_eq!(actor.take_frame(), None);
}

#[test]
fn stream_actor_fails_on_malformed_prefix() {
    let mut actor = StreamActor::new();
    actor.started(WeakAddr);
    assert_eq!(actor.feed(&framed(b"ok")), Ok(1));
    assert_eq!(actor.feed(&[0xff, 0xff, 0xff, 0xff]), Err(DecodeError::FrameTooLong));
    // Frames decoded before the fault are still there.
    assert_eq!(actor.take_frame(), Some(b"ok".to_vec()));
}

#[test]
fn stream_actor_keeps_weak_self_reference() {
    let mut actor = StreamActor::new();
    assert!(actor.self_addr().is_none());
    actor.started(WeakAddr);
    assert!(actor.self_addr().is_some());
}
