//! Length-prefixed framing of a raw byte stream.
//!
//! A frame on the wire is a 4-byte big-endian length followed by exactly that
//! many payload bytes. The decoder splits a byte stream into the payloads, in
//! order; a declared length over the limit is a malformed prefix, and bytes
//! left over at the end of the stream are a truncated frame. These decode
//! errors belong to whoever consumes the stream; they are not part of the
//! mailbox contract.

use vstd::prelude::*;
use vstd::slice::{slice_subrange, slice_to_vec};

verus! {

/// The largest payload length a frame may declare.
pub const MAX_FRAME_LEN: u32 = 8 * 1024 * 1024;

/// Why a byte stream failed to decode.
#[derive(Clone, Copy, Debug, PartialEq, Eq, Structural)]
pub enum DecodeError {
    /// A length prefix declared a payload over `MAX_FRAME_LEN`.
    FrameTooLong,
    /// The stream ended inside a length prefix or a payload.
    Truncated,
}

/// The big-endian value of a 4-byte length prefix.
pub open spec fn be32(b: Seq<u8>) -> int
    recommends
        b.len() == 4,
{
    b[0] * 0x1000000 + b[1] * 0x10000 + b[2] * 0x100 + b[3]
}

/// The meaning of a complete stream: the sequence of payloads it carries, or
/// the first decode error in it.
pub open spec fn decode_spec(input: Seq<u8>) -> Result<Seq<Seq<u8>>, DecodeError>
    decreases input.len(),
{
    if input.len() == 0 {
        Ok(Seq::empty())
    } else if input.len() < 4 {
        Err(DecodeError::Truncated)
    } else {
        let n = be32(input.subrange(0, 4));
        if n > MAX_FRAME_LEN {
            Err(DecodeError::FrameTooLong)
        } else if input.len() < 4 + n {
            Err(DecodeError::Truncated)
        } else {
            match decode_spec(input.skip(4 + n)) {
                Ok(rest) => Ok(seq![input.subrange(4, 4 + n)] + rest),
                Err(e) => Err(e),
            }
        }
    }
}

/// The payloads of a `Vec` of frames, as sequences.
pub open spec fn frames_view(v: Seq<Vec<u8>>) -> Seq<Seq<u8>> {
    v.map_values(|f: Vec<u8>| f@)
}

/// Reads the 4-byte big-endian length prefix at the front of `input`.
fn read_be32(input: &[u8]) -> (n: u32)
    requires
        input@.len() >= 4,
    ensures
        n as int == be32(input@.subrange(0, 4)),
{
    (input[0] as u32) * 0x1000000 + (input[1] as u32) * 0x10000 + (input[2] as u32) * 0x100 + (
    input[3] as u32)
}

/// Decodes a complete stream into its frames, exactly as `decode_spec` reads
/// it: the payloads in stream order, or the stream's first decode error.
pub fn decode_frames(input: &[u8]) -> (r: Result<Vec<Vec<u8>>, DecodeError>)
    ensures
        r matches Ok(v) ==> decode_spec(input@) == Ok::<Seq<Seq<u8>>, DecodeError>(
            frames_view(v@),
        ),
        r matches Err(e) ==> decode_spec(input@) == Err::<Seq<Seq<u8>>, DecodeError>(e),
    decreases input@.len(),
{
    if input.len() == 0 {
        let v: Vec<Vec<u8>> = Vec::new();
        assert(frames_view(v@) =~= Seq::<Seq<u8>>::empty());
        return Ok(v);
    }
    if input.len() < 4 {
        return Err(DecodeError::Truncated);
    }
    let n32 = read_be32(input);
    if n32 > MAX_FRAME_LEN {
        return Err(DecodeError::FrameTooLong);
    }
    let n = n32 as usize;
    if input.len() - 4 < n {
        return Err(DecodeError::Truncated);
    }
    let payload = slice_to_vec(slice_subrange(input, 4, 4 + n));
    let rest = slice_subrange(input, 4 + n, input.len());
    assert(rest@ =~= input@.skip(4 + n as int));
    match decode_frames(rest) {
        Ok(mut frames) => {
            let ghost tail = frames@;
            let mut out: Vec<Vec<u8>> = Vec::new();
            out.push(payload);
            out.append(&mut frames);
            proof {
                assert(out@ =~= seq![payload] + tail);
                assert(frames_view(out@) =~= seq![payload@] + frames_view(tail));
                assert(decode_spec(input@) == Ok::<Seq<Seq<u8>>, DecodeError>(
                    seq![input@.subrange(4, 4 + n as int)] + frames_view(tail),
                ));
            }
            Ok(out)
        },
        Err(e) => Err(e),
    }
}

/// The 4-byte big-endian length prefix written for a payload of `len` bytes.
pub open spec fn len_prefix(len: nat) -> Seq<u8> {
    seq![
        ((len / 0x1000000) % 0x100) as u8,
        ((len / 0x10000) % 0x100) as u8,
        ((len / 0x100) % 0x100) as u8,
        (len % 0x100) as u8,
    ]
}

/// The wire form of one frame: the length prefix, then the payload itself.
pub open spec fn encode1(payload: Seq<u8>) -> Seq<u8> {
    len_prefix(payload.len()) + payload
}

/// The wire form of a whole sequence of frames, in order.
pub open spec fn encode_all(frames: Seq<Seq<u8>>) -> Seq<u8>
    decreases frames.len(),
{
    if frames.len() == 0 {
        Seq::empty()
    } else {
        encode1(frames[0]) + encode_all(frames.skip(1))
    }
}

/// A length prefix reads back as the length it was written for.
proof fn lemma_prefix_value(len: nat)
    requires
        len < 0x100000000,
    ensures
        be32(len_prefix(len)) == len,
{
    let l = len as int;
    let q1 = l / 0x100;
    let q2 = l / 0x10000;
    let q3 = l / 0x1000000;
    vstd::arithmetic::div_mod::lemma_fundamental_div_mod(l, 0x100);
    vstd::arithmetic::div_mod::lemma_fundamental_div_mod(q1, 0x100);
    vstd::arithmetic::div_mod::lemma_fundamental_div_mod(q2, 0x100);
    vstd::arithmetic::div_mod::lemma_div_denominator(l, 0x100, 0x100);
    vstd::arithmetic::div_mod::lemma_div_denominator(l, 0x10000, 0x100);
    assert(q1 / 0x100 == q2);
    assert(q2 / 0x100 == q3);
    assert(0 <= q3 < 0x100);
    assert(be32(len_prefix(len)) == l);
}

/// Round trip, and the frame invariant itself: a stream emitted as
/// length-prefixed frames decodes back to exactly the payloads emitted, in
/// order — every frame's declared length matches its payload length exactly —
/// provided each payload is within the frame limit.
pub proof fn lemma_round_trip(frames: Seq<Seq<u8>>)
    requires
        forall|i: int| 0 <= i < frames.len() ==> (#[trigger] frames[i]).len() <= MAX_FRAME_LEN,
    ensures
        decode_spec(encode_all(frames)) == Ok::<Seq<Seq<u8>>, DecodeError>(frames),
    decreases frames.len(),
{
    if frames.len() == 0 {
        assert(encode_all(frames).len() == 0);
        assert(decode_spec(encode_all(frames)) == Ok::<Seq<Seq<u8>>, DecodeError>(
            Seq::<Seq<u8>>::empty(),
        ));
        assert(frames =~= Seq::<Seq<u8>>::empty());
    } else {
        let head = frames[0];
        let n = head.len() as int;
        let enc = encode_all(frames);
        let tail_enc = encode_all(frames.skip(1));
        assert(enc == encode1(head) + tail_enc);
        assert(enc.len() == 4 + n + tail_enc.len());
        lemma_prefix_value(head.len());
        assert(enc.subrange(0, 4) =~= len_prefix(head.len()));
        assert(be32(enc.subrange(0, 4)) == n);
        assert(enc.subrange(4, 4 + n) =~= head);
        assert(enc.skip(4 + n) =~= tail_enc);
        lemma_round_trip(frames.skip(1));
        assert(decode_spec(enc) == Ok::<Seq<Seq<u8>>, DecodeError>(seq![head] + frames.skip(1)));
        assert(seq![head] + frames.skip(1) =~= frames);
    }
}

/// What greedy extraction takes from the front of a buffer that may still
/// grow: every frame already complete, in order, and the remaining bytes that
/// await more input. Only a malformed prefix is an error here — a short tail
/// is not truncation until the stream ends.
pub open spec fn extract_spec(b: Seq<u8>) -> Result<(Seq<Seq<u8>>, Seq<u8>), DecodeError>
    decreases b.len(),
{
    if b.len() < 4 {
        Ok((Seq::empty(), b))
    } else {
        let n = be32(b.subrange(0, 4));
        if n > MAX_FRAME_LEN {
            Err(DecodeError::FrameTooLong)
        } else if b.len() < 4 + n {
            Ok((Seq::empty(), b))
        } else {
            match extract_spec(b.skip(4 + n)) {
                Ok(pr) => Ok((seq![b.subrange(4, 4 + n)] + pr.0, pr.1)),
                Err(e) => Err(e),
            }
        }
    }
}

/// Takes every complete frame off the front of `buf`, exactly as
/// `extract_spec` reads it, returning the frames with the undecoded
/// remainder.
pub fn drain_frames(buf: &[u8]) -> (r: Result<(Vec<Vec<u8>>, Vec<u8>), DecodeError>)
    ensures
        r matches Ok(pr) ==> extract_spec(buf@) == Ok::<(Seq<Seq<u8>>, Seq<u8>), DecodeError>(
            (frames_view(pr.0@), pr.1@),
        ),
        r matches Err(e) ==> extract_spec(buf@) == Err::<(Seq<Seq<u8>>, Seq<u8>), DecodeError>(e),
    decreases buf@.len(),
{
    if buf.len() < 4 {
        let v: Vec<Vec<u8>> = Vec::new();
        assert(frames_view(v@) =~= Seq::<Seq<u8>>::empty());
        return Ok((v, slice_to_vec(buf)));
    }
    let n32 = read_be32(buf);
    if n32 > MAX_FRAME_LEN {
        return Err(DecodeError::FrameTooLong);
    }
    let n = n32 as usize;
    if buf.len() - 4 < n {
        let v: Vec<Vec<u8>> = Vec::new();
        assert(frames_view(v@) =~= Seq::<Seq<u8>>::empty());
        return Ok((v, slice_to_vec(buf)));
    }
    let payload = slice_to_vec(slice_subrange(buf, 4, 4 + n));
    let rest = slice_subrange(buf, 4 + n, buf.len());
    assert(rest@ =~= buf@.skip(4 + n as int));
    match drain_frames(rest) {
        Ok(pr) => {
            let (mut tail_frames, remainder) = pr;
            let ghost tail = tail_frames@;
            let mut out: Vec<Vec<u8>> = Vec::new();
            out.push(payload);
            out.append(&mut tail_frames);
            proof {
                assert(out@ =~= seq![payload] + tail);
                assert(frames_view(out@) =~= seq![payload@] + frames_view(tail));
                assert(extract_spec(buf@) == Ok::<(Seq<Seq<u8>>, Seq<u8>), DecodeError>(
                    (seq![buf@.subrange(4, 4 + n as int)] + frames_view(tail), remainder@),
                ));
            }
            Ok((out, remainder))
        },
        Err(e) => Err(e),
    }
}

} // verus!
