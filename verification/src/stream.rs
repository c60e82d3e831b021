//! An actor state that watches a collaborating process's output stream.
//!
//! The actor owns the decode state for a length-prefixed byte stream (the
//! standard output of a child process, in the original deployment) and a weak
//! back-link to its own mailbox, taken during the start hook so that handing
//! out self-references never keeps the actor alive. The byte source itself is
//! outside work: a driver reads chunks and hands them in through
//! [`StreamActor::feed`]; every decision about the bytes is made, and proved,
//! here.

use vstd::prelude::*;

use crate::actor::WeakAddr;
use crate::frame::{drain_frames, extract_spec, frames_view, DecodeError};

verus! {

/// The stream-watching actor state.
pub struct StreamActor {
    self_addr: Option<WeakAddr>,
    buffer: Vec<u8>,
    frames: Vec<Vec<u8>>,
    failed: bool,
}

impl Default for StreamActor {
    /// A fresh stream actor: nothing buffered, nothing decoded, no
    /// self-reference yet.
    fn default() -> (r: StreamActor)
        ensures
            !r.has_self_addr(),
            r.buffer_view() == Seq::<u8>::empty(),
            r.frames_held() == Seq::<Seq<u8>>::empty(),
            !r.failed(),
    {
        StreamActor::new()
    }
}

impl StreamActor {
    /// Whether the start hook has stored the weak self-reference.
    pub closed spec fn has_self_addr(self) -> bool {
        self.self_addr is Some
    }

    /// The undecoded bytes waiting for the rest of a frame.
    pub closed spec fn buffer_view(self) -> Seq<u8> {
        self.buffer@
    }

    /// The decoded frames not yet taken out, in stream order.
    pub closed spec fn frames_held(self) -> Seq<Seq<u8>> {
        frames_view(self.frames@)
    }

    /// Whether the stream has turned out malformed; final.
    pub closed spec fn failed(self) -> bool {
        self.failed
    }

    pub fn new() -> (r: StreamActor)
        ensures
            !r.has_self_addr(),
            r.buffer_view() == Seq::<u8>::empty(),
            r.frames_held() == Seq::<Seq<u8>>::empty(),
            !r.failed(),
    {
        let r = StreamActor { self_addr: None, buffer: Vec::new(), frames: Vec::new(), failed: false };
        proof {
            assert(r.frames_held() =~= Seq::<Seq<u8>>::empty());
        }
        r
    }

    /// The start hook's decision: keep only a weak reference to the actor's
    /// own mailbox, never a strong one, so the actor cannot keep itself
    /// alive.
    pub fn started(&mut self, addr: WeakAddr)
        ensures
            final(self).has_self_addr(),
            final(self).buffer_view() == old(self).buffer_view(),
            final(self).frames_held() == old(self).frames_held(),
            final(self).failed() == old(self).failed(),
    {
        self.self_addr = Some(addr);
    }

    /// The weak self-reference, once the start hook has run.
    pub fn self_addr(&self) -> (r: Option<WeakAddr>)
        ensures
            r is Some <==> self.has_self_addr(),
    {
        match self.self_addr {
            Some(a) => Some(a),
            None => None,
        }
    }

    /// Accepts one chunk read from the byte source. The chunk joins the
    /// undecoded buffer; every frame it completes is taken off the front and
    /// held, and the reply counts the frames completed by this chunk. A
    /// malformed length prefix fails the stream for good.
    pub fn feed(&mut self, chunk: &[u8]) -> (r: Result<usize, DecodeError>)
        requires
            !old(self).failed(),
        ensures
            final(self).has_self_addr() == old(self).has_self_addr(),
            extract_spec(old(self).buffer_view() + chunk@) matches Ok(pr) ==> {
                &&& r == Ok::<usize, DecodeError>(pr.0.len() as usize)
                &&& final(self).frames_held() == old(self).frames_held() + pr.0
                &&& final(self).buffer_view() == pr.1
                &&& !final(self).failed()
            },
            extract_spec(old(self).buffer_view() + chunk@) matches Err(e) ==> {
                &&& r == Err::<usize, DecodeError>(e)
                &&& final(self).frames_held() == old(self).frames_held()
                &&& final(self).failed()
            },
    {
        let mut addition = vstd::slice::slice_to_vec(chunk);
        self.buffer.append(&mut addition);
        assert(self.buffer@ == old(self).buffer_view() + chunk@);
        match drain_frames(self.buffer.as_slice()) {
            Ok(pr) => {
                let (mut fresh, remainder) = pr;
                let count = fresh.len();
                let ghost fresh_view = frames_view(fresh@);
                let ghost held = old(self).frames_held();
                self.buffer = remainder;
                self.frames.append(&mut fresh);
                proof {
                    assert(self.frames_held() =~= held + fresh_view);
                }
                Ok(count)
            },
            Err(e) => {
                self.failed = true;
                Err(e)
            },
        }
    }

    /// How many decoded frames are held.
    pub fn frame_count(&self) -> (n: usize)
        ensures
            n == self.frames_held().len(),
    {
        self.frames.len()
    }

    /// Takes the oldest held frame out, front first, in stream order.
    pub fn take_frame(&mut self) -> (r: Option<Vec<u8>>)
        ensures
            final(self).has_self_addr() == old(self).has_self_addr(),
            final(self).buffer_view() == old(self).buffer_view(),
            final(self).failed() == old(self).failed(),
            old(self).frames_held().len() == 0 ==> r is None && final(self).frames_held() == old(
                self,
            ).frames_held(),
            old(self).frames_held().len() > 0 ==> (r matches Some(f) && f@ == old(self).frames_held()[0]
                && final(self).frames_held() == old(self).frames_held().skip(1)),
    {
        if self.frames.len() == 0 {
            None
        } else {
            let f = self.frames.remove(0);
            proof {
                assert(self.frames_held() =~= old(self).frames_held().skip(1));
            }
            Some(f)
        }
    }
}

} // verus!
