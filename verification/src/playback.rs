//! Playback-side sample queue.
//!
//! A decoded container becomes a queue of samples. The output callback asks
//! for one block per hardware period; the queue serves the samples it still
//! holds in order and pads the rest of the block with silence. The first
//! call after which the queue stands empty reports that completion should be
//! signalled — exactly once, so the one-shot completion channel is never
//! sent on twice.

use vstd::prelude::*;

use crate::codec::{decode, decode_spec, FormatError};

verus! {

/// The queue the output callback consumes, with the one-shot completion
/// latch.
pub struct PlaybackQueue {
    samples: Vec<i16>,
    pos: usize,
    signaled: bool,
}

impl PlaybackQueue {
    /// The samples not yet handed to the device, in play order.
    pub closed spec fn remaining(&self) -> Seq<i16> {
        self.samples@.skip(self.pos as int)
    }

    /// Completion has already been reported once.
    pub closed spec fn signaled(&self) -> bool {
        self.signaled
    }

    #[verifier::type_invariant]
    spec fn inv(&self) -> bool {
        self.pos <= self.samples@.len()
    }

    /// A queue holding a decoded sample stream, completion not yet reported.
    pub fn new(samples: Vec<i16>) -> (q: PlaybackQueue)
        ensures
            q.remaining() == samples@,
            !q.signaled(),
    {
        let q = PlaybackQueue { samples, pos: 0, signaled: false };
        proof {
            assert(q.samples@.skip(0) =~= q.samples@);
        }
        q
    }

    /// Serve one block of `requested` output slots: the queued samples in
    /// order as far as they reach, then exact silence for every slot past
    /// them. Returns whether this call is the one that must signal
    /// completion: true exactly at the first call that leaves the queue
    /// empty, false ever after.
    pub fn next_block(&mut self, requested: usize) -> (r: (Vec<i16>, bool))
        ensures
            ({
                let served = if requested <= old(self).remaining().len() {
                    requested as int
                } else {
                    old(self).remaining().len() as int
                };
                &&& r.0@.len() == requested
                &&& forall|i: int| 0 <= i < served ==> r.0@[i] == old(self).remaining()[i]
                &&& forall|i: int| served <= i < requested ==> r.0@[i] == 0i16
                &&& final(self).remaining() == old(self).remaining().skip(served)
                &&& final(self).signaled() == (old(self).signaled()
                    || final(self).remaining().len() == 0)
                &&& r.1 == (final(self).remaining().len() == 0 && !old(self).signaled())
            }),
    {
        proof {
            use_type_invariant(&*self);
        }
        let mut out: Vec<i16> = Vec::new();
        let have: usize = self.samples.len() - self.pos;
        let served: usize = if requested <= have {
            requested
        } else {
            have
        };
        for i in 0..served
            invariant
                self == old(self),
                self.pos + served <= self.samples@.len(),
                self.samples@.len() <= usize::MAX,
                served <= requested,
                out@.len() == i,
                forall|k: int| 0 <= k < i ==> out@[k] == self.samples@[self.pos + k],
        {
            out.push(self.samples[self.pos + i]);
        }
        for i in served..requested
            invariant
                served <= requested,
                out@.len() == i,
                forall|k: int| 0 <= k < served ==> out@[k] == self.samples@[self.pos + k],
                forall|k: int| served <= k < i ==> out@[k] == 0i16,
        {
            out.push(0);
        }
        self.pos = self.pos + served;
        proof {
            assert(self.samples@.skip(self.pos as int) =~= old(self).remaining().skip(
                served as int,
            ));
            assert(forall|k: int|
                0 <= k < served ==> old(self).remaining()[k] == self.samples@[old(self).pos + k]);
        }
        let done: bool = self.pos == self.samples.len();
        let signal_now: bool = done && !self.signaled;
        if done {
            self.signaled = true;
        }
        (out, signal_now)
    }
}

/// What `play` does with a container before streaming: decode it into a
/// consumable queue, together with the channel count and rate the output
/// stream must be opened with, or reject it with the decoder's verdict.
pub fn prepare_playback(bytes: &Vec<u8>) -> (r: Result<(PlaybackQueue, u16, u32), FormatError>)
    ensures
        match decode_spec(bytes@) {
            Ok(t) => r matches Ok(q) && q.0.remaining() == t.0 && !q.0.signaled() && q.1 == t.1
                && q.2 == t.2,
            Err(e) => r == Err::<(PlaybackQueue, u16, u32), FormatError>(e),
        },
{
    match decode(bytes) {
        Ok(buf) => Ok((PlaybackQueue::new(buf.samples), buf.channels, buf.sample_rate)),
        Err(e) => Err(e),
    }
}

} // verus!
