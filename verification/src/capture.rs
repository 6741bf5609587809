//! Capture-side buffer handoff.
//!
//! While a recording runs, the audio callback appends each batch of frames
//! it is handed into a shared slot; when the controller stops the recording
//! it takes the accumulated samples out of the slot in one step, leaving the
//! slot empty so no later start can see stale data. The slot is the only
//! state the callback mutates, and appending is the only mutation it
//! performs.

use vstd::prelude::*;

verus! {

/// The slot shared between the audio callback (its one writer) and the
/// controller (which takes the contents exactly once, at stop).
pub struct CaptureSlot {
    data: Option<Vec<i16>>,
}

/// Everything a run of batches delivers, concatenated in arrival order.
pub open spec fn delivered(batches: Seq<Seq<i16>>) -> Seq<i16>
    decreases batches.len(),
{
    if batches.len() == 0 {
        Seq::empty()
    } else {
        delivered(batches.drop_last()) + batches.last()
    }
}

impl CaptureSlot {
    /// The samples accumulated so far, or `None` once they have been taken.
    pub closed spec fn contents(&self) -> Option<Seq<i16>> {
        match self.data {
            Some(ref v) => Some(v@),
            None => None,
        }
    }

    /// A fresh slot for one recording: empty, not yet taken.
    pub fn new() -> (r: CaptureSlot)
        ensures
            r.contents() == Some(Seq::<i16>::empty()),
    {
        CaptureSlot { data: Some(Vec::new()) }
    }

    /// What the callback does with one hardware-delivered batch: append it to
    /// the accumulated samples. A batch arriving after the take (the stream
    /// winding down) is dropped, never resurrecting the slot.
    pub fn append(&mut self, batch: &Vec<i16>)
        ensures
            match old(self).contents() {
                Some(acc) => final(self).contents() == Some(acc + batch@),
                None => final(self).contents() == None::<Seq<i16>>,
            },
    {
        match self.data {
            Some(ref mut acc) => {
                let n: usize = batch.len();
                for i in 0..n
                    invariant
                        n == batch@.len(),
                        acc@ == old(self).contents().unwrap() + batch@.take(i as int),
                {
                    acc.push(batch[i]);
                    proof {
                        assert(batch@.take(i + 1) =~= batch@.take(i as int).push(batch@[i as int]));
                        assert(old(self).contents().unwrap() + batch@.take(i + 1) =~= (old(
                            self,
                        ).contents().unwrap() + batch@.take(i as int)).push(batch@[i as int]));
                    }
                }
                proof {
                    assert(batch@.take(n as int) =~= batch@);
                }
            },
            None => {},
        }
    }

    /// Whether the accumulated samples are still present — that is, whether
    /// no take has happened yet.
    pub fn is_filled(&self) -> (b: bool)
        ensures
            b == (self.contents() is Some),
    {
        self.data.is_some()
    }

    /// What stop does: take everything accumulated, leaving the slot empty.
    pub fn take(&mut self) -> (r: Vec<i16>)
        requires
            old(self).contents() is Some,
        ensures
            r@ == old(self).contents().unwrap(),
            final(self).contents() == None::<Seq<i16>>,
    {
        let data = self.data.take();
        data.unwrap()
    }
}

/// The slot contents after a prefix of the run's batches has arrived,
/// starting from a fresh slot.
pub open spec fn accumulated(batches: Seq<Seq<i16>>, i: int) -> Seq<i16> {
    delivered(batches.take(i))
}

/// Capture completeness law, first half: what the slot holds only ever
/// grows — after more batches, the earlier accumulation is a prefix, so a
/// take at any point holds every sample delivered before it.
pub proof fn lemma_capture_monotone(batches: Seq<Seq<i16>>, i: int, j: int)
    requires
        0 <= i <= j <= batches.len(),
    ensures
        accumulated(batches, i).is_prefix_of(accumulated(batches, j)),
    decreases j - i,
{
    if i < j {
        lemma_capture_monotone(batches, i, j - 1);
        assert(batches.take(j).drop_last() =~= batches.take(j - 1));
        assert(accumulated(batches, j) == accumulated(batches, j - 1) + batches.take(j).last());
        assert(accumulated(batches, i).is_prefix_of(accumulated(batches, j)));
    } else {
        assert(accumulated(batches, i) == accumulated(batches, j));
    }
}

/// Capture completeness law, second half: after the whole run the slot holds
/// exactly the concatenation of every delivered batch, in order — no sample
/// lost, none invented, none reordered.
pub proof fn lemma_capture_complete(batches: Seq<Seq<i16>>)
    ensures
        accumulated(batches, batches.len() as int) == delivered(batches),
{
    assert(batches.take(batches.len() as int) =~= batches);
}

} // verus!
