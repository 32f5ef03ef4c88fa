//! Bounded FIFO buffer of recent latency samples, and the sampler's
//! value-generation step.
//!
//! The buffer holds at most `SAMPLE_CAPACITY` entries; appending at capacity
//! evicts the oldest entry first, so the buffer always holds the most recent
//! samples in insertion order.

use vstd::prelude::*;

verus! {

/// Capacity bound of the latency sample buffer.
pub const SAMPLE_CAPACITY: usize = 60;

/// What one append does to the buffer's contents: evict the oldest entry if
/// the buffer is at (or somehow beyond) capacity, then push the new sample.
pub open spec fn append_model(buf: Seq<u64>, v: u64) -> Seq<u64> {
    if buf.len() >= SAMPLE_CAPACITY {
        buf.drop_first().push(v)
    } else {
        buf.push(v)
    }
}

/// The most recent `SAMPLE_CAPACITY` entries of a full append history, in
/// insertion order (the whole history while it is still short enough).
pub open spec fn recent_window(h: Seq<u64>) -> Seq<u64> {
    if h.len() <= SAMPLE_CAPACITY {
        h
    } else {
        h.subrange(h.len() - SAMPLE_CAPACITY, h.len() as int)
    }
}

/// The buffer contents reached by appending a whole history of samples, in
/// order, into an initially empty buffer.
pub open spec fn replay(h: Seq<u64>) -> Seq<u64>
    decreases h.len(),
{
    if h.len() == 0 {
        Seq::<u64>::empty()
    } else {
        append_model(replay(h.drop_last()), h.last())
    }
}

/// Bounded ring buffer of recent latency samples.
pub struct LatencyBuffer {
    samples: Vec<u64>,
}

impl View for LatencyBuffer {
    type V = Seq<u64>;

    closed spec fn view(&self) -> Seq<u64> {
        self.samples@
    }
}

impl LatencyBuffer {
    /// Creates an empty buffer.
    pub fn new() -> (r: LatencyBuffer)
        ensures
            r@ == Seq::<u64>::empty(),
    {
        LatencyBuffer { samples: Vec::new() }
    }

    /// Appends one sample, evicting the oldest entry first when the buffer is
    /// at capacity. Total: no precondition, no failure.
    pub fn append_sample(&mut self, v: u64)
        ensures
            final(self)@ == append_model(old(self)@, v),
    {
        if self.samples.len() >= SAMPLE_CAPACITY {
            self.samples.remove(0);
        }
        self.samples.push(v);
    }

    /// Returns a copy of the current contents (not a live view), oldest first.
    pub fn snapshot_samples(&self) -> (r: Vec<u64>)
        ensures
            r@ == self@,
    {
        let mut out: Vec<u64> = Vec::new();
        let mut i: usize = 0;
        while i < self.samples.len()
            invariant
                i <= self.samples.len(),
                out@ == self.samples@.subrange(0, i as int),
            decreases self.samples.len() - i,
        {
            out.push(self.samples[i]);
            i += 1;
        }
        proof {
            assert(out@ =~= self@);
        }
        out
    }

    /// Number of samples currently held.
    pub fn len(&self) -> (n: usize)
        ensures
            n == self@.len(),
    {
        self.samples.len()
    }
}

/// A buffer that has followed `append_model` from empty holds exactly the most
/// recent `SAMPLE_CAPACITY` samples of its whole append history, in insertion
/// order, and its length never exceeds `SAMPLE_CAPACITY`.
pub proof fn lemma_buffer_holds_recent(h: Seq<u64>)
    ensures
        replay(h).len() <= SAMPLE_CAPACITY,
        replay(h) == recent_window(h),
    decreases h.len(),
{
    if h.len() == 0 {
        assert(replay(h) =~= recent_window(h));
    } else {
        let hp = h.drop_last();
        lemma_buffer_holds_recent(hp);
        if hp.len() < SAMPLE_CAPACITY {
            assert(replay(h) =~= recent_window(h));
        } else {
            assert(replay(hp) == hp.subrange(hp.len() - SAMPLE_CAPACITY, hp.len() as int));
            assert(replay(h) =~= recent_window(h));
        }
    }
}

/// The sampler's value-generation step: a saturating monotonic counter.
pub fn next_sample(v: u64) -> (r: u64)
    ensures
        v < u64::MAX ==> r == v + 1,
        v == u64::MAX ==> r == v,
{
    if v == u64::MAX {
        v
    } else {
        v + 1
    }
}

/// One iteration of the latency sampler between sleeps: append the current
/// counter value and advance the counter.
pub fn sampler_step(buf: &mut LatencyBuffer, v: u64) -> (next: u64)
    ensures
        final(buf)@ == append_model(old(buf)@, v),
        v < u64::MAX ==> next == v + 1,
        v == u64::MAX ==> next == v,
{
    buf.append_sample(v);
    next_sample(v)
}

} // verus!
