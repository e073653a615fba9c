//! The bounded sample buffer: a capacity-limited sequence of fixed-point
//! samples that evicts its oldest entries when an append would overflow.
//!
//! One producer (the platform audio callback or the loopback polling thread)
//! appends chunks while a recording runs; the stop path drains the buffer
//! once. The capacity ceiling — ten minutes of stereo audio at 44 100 Hz —
//! holds after every mutation: an append that would exceed it first discards
//! exactly enough of the oldest samples, so the buffer always retains the
//! most recent slice of everything appended.

use vstd::prelude::*;

verus! {

/// Capacity ceiling: ten minutes at 44 100 Hz, two channels.
pub const MAX_BUFFER_SAMPLES: usize = 44100 * 2 * 60 * 10;

/// What a bounded buffer retains of a logical sample sequence: the whole
/// sequence if it fits, otherwise its most recent `MAX_BUFFER_SAMPLES`-long
/// tail.
pub open spec fn spec_retained(s: Seq<i32>) -> Seq<i32> {
    if s.len() > MAX_BUFFER_SAMPLES {
        s.skip(s.len() - MAX_BUFFER_SAMPLES)
    } else {
        s
    }
}

/// Eviction is compositional: appending to a buffer that already evicted
/// retains exactly the tail of the logical concatenation. By induction over
/// a run of appends, a buffer that started empty always holds
/// `spec_retained` of everything ever appended, so once the total length
/// exceeds capacity the buffer holds exactly the most recent
/// `MAX_BUFFER_SAMPLES` samples.
pub proof fn lemma_retained_append_compose(a: Seq<i32>, b: Seq<i32>)
    ensures
        spec_retained(spec_retained(a) + b) == spec_retained(a + b),
{
    assert(spec_retained(spec_retained(a) + b) =~= spec_retained(a + b));
}

/// The logical concatenation of a history of appended chunks.
pub open spec fn spec_concat_all(chunks: Seq<Seq<i32>>) -> Seq<i32>
    decreases chunks.len(),
{
    if chunks.len() == 0 {
        Seq::empty()
    } else {
        spec_concat_all(chunks.drop_last()) + chunks.last()
    }
}

/// The contents of a buffer that started empty after a history of appends,
/// each step evicting as [`BoundedSampleBuffer::append`] ensures.
pub open spec fn spec_buffer_after(chunks: Seq<Seq<i32>>) -> Seq<i32>
    decreases chunks.len(),
{
    if chunks.len() == 0 {
        Seq::empty()
    } else {
        spec_retained(spec_buffer_after(chunks.drop_last()) + chunks.last())
    }
}

/// Over any history of appends to a buffer that started empty, the buffer
/// holds exactly the retained tail of the logical concatenation of all
/// appended chunks; in particular, once the total appended length exceeds
/// capacity, the buffer's length equals the capacity and its contents are
/// the most recent `MAX_BUFFER_SAMPLES`-long slice.
pub proof fn lemma_retained_history(chunks: Seq<Seq<i32>>)
    ensures
        spec_buffer_after(chunks) == spec_retained(spec_concat_all(chunks)),
        spec_concat_all(chunks).len() > MAX_BUFFER_SAMPLES ==> spec_buffer_after(chunks).len()
            == MAX_BUFFER_SAMPLES,
    decreases chunks.len(),
{
    if chunks.len() == 0 {
        assert(spec_retained(spec_concat_all(chunks)) =~= Seq::<i32>::empty());
    } else {
        lemma_retained_history(chunks.drop_last());
        lemma_retained_append_compose(spec_concat_all(chunks.drop_last()), chunks.last());
    }
}

/// Removes the first `n` elements of a vector, keeping the rest in order.
fn drop_front(v: &mut Vec<i32>, n: usize)
    requires
        n <= old(v)@.len(),
    ensures
        final(v)@ == old(v)@.skip(n as int),
{
    let len = v.len();
    let mut out: Vec<i32> = Vec::new();
    let mut i: usize = n;
    while i < len
        invariant
            n <= i <= len,
            len == v@.len(),
            v@ == old(v)@,
            out@ == v@.subrange(n as int, i as int),
        decreases len - i,
    {
        out.push(v[i]);
        i += 1;
    }
    assert(out@ =~= old(v)@.skip(n as int));
    *v = out;
}

/// A thread-exclusive, capacity-limited sequence of samples. Its length
/// never exceeds [`MAX_BUFFER_SAMPLES`]; overflowing appends evict from the
/// front, oldest first.
pub struct BoundedSampleBuffer {
    data: Vec<i32>,
}

impl View for BoundedSampleBuffer {
    type V = Seq<i32>;

    closed spec fn view(&self) -> Seq<i32> {
        self.data@
    }
}

impl BoundedSampleBuffer {
    /// Length never exceeds the capacity ceiling.
    #[verifier::type_invariant]
    spec fn capacity_ok(self) -> bool {
        self.data@.len() <= MAX_BUFFER_SAMPLES
    }

    /// Creates an empty buffer.
    pub fn new() -> (r: Self)
        ensures
            r@ == Seq::<i32>::empty(),
    {
        BoundedSampleBuffer { data: Vec::new() }
    }

    /// Current number of buffered samples.
    pub fn len(&self) -> (r: usize)
        ensures
            r == self@.len(),
            r <= MAX_BUFFER_SAMPLES,
    {
        proof {
            use_type_invariant(self);
        }
        self.data.len()
    }

    /// Appends a chunk, first evicting exactly as many of the oldest samples
    /// as the append would push past capacity (and never more than are
    /// buffered): the buffer ends up retaining the most recent slice of the
    /// logical concatenation.
    pub fn append(&mut self, chunk: &Vec<i32>)
        requires
            chunk@.len() <= MAX_BUFFER_SAMPLES,
        ensures
            final(self)@ == spec_retained(old(self)@ + chunk@),
            old(self)@.len() + chunk@.len() > MAX_BUFFER_SAMPLES ==> final(self)@.len()
                == MAX_BUFFER_SAMPLES,
            old(self)@.len() + chunk@.len() <= MAX_BUFFER_SAMPLES ==> final(self)@ == old(self)@
                + chunk@,
    {
        proof {
            use_type_invariant(&*self);
        }
        let mut data: Vec<i32> = Vec::new();
        core::mem::swap(&mut data, &mut self.data);
        let cur = data.len();
        let chunk_len = chunk.len();
        if cur + chunk_len > MAX_BUFFER_SAMPLES {
            let remove = cur + chunk_len - MAX_BUFFER_SAMPLES;
            drop_front(&mut data, remove);
        }
        let ghost base = data@;
        let mut j: usize = 0;
        while j < chunk_len
            invariant
                j <= chunk_len,
                chunk_len == chunk@.len(),
                base.len() + chunk_len <= MAX_BUFFER_SAMPLES,
                data@ == base + chunk@.subrange(0, j as int),
            decreases chunk_len - j,
        {
            data.push(chunk[j]);
            assert(data@ =~= base + chunk@.subrange(0, j as int + 1));
            j += 1;
        }
        proof {
            assert(data@ =~= spec_retained(old(self)@ + chunk@));
        }
        self.data = data;
    }

    /// Empties the buffer and returns everything it held, in order.
    pub fn drain(&mut self) -> (r: Vec<i32>)
        ensures
            r@ == old(self)@,
            final(self)@ == Seq::<i32>::empty(),
            r@.len() <= MAX_BUFFER_SAMPLES,
    {
        proof {
            use_type_invariant(&*self);
        }
        let mut out: Vec<i32> = Vec::new();
        core::mem::swap(&mut out, &mut self.data);
        out
    }

    /// Returns a copy of the buffered samples without mutating the buffer.
    pub fn snapshot(&self) -> (r: Vec<i32>)
        ensures
            r@ == self@,
            r@.len() <= MAX_BUFFER_SAMPLES,
    {
        proof {
            use_type_invariant(self);
        }
        let len = self.data.len();
        let mut out: Vec<i32> = Vec::new();
        let mut i: usize = 0;
        while i < len
            invariant
                i <= len,
                len == self.data@.len(),
                out@ == self.data@.subrange(0, i as int),
            decreases len - i,
        {
            out.push(self.data[i]);
            i += 1;
        }
        assert(out@ =~= self.data@);
        out
    }
}

} // verus!
