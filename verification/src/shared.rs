//! The shared decode buffer: a bounded FIFO of decoded audio chunks
//! plus the end-of-stream and stopping flags, shared (in the running
//! system) between the decoder worker and the streaming source
//! adapter. All mutation of the running system's buffer goes through
//! one mutex; this module holds the data structure itself and proves
//! the ordering and bounding laws that the two sides rely on.
use std::collections::VecDeque;
use vstd::prelude::*;

verus! {

/// How many decoded chunks the shared queue holds at most in the
/// running system.
pub const FRAME_BUFFER_CAPACITY: usize = 64;

/// One unit of decoded and resampled PCM: the interleaved samples for
/// the playback device and the mono samples for spectrum analysis.
/// The sample scalar is a type parameter; the running system
/// instantiates it with its PCM sample type.
pub struct AudioChunk<S> {
    pub player_samples: Vec<S>,
    pub fft_samples: Vec<S>,
}

/// The state shared between the decoder worker (producer) and the
/// streaming source adapter (consumer): a bounded chunk FIFO, the
/// end-of-stream flag and the stopping flag.
pub struct SharedPipelineState<S> {
    buffer: VecDeque<AudioChunk<S>>,
    capacity: usize,
    is_eof: bool,
    is_stopping: bool,
}

impl<S> SharedPipelineState<S> {
    /// The queued chunks, oldest first.
    pub closed spec fn chunks(self) -> Seq<AudioChunk<S>> {
        self.buffer@
    }

    /// The configured bound on the queue length.
    pub closed spec fn capacity(self) -> nat {
        self.capacity as nat
    }

    /// Whether the producer has reached the end of the stream; once
    /// set (and not reset by a seek), no further chunk is pushed.
    pub closed spec fn eof(self) -> bool {
        self.is_eof
    }

    /// Whether the pipeline is being torn down.
    pub closed spec fn stopping(self) -> bool {
        self.is_stopping
    }

    /// The backpressure bound: the queue never holds more chunks than
    /// the configured capacity.
    pub open spec fn wf(self) -> bool {
        self.chunks().len() <= self.capacity()
    }

    /// A fresh pipeline state: empty queue, no flag set.
    pub fn new(capacity: usize) -> (s: Self)
        ensures
            s.wf(),
            s.chunks() == Seq::<AudioChunk<S>>::empty(),
            s.capacity() == capacity,
            !s.eof(),
            !s.stopping(),
    {
        SharedPipelineState {
            buffer: VecDeque::new(),
            capacity,
            is_eof: false,
            is_stopping: false,
        }
    }

    /// How many chunks are queued.
    pub fn len(&self) -> (n: usize)
        ensures
            n == self.chunks().len(),
    {
        self.buffer.len()
    }

    /// Whether the producer must wait before pushing another chunk.
    pub fn is_full(&self) -> (b: bool)
        ensures
            b == (self.chunks().len() >= self.capacity()),
    {
        self.buffer.len() >= self.capacity
    }

    /// Whether the producer has marked the end of the stream.
    pub fn eof_flag(&self) -> (b: bool)
        ensures
            b == self.eof(),
    {
        self.is_eof
    }

    /// Whether the pipeline is being torn down.
    pub fn stopping_flag(&self) -> (b: bool)
        ensures
            b == self.stopping(),
    {
        self.is_stopping
    }

    /// Appends one finished chunk. The producer may only do so when
    /// the queue has room; in the running system it blocks on the
    /// condition variable until that holds or the pipeline stops.
    pub fn push_chunk(&mut self, chunk: AudioChunk<S>)
        requires
            old(self).wf(),
            old(self).chunks().len() < old(self).capacity(),
        ensures
            final(self).wf(),
            final(self).chunks() == old(self).chunks().push(chunk),
            final(self).capacity() == old(self).capacity(),
            final(self).eof() == old(self).eof(),
            final(self).stopping() == old(self).stopping(),
    {
        self.buffer.push_back(chunk);
    }

    /// Removes and returns the oldest chunk, if any.
    pub fn pop_chunk(&mut self) -> (r: Option<AudioChunk<S>>)
        requires
            old(self).wf(),
        ensures
            final(self).wf(),
            final(self).capacity() == old(self).capacity(),
            final(self).eof() == old(self).eof(),
            final(self).stopping() == old(self).stopping(),
            old(self).chunks().len() == 0 ==> r is None && final(self).chunks() == old(self).chunks(),
            old(self).chunks().len() > 0 ==> r == Some(old(self).chunks()[0])
                && final(self).chunks() == old(self).chunks().drop_first(),
    {
        self.buffer.pop_front()
    }

    /// A successful container seek on the decoder side: the stale
    /// queue is dropped and the end-of-stream flag reset, so that
    /// everything later popped was produced after the seek.
    pub fn clear_for_seek(&mut self)
        ensures
            final(self).wf(),
            final(self).chunks() == Seq::<AudioChunk<S>>::empty(),
            !final(self).eof(),
            final(self).capacity() == old(self).capacity(),
            final(self).stopping() == old(self).stopping(),
    {
        self.buffer.clear();
        self.is_eof = false;
    }

    /// The producer has decoded the whole stream; no further chunk
    /// will be pushed (unless a later seek resets the flag).
    pub fn set_eof(&mut self)
        requires
            old(self).wf(),
        ensures
            final(self).wf(),
            final(self).chunks() == old(self).chunks(),
            final(self).capacity() == old(self).capacity(),
            final(self).eof(),
            final(self).stopping() == old(self).stopping(),
    {
        self.is_eof = true;
    }

    /// Tear-down has been requested; both sides must exit their wait
    /// loops. The flag is one-way.
    pub fn set_stopping(&mut self)
        requires
            old(self).wf(),
        ensures
            final(self).wf(),
            final(self).chunks() == old(self).chunks(),
            final(self).capacity() == old(self).capacity(),
            final(self).eof() == old(self).eof(),
            final(self).stopping(),
    {
        self.is_stopping = true;
    }
}

/// The queue contents after pushing every chunk of `cs`, in order,
/// onto a queue holding `q`.
pub open spec fn spec_push_all<S>(q: Seq<AudioChunk<S>>, cs: Seq<AudioChunk<S>>) -> Seq<
    AudioChunk<S>,
>
    decreases cs.len(),
{
    if cs.len() == 0 {
        q
    } else {
        spec_push_all(q.push(cs[0]), cs.drop_first())
    }
}

/// The chunks obtained by popping a queue holding `q` until it is
/// empty, in pop order.
pub open spec fn spec_pop_all<S>(q: Seq<AudioChunk<S>>) -> Seq<AudioChunk<S>>
    decreases q.len(),
{
    if q.len() == 0 {
        q
    } else {
        seq![q[0]] + spec_pop_all(q.drop_first())
    }
}

proof fn lemma_push_all_appends<S>(q: Seq<AudioChunk<S>>, cs: Seq<AudioChunk<S>>)
    ensures
        spec_push_all(q, cs) == q + cs,
    decreases cs.len(),
{
    if cs.len() == 0 {
        assert(spec_push_all(q, cs) =~= q + cs);
    } else {
        lemma_push_all_appends(q.push(cs[0]), cs.drop_first());
        assert(q.push(cs[0]) + cs.drop_first() =~= q + cs);
    }
}

proof fn lemma_pop_all_identity<S>(q: Seq<AudioChunk<S>>)
    ensures
        spec_pop_all(q) == q,
    decreases q.len(),
{
    if q.len() > 0 {
        lemma_pop_all_identity(q.drop_first());
        assert(seq![q[0]] + q.drop_first() =~= q);
    }
}

/// FIFO law: chunks pushed in order into an initially empty queue,
/// with no seek in between, are popped back in exactly push order.
/// `spec_push_all` is what repeated `push_chunk` calls produce and
/// `spec_pop_all` is what repeated `pop_chunk` calls return, by those
/// functions' contracts.
pub proof fn lemma_fifo_order<S>(cs: Seq<AudioChunk<S>>)
    ensures
        spec_pop_all(spec_push_all(Seq::<AudioChunk<S>>::empty(), cs)) == cs,
{
    lemma_push_all_appends(Seq::<AudioChunk<S>>::empty(), cs);
    assert(Seq::<AudioChunk<S>>::empty() + cs =~= cs);
    lemma_pop_all_identity(cs);
}

} // verus!
