//! Fixed-capacity sample queue between the audio callbacks.
//!
//! The queue itself is a `ringbuf::HeapRb<u32>`. Its behaviour is taken on
//! trust from that crate; what the pipeline does with it is proved here:
//! a push never blocks and keeps the newest samples, a pop always fills the
//! whole block and pads with silence when the queue runs dry.

use crate::sample::silence;
use crate::sample::silence_block;
use crate::sample::Sample;
use crate::sample::SILENCE;
use ringbuf::traits::Consumer;
use ringbuf::traits::Observer;
use ringbuf::traits::RingBuffer;
use vstd::prelude::*;

verus! {

/// Capacity of the queues of a streaming session, in samples.
pub const RING_CAPACITY: usize = 4096;

/// A heap-allocated ring buffer of samples (`ringbuf::HeapRb<u32>`), owned
/// by one thread at a time.
#[verifier::external_body]
pub struct SampleQueue {
    rb: ringbuf::HeapRb<u32>,
}

/// The samples that a queue holds, oldest first.
pub uninterp spec fn queue_items(q: SampleQueue) -> Seq<Sample>;

/// The number of samples that a queue was made for.
pub uninterp spec fn queue_capacity(q: SampleQueue) -> nat;

/// The last `capacity` items of `items`, or all of them if there are fewer.
pub open spec fn keep_newest(items: Seq<Sample>, capacity: nat) -> Seq<Sample> {
    if items.len() <= capacity {
        items
    } else {
        items.subrange(items.len() - capacity, items.len() as int)
    }
}

/// Calls `HeapRb::new`: claims that the new buffer is empty and has the
/// capacity asked for. The call panics for capacity zero and when the
/// allocation size overflows; both are left out.
#[verifier::external_body]
fn queue_new(capacity: usize) -> (q: SampleQueue)
    requires
        0 < capacity,
        capacity * 4 <= isize::MAX,
    ensures
        queue_items(q) == Seq::<Sample>::empty(),
        queue_capacity(q) == capacity,
{
    SampleQueue { rb: ringbuf::HeapRb::new(capacity) }
}

/// Calls `Observer::occupied_len`: claims that it is the number of items held.
#[verifier::external_body]
fn queue_len(q: &SampleQueue) -> (n: usize)
    ensures
        n == queue_items(*q).len(),
{
    q.rb.occupied_len()
}

/// Calls `Observer::capacity`: claims that it is the capacity the buffer was
/// made with.
#[verifier::external_body]
fn queue_cap(q: &SampleQueue) -> (n: usize)
    ensures
        n == queue_capacity(*q),
{
    q.rb.capacity().get()
}

/// Calls `RingBuffer::push_slice_overwrite`: claims that the items are
/// appended in order and that, where the buffer overflows, the oldest items
/// leave, so that the newest `capacity` items of old and new together stay.
#[verifier::external_body]
fn queue_push_slice_overwrite(q: &mut SampleQueue, elems: &[Sample])
    ensures
        queue_capacity(*final(q)) == queue_capacity(*old(q)),
        queue_items(*final(q)) == keep_newest(
            queue_items(*old(q)) + elems@,
            queue_capacity(*old(q)),
        ),
{
    q.rb.push_slice_overwrite(elems)
}

/// Calls `Consumer::pop_slice`: claims that it moves the oldest items, as
/// many as the queue holds and `out` has room for, to the front of `out` in
/// order, leaves the rest of `out` as it was, and returns their number.
#[verifier::external_body]
fn queue_pop_slice(q: &mut SampleQueue, out: &mut Vec<Sample>) -> (count: usize)
    ensures
        count == if old(out)@.len() <= queue_items(*old(q)).len() {
            old(out)@.len()
        } else {
            queue_items(*old(q)).len()
        },
        queue_capacity(*final(q)) == queue_capacity(*old(q)),
        queue_items(*final(q)) == queue_items(*old(q)).skip(count as int),
        final(out)@ == queue_items(*old(q)).take(count as int) + old(out)@.skip(count as int),
{
    q.rb.pop_slice(out.as_mut_slice())
}

/// What a block of `n` samples holds after it was drawn from a queue holding
/// `items`: the oldest items first, then silence.
pub open spec fn drained_block(items: Seq<Sample>, n: nat) -> Seq<Sample> {
    Seq::new(
        n,
        |i: int|
            if i < items.len() {
                items[i]
            } else {
                SILENCE
            },
    )
}

/// What a queue holding `items` still holds after a block of `n` samples was
/// drawn from it.
pub open spec fn drained_rest(items: Seq<Sample>, n: nat) -> Seq<Sample> {
    if n <= items.len() {
        items.skip(n as int)
    } else {
        Seq::empty()
    }
}

/// The sample queue between the input callback and one output callback.
pub struct AudioRing {
    queue: SampleQueue,
}

impl View for AudioRing {
    type V = Seq<Sample>;

    closed spec fn view(&self) -> Seq<Sample> {
        queue_items(self.queue)
    }
}

impl AudioRing {
    /// The number of samples that the queue can hold.
    pub closed spec fn spec_capacity(&self) -> nat {
        queue_capacity(self.queue)
    }

    /// A queue never holds more than its capacity.
    pub open spec fn wf(&self) -> bool {
        self@.len() <= self.spec_capacity()
    }

    /// An empty queue for `capacity` samples.
    pub fn new(capacity: usize) -> (ring: AudioRing)
        requires
            0 < capacity,
            capacity * 4 <= isize::MAX,
        ensures
            ring.wf(),
            ring@ == Seq::<Sample>::empty(),
            ring.spec_capacity() == capacity,
    {
        AudioRing { queue: queue_new(capacity) }
    }

    /// An empty queue of the capacity that a streaming session uses.
    pub fn for_session() -> (ring: AudioRing)
        ensures
            ring.wf(),
            ring@ == Seq::<Sample>::empty(),
            ring.spec_capacity() == RING_CAPACITY,
    {
        AudioRing::new(RING_CAPACITY)
    }

    /// The number of samples waiting in the queue.
    pub fn len(&self) -> (n: usize)
        ensures
            n == self@.len(),
    {
        queue_len(&self.queue)
    }

    /// Whether no sample is waiting.
    pub fn is_empty(&self) -> (b: bool)
        ensures
            b == (self@.len() == 0),
    {
        queue_len(&self.queue) == 0
    }

    /// The number of samples that the queue can hold.
    pub fn capacity(&self) -> (n: usize)
        ensures
            n == self.spec_capacity(),
    {
        queue_cap(&self.queue)
    }

    /// Appends a block. The producer is never held up: where the block does
    /// not fit, the oldest samples are dropped to make room.
    pub fn push(&mut self, block: &[Sample])
        ensures
            final(self).wf(),
            final(self).spec_capacity() == old(self).spec_capacity(),
            final(self)@ == keep_newest(old(self)@ + block@, old(self).spec_capacity()),
    {
        queue_push_slice_overwrite(&mut self.queue, block);
    }

    /// Draws a block of exactly `n` samples: the oldest waiting samples, and
    /// silence for every sample that the queue cannot supply.
    pub fn pop_or_silence(&mut self, n: usize) -> (block: Vec<Sample>)
        ensures
            old(self).wf() ==> final(self).wf(),
            final(self).spec_capacity() == old(self).spec_capacity(),
            block@ == drained_block(old(self)@, n as nat),
            final(self)@ == drained_rest(old(self)@, n as nat),
    {
        let mut block = silence_block(n);
        queue_pop_slice(&mut self.queue, &mut block);
        block
    }
}

/// A block drawn from an empty queue is silence: an underrun is heard as
/// silence and is no failure.
pub proof fn lemma_underrun_is_silence(n: nat)
    ensures
        drained_block(Seq::<Sample>::empty(), n) == silence(n),
        drained_rest(Seq::<Sample>::empty(), n) == Seq::<Sample>::empty(),
{
}

/// Drawing a block never loses or reorders samples: the drawn samples that
/// came from the queue, followed by what stays in it, are what it held.
pub proof fn lemma_drain_keeps_order(items: Seq<Sample>, n: nat)
    ensures
        n <= items.len() ==> drained_block(items, n) + drained_rest(items, n) == items,
        n >= items.len() ==> drained_block(items, n) == items + silence((n - items.len()) as nat),
{
    if n <= items.len() {
    }
    if n >= items.len() {
    }
}

/// A push into a queue with enough room loses nothing.
pub proof fn lemma_push_with_room(items: Seq<Sample>, block: Seq<Sample>, capacity: nat)
    requires
        items.len() + block.len() <= capacity,
    ensures
        keep_newest(items + block, capacity) == items + block,
{
}

/// After a push that overflows, the queue is full and ends with the newest
/// samples of the block.
pub proof fn lemma_push_overflow(items: Seq<Sample>, block: Seq<Sample>, capacity: nat)
    requires
        items.len() + block.len() > capacity,
    ensures
        keep_newest(items + block, capacity).len() == capacity,
        forall|i: int|
            0 <= i < capacity ==> #[trigger] keep_newest(items + block, capacity)[i] == (items
                + block)[items.len() + block.len() - capacity + i],
{
}

} // verus!
