//! The bounded channel that carries mono samples from the capture stage to
//! the render stage.
//!
//! The samples lie in a ring buffer of the crate `ringbuf`. A sample travels
//! as the 32 bits of its value, which the channel never looks into.

use crate::fifo::{accepts, admitted, front, offered, taken};
use ringbuf::{Consumer, Producer, RingBuffer};
use vstd::prelude::*;

verus! {

/// `ringbuf::Producer`, the end of a ring buffer that pushes. Nothing of
/// its inside is known here.
#[verifier::external_type_specification]
#[verifier::external_body]
#[verifier::reject_recursive_types(T)]
pub struct ExProducer<T>(ringbuf::Producer<T>);

/// `ringbuf::Consumer`, the end of a ring buffer that pops. Nothing of its
/// inside is known here.
#[verifier::external_type_specification]
#[verifier::external_body]
#[verifier::reject_recursive_types(T)]
pub struct ExConsumer<T>(ringbuf::Consumer<T>);

/// The samples in the ring buffer behind the two ends, oldest first.
pub uninterp spec fn ring_samples(ends: (Producer<u32>, Consumer<u32>)) -> Seq<u32>;

/// The number of samples that the ring buffer behind the two ends was made
/// to hold.
pub uninterp spec fn ring_capacity(ends: (Producer<u32>, Consumer<u32>)) -> nat;

/// Whether the two ends belong to one ring buffer.
pub uninterp spec fn ring_joined(ends: (Producer<u32>, Consumer<u32>)) -> bool;

/// Whether a ring buffer for `capacity` samples can be asked for: the buffer
/// has one slot more than its capacity, of four bytes each, and no
/// allocation is larger than `isize::MAX` bytes.
pub open spec fn ring_fits(capacity: usize) -> bool {
    4 * (capacity + 1) <= isize::MAX
}

/// Calls `RingBuffer::<u32>::new` and `RingBuffer::split`: the two ends of a
/// new ring buffer, which is empty and holds up to `capacity` samples. That
/// the allocator has the memory for it is taken for granted.
#[verifier::external_body]
fn ring_open(capacity: usize) -> (ends: (Producer<u32>, Consumer<u32>))
    requires
        ring_fits(capacity),
    ensures
        ring_joined(ends),
        ring_capacity(ends) == capacity,
        ring_samples(ends) == Seq::<u32>::empty(),
{
    RingBuffer::<u32>::new(capacity).split()
}

/// Calls `Producer::push` on the first end. While both ends are held here
/// nothing else touches the buffer, so: a buffer with room takes the sample
/// behind those it holds and the call reports success; a full buffer stays
/// as it is and the call reports failure.
#[verifier::external_body]
fn ring_push(ends: &mut (Producer<u32>, Consumer<u32>), sample: u32) -> (accepted: bool)
    requires
        ring_joined(*old(ends)),
    ensures
        ring_joined(*final(ends)),
        ring_capacity(*final(ends)) == ring_capacity(*old(ends)),
        accepted == accepts(ring_samples(*old(ends)), ring_capacity(*old(ends))),
        ring_samples(*final(ends)) == offered(
            ring_samples(*old(ends)),
            ring_capacity(*old(ends)),
            sample,
        ),
{
    ends.0.push(sample).is_ok()
}

/// Calls `Consumer::pop` on the second end. While both ends are held here
/// nothing else touches the buffer, so: the call takes the oldest sample out
/// and returns it, or returns `None` and leaves the buffer empty as it was.
#[verifier::external_body]
fn ring_pop(ends: &mut (Producer<u32>, Consumer<u32>)) -> (sample: Option<u32>)
    requires
        ring_joined(*old(ends)),
    ensures
        ring_joined(*final(ends)),
        ring_capacity(*final(ends)) == ring_capacity(*old(ends)),
        sample == front(ring_samples(*old(ends))),
        ring_samples(*final(ends)) == taken(ring_samples(*old(ends))),
{
    ends.1.pop()
}

/// What the render stage plays when the channel has run empty.
pub const SILENCE: u32 = 0;

/// The `count` samples that the render stage plays next from `queue`: the
/// oldest samples of the queue, then silence where the queue has run empty.
pub open spec fn played(queue: Seq<u32>, count: nat) -> Seq<u32> {
    Seq::new(
        count,
        |i: int|
            if i < queue.len() {
                queue[i]
            } else {
                SILENCE
            },
    )
}

/// What is left of `queue` once `count` samples were asked of it.
pub open spec fn unplayed(queue: Seq<u32>, count: nat) -> Seq<u32> {
    if count < queue.len() {
        queue.skip(count as int)
    } else {
        Seq::empty()
    }
}

/// A queue of samples with a fixed capacity. Pushing never waits: a sample
/// that finds the queue full is dropped. Popping never waits either.
pub struct SampleChannel {
    /// Both ends of the ring buffer. The channel keeps them together, so
    /// that nothing else pushes or pops while it does.
    ends: (Producer<u32>, Consumer<u32>),
    /// The capacity that the ring buffer was made with.
    capacity: usize,
}

impl SampleChannel {
    /// The two ends belong to one ring buffer, which has the capacity that
    /// the channel was made with and holds no more than that.
    pub closed spec fn wf(&self) -> bool {
        &&& ring_joined(self.ends)
        &&& ring_capacity(self.ends) == self.capacity
        &&& ring_samples(self.ends).len() <= self.capacity
    }

    /// The samples in the channel, oldest first.
    pub closed spec fn view(&self) -> Seq<u32> {
        ring_samples(self.ends)
    }

    /// The number of samples that the channel holds at most.
    pub closed spec fn limit(&self) -> nat {
        self.capacity as nat
    }

    /// A well-formed channel holds no more than its capacity.
    pub proof fn lemma_bounded(&self)
        requires
            self.wf(),
        ensures
            self@.len() <= self.limit(),
    {
    }

    /// An empty channel for up to `capacity` samples.
    pub fn new(capacity: usize) -> (channel: Self)
        requires
            ring_fits(capacity),
        ensures
            channel.wf(),
            channel@ == Seq::<u32>::empty(),
            channel.limit() == capacity,
    {
        let ends = ring_open(capacity);
        SampleChannel { ends, capacity }
    }

    /// The number of samples that the channel holds at most.
    pub fn capacity(&self) -> (capacity: usize)
        ensures
            capacity == self.limit(),
    {
        self.capacity
    }

    /// Puts `sample` behind the samples in the channel and returns `true`, or
    /// drops it and returns `false` where the channel is full.
    pub fn push(&mut self, sample: u32) -> (accepted: bool)
        requires
            old(self).wf(),
        ensures
            final(self).wf(),
            final(self).limit() == old(self).limit(),
            accepted == accepts(old(self)@, old(self).limit()),
            final(self)@ == offered(old(self)@, old(self).limit(), sample),
    {
        ring_push(&mut self.ends, sample)
    }

    /// Takes the oldest sample out of the channel and returns it. An empty
    /// channel gives `None` and stays empty.
    pub fn pop(&mut self) -> (sample: Option<u32>)
        requires
            old(self).wf(),
        ensures
            final(self).wf(),
            final(self).limit() == old(self).limit(),
            sample == front(old(self)@),
            final(self)@ == taken(old(self)@),
    {
        ring_pop(&mut self.ends)
    }

    /// The next sample for the render stage: the oldest in the channel, or
    /// `SILENCE` where the channel is empty.
    pub fn pop_or_silence(&mut self) -> (sample: u32)
        requires
            old(self).wf(),
        ensures
            final(self).wf(),
            final(self).limit() == old(self).limit(),
            sample == match front(old(self)@) {
                Some(oldest) => oldest,
                None => SILENCE,
            },
            final(self)@ == taken(old(self)@),
    {
        match self.pop() {
            Some(oldest) => oldest,
            None => SILENCE,
        }
    }

    /// The next `count` samples for the render stage, oldest first, with
    /// `SILENCE` in place of each sample that the channel does not hold.
    pub fn pop_block(&mut self, count: usize) -> (samples: Vec<u32>)
        requires
            old(self).wf(),
        ensures
            final(self).wf(),
            final(self).limit() == old(self).limit(),
            samples@ == played(old(self)@, count as nat),
            final(self)@ == unplayed(old(self)@, count as nat),
    {
        let mut samples: Vec<u32> = Vec::new();
        let mut done: usize = 0;
        assert(self@ =~= unplayed(old(self)@, 0)) by {
        }
        while done < count
            invariant
                self.wf(),
                self.limit() == old(self).limit(),
                done <= count,
                samples@ == played(old(self)@, done as nat),
                self@ == unplayed(old(self)@, done as nat),
            decreases count - done,
        {
            let sample = self.pop_or_silence();
            samples.push(sample);
            done += 1;
        }
        samples
    }

    /// Pushes the samples of one captured block, in order, and stops at the
    /// first that the channel drops: the rest of the block is dropped with
    /// it. Returns how many samples went in.
    pub fn push_block(&mut self, samples: &[u32]) -> (count: usize)
        requires
            old(self).wf(),
        ensures
            final(self).wf(),
            final(self).limit() == old(self).limit(),
            count == admitted(old(self)@, old(self).limit(), samples@.len()),
            final(self)@ == old(self)@ + samples@.take(count as int),
    {
        let mut count: usize = 0;
        while count < samples.len()
            invariant
                self.wf(),
                self.limit() == old(self).limit(),
                count <= samples@.len(),
                self@ == old(self)@ + samples@.take(count as int),
                count == admitted(old(self)@, old(self).limit(), count as nat),
            ensures
                self.wf(),
                self.limit() == old(self).limit(),
                count == admitted(old(self)@, old(self).limit(), samples@.len()),
                self@ == old(self)@ + samples@.take(count as int),
            decreases samples@.len() - count,
        {
            let sample = samples[count];
            if !self.push(sample) {
                break;
            }
            count += 1;
        }
        count
    }
}

} // verus!
