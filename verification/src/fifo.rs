//! The bounded first-in, first-out queue that the sample channel behaves as,
//! and what holds of every run of pushes and pops on it.

use vstd::prelude::*;

verus! {

/// Whether a queue that holds at most `capacity` samples takes one more.
pub open spec fn accepts(queue: Seq<u32>, capacity: nat) -> bool {
    queue.len() < capacity
}

/// The queue after `sample` was offered to it: a full queue drops the sample.
pub open spec fn offered(queue: Seq<u32>, capacity: nat, sample: u32) -> Seq<u32> {
    if accepts(queue, capacity) {
        queue.push(sample)
    } else {
        queue
    }
}

/// The oldest sample in the queue.
pub open spec fn front(queue: Seq<u32>) -> Option<u32> {
    if queue.len() > 0 {
        Some(queue[0])
    } else {
        None
    }
}

/// The queue after its oldest sample was taken out.
pub open spec fn taken(queue: Seq<u32>) -> Seq<u32> {
    if queue.len() > 0 {
        queue.drop_first()
    } else {
        queue
    }
}

/// How many of `count` samples offered in a row a queue accepts: as many as
/// it has room for.
pub open spec fn admitted(queue: Seq<u32>, capacity: nat, count: nat) -> nat {
    if queue.len() >= capacity {
        0
    } else if count <= capacity - queue.len() {
        count
    } else {
        (capacity - queue.len()) as nat
    }
}

/// One call on a channel.
pub enum Event {
    /// A push of the given sample.
    Push(u32),
    /// A pop.
    Pop,
}

/// What a run of calls has led to.
pub struct Outcome {
    /// The samples in the queue, oldest first.
    pub queue: Seq<u32>,
    /// The samples whose push reported success, in the order of the pushes.
    pub accepted: Seq<u32>,
    /// The samples that pops returned, in the order of the pops.
    pub delivered: Seq<u32>,
    /// The number of pushes that reported failure.
    pub refused: nat,
}

/// The outcome of making the calls `events`, in order, on a new channel for
/// `capacity` samples.
pub open spec fn replay(capacity: nat, events: Seq<Event>) -> Outcome
    decreases events.len(),
{
    if events.len() == 0 {
        Outcome { queue: Seq::empty(), accepted: Seq::empty(), delivered: Seq::empty(), refused: 0 }
    } else {
        let before = replay(capacity, events.drop_last());
        match events.last() {
            Event::Push(sample) => {
                if accepts(before.queue, capacity) {
                    Outcome {
                        queue: offered(before.queue, capacity, sample),
                        accepted: before.accepted.push(sample),
                        ..before
                    }
                } else {
                    Outcome { refused: before.refused + 1, ..before }
                }
            },
            Event::Pop => {
                match front(before.queue) {
                    Some(sample) => Outcome {
                        queue: taken(before.queue),
                        delivered: before.delivered.push(sample),
                        ..before
                    },
                    None => before,
                }
            },
        }
    }
}

/// A push of each of `samples`, in order.
pub open spec fn pushes(samples: Seq<u32>) -> Seq<Event> {
    samples.map_values(|sample: u32| Event::Push(sample))
}

/// After any run of calls, the samples that were popped, followed by those
/// still in the queue, are the samples that were accepted, in the order in
/// which they were pushed; and the queue holds no more than its capacity.
pub proof fn law_first_in_first_out(capacity: nat, events: Seq<Event>)
    ensures
        replay(capacity, events).delivered + replay(capacity, events).queue == replay(
            capacity,
            events,
        ).accepted,
        replay(capacity, events).queue.len() <= capacity,
    decreases events.len(),
{
    if events.len() > 0 {
        law_first_in_first_out(capacity, events.drop_last());
    }
}

/// No pop returns a sample that was never pushed: every sample that a pop
/// returned is the sample of a push among the calls.
pub proof fn law_nothing_spurious(capacity: nat, events: Seq<Event>, i: int)
    requires
        0 <= i < replay(capacity, events).delivered.len(),
    ensures
        events.contains(Event::Push(replay(capacity, events).delivered[i])),
{
    law_first_in_first_out(capacity, events);
    let after = replay(capacity, events);
    assert(after.accepted[i] == after.delivered[i]);
    lemma_accepted_was_pushed(capacity, events, i);
}

/// Every accepted sample is the sample of a push among the calls.
proof fn lemma_accepted_was_pushed(capacity: nat, events: Seq<Event>, i: int)
    requires
        0 <= i < replay(capacity, events).accepted.len(),
    ensures
        events.contains(Event::Push(replay(capacity, events).accepted[i])),
    decreases events.len(),
{
    if events.len() > 0 {
        let earlier = events.drop_last();
        if i < replay(capacity, earlier).accepted.len() {
            lemma_accepted_was_pushed(capacity, earlier, i);
        }
    }
}

/// Pushing `samples` in a row, with no pop in between, after any run of
/// calls: the queue accepts as many of them as it has room for, the first
/// ones, and every other push reports failure.
pub proof fn law_pushes_fill_the_room(capacity: nat, earlier: Seq<Event>, samples: Seq<u32>)
    ensures
        ({
            let before = replay(capacity, earlier);
            let after = replay(capacity, earlier + pushes(samples));
            let count = admitted(before.queue, capacity, samples.len());
            &&& after.queue == before.queue + samples.take(count as int)
            &&& after.accepted == before.accepted + samples.take(count as int)
            &&& after.delivered == before.delivered
            &&& after.refused == before.refused + samples.len() - count
        }),
    decreases samples.len(),
{
    let events = earlier + pushes(samples);
    law_first_in_first_out(capacity, earlier);
    if samples.len() > 0 {
        let fewer = samples.drop_last();
        law_pushes_fill_the_room(capacity, earlier, fewer);
        assert(events.drop_last() =~= earlier + pushes(fewer));
    }
}

/// Of more pushes in a row than the channel has capacity, with no pop in
/// between, at least one reports failure.
pub proof fn law_overflow_is_reported(capacity: nat, earlier: Seq<Event>, samples: Seq<u32>)
    requires
        samples.len() > capacity,
    ensures
        replay(capacity, earlier + pushes(samples)).refused > replay(capacity, earlier).refused,
{
    law_pushes_fill_the_room(capacity, earlier, samples);
}

} // verus!
