//! The candidate buffer: a bounded pool of precomputed duels.
//!
//! Producers offer duels with `try_push`, consumers take them with `try_pop`;
//! neither ever waits. A duel offered to a full buffer is dropped, which only
//! costs the work of computing it again.
//!
//! Every operation is one indivisible step on the buffer. Callers that share
//! a buffer between tasks give each step exclusive access, for instance with
//! a lock held for the length of the call.

use vstd::prelude::*;
use crossbeam::queue::ArrayQueue;
use crate::duel::Duel;
use crate::queue::{
    queue_capacity, queue_contents, queue_len, queue_limit, queue_new, queue_pop, queue_push,
    MAX_CAPACITY,
};

verus! {

/// What a buffer of the given capacity holds after `duel` is offered to it.
pub open spec fn after_push(held: Seq<Duel>, capacity: nat, duel: Duel) -> Seq<Duel> {
    if held.len() < capacity {
        held.push(duel)
    } else {
        held
    }
}

/// What a buffer holds after one duel is taken from it.
pub open spec fn after_pop(held: Seq<Duel>) -> Seq<Duel> {
    if held.len() > 0 {
        held.drop_first()
    } else {
        held
    }
}

/// How many of `offered` duels fit into a buffer that already holds `held`.
pub open spec fn room_for(held: nat, capacity: nat, offered: nat) -> nat {
    if held >= capacity {
        0
    } else if offered <= capacity - held {
        offered
    } else {
        (capacity - held) as nat
    }
}

/// One call on a buffer, as far as it matters for what the buffer holds.
pub enum BufferCall {
    /// `try_push` with the given duel.
    Push(Duel),
    /// `try_pop`.
    Pop,
}

/// What a buffer holds after the given calls, made in order.
pub open spec fn after_calls(held: Seq<Duel>, capacity: nat, calls: Seq<BufferCall>) -> Seq<Duel>
    decreases calls.len(),
{
    if calls.len() == 0 {
        held
    } else {
        let before = after_calls(held, capacity, calls.drop_last());
        match calls.last() {
            BufferCall::Push(duel) => after_push(before, capacity, duel),
            BufferCall::Pop => after_pop(before),
        }
    }
}

proof fn lemma_after_calls_bounded(held: Seq<Duel>, capacity: nat, calls: Seq<BufferCall>)
    requires
        held.len() <= capacity,
    ensures
        after_calls(held, capacity, calls).len() <= capacity,
    decreases calls.len(),
{
    if calls.len() > 0 {
        lemma_after_calls_bounded(held, capacity, calls.drop_last());
    }
}

/// No sequence of pushes and pops drives the occupancy above the capacity:
/// a buffer that starts within its capacity is within it after every call.
pub proof fn lemma_occupancy_never_exceeds_capacity(
    held: Seq<Duel>,
    capacity: nat,
    calls: Seq<BufferCall>,
)
    requires
        held.len() <= capacity,
    ensures
        forall|n: int|
            0 <= n <= calls.len() ==> (#[trigger] after_calls(
                held,
                capacity,
                calls.take(n),
            )).len() <= capacity,
{
    assert forall|n: int| 0 <= n <= calls.len() implies (#[trigger] after_calls(
        held,
        capacity,
        calls.take(n),
    )).len() <= capacity by {
        lemma_after_calls_bounded(held, capacity, calls.take(n));
    }
}

/// A bounded buffer of duels, served oldest first.
pub struct CandidateBuffer {
    queue: ArrayQueue<Duel>,
}

impl View for CandidateBuffer {
    type V = Seq<Duel>;

    /// The buffered duels, oldest first.
    closed spec fn view(&self) -> Seq<Duel> {
        queue_contents(self.queue)
    }
}

impl CandidateBuffer {
    #[verifier::type_invariant]
    spec fn within_capacity(self) -> bool {
        &&& 0 < queue_limit(self.queue) <= MAX_CAPACITY
        &&& queue_contents(self.queue).len() <= queue_limit(self.queue)
    }

    /// The fixed number of duels the buffer can hold.
    pub closed spec fn limit(&self) -> nat {
        queue_limit(self.queue)
    }

    /// An empty buffer with room for `capacity` duels.
    pub fn new(capacity: usize) -> (buffer: CandidateBuffer)
        requires
            0 < capacity <= MAX_CAPACITY,
        ensures
            buffer@ == Seq::<Duel>::empty(),
            buffer.limit() == capacity,
    {
        CandidateBuffer { queue: queue_new(capacity) }
    }

    /// Offers a duel. It is appended when there is room and dropped when the
    /// buffer is full; the result says which.
    pub fn try_push(&mut self, duel: Duel) -> (accepted: bool)
        ensures
            final(self).limit() == old(self).limit(),
            accepted == (old(self)@.len() < old(self).limit()),
            final(self)@ == after_push(old(self)@, old(self).limit(), duel),
            final(self)@.len() <= final(self).limit(),
    {
        proof {
            use_type_invariant(&*self);
        }
        match queue_push(&mut self.queue, duel) {
            Ok(()) => true,
            Err(_) => false,
        }
    }

    /// Takes the oldest duel, or nothing when the buffer is empty.
    pub fn try_pop(&mut self) -> (duel: Option<Duel>)
        ensures
            final(self).limit() == old(self).limit(),
            duel is Some <==> old(self)@.len() > 0,
            duel matches Some(d) ==> d == old(self)@.first(),
            final(self)@ == after_pop(old(self)@),
            final(self)@.len() <= final(self).limit(),
    {
        proof {
            use_type_invariant(&*self);
        }
        queue_pop(&mut self.queue)
    }

    /// Offers every duel of a batch in order and returns how many were
    /// accepted. Once the buffer is full the rest of the batch is dropped.
    pub fn fill(&mut self, duels: Vec<Duel>) -> (accepted: usize)
        ensures
            final(self).limit() == old(self).limit(),
            accepted == room_for(old(self)@.len(), old(self).limit(), duels@.len()),
            final(self)@ == old(self)@ + duels@.take(accepted as int),
            final(self)@.len() <= final(self).limit(),
    {
        proof {
            use_type_invariant(&*self);
        }
        let ghost offered = duels@;
        let ghost start = self@;
        let ghost capacity = self.limit();
        let mut accepted: usize = 0;
        for duel in it: duels
            invariant
                it.seq() == offered,
                self.limit() == capacity,
                start.len() <= capacity <= MAX_CAPACITY,
                accepted == room_for(start.len(), capacity, it.index() as nat),
                self@ == start + offered.take(accepted as int),
        {
            if self.try_push(duel) {
                accepted = accepted + 1;
            }
        }
        accepted
    }

    /// The number of duels currently buffered; never more than the capacity.
    pub fn occupancy(&self) -> (n: usize)
        ensures
            n == self@.len(),
            n <= self.limit(),
    {
        proof {
            use_type_invariant(self);
        }
        queue_len(&self.queue)
    }

    /// The number of duels the buffer can hold; fixed at construction and at
    /// least one.
    pub fn capacity(&self) -> (c: usize)
        ensures
            c == self.limit(),
            0 < c <= MAX_CAPACITY,
    {
        proof {
            use_type_invariant(self);
        }
        queue_capacity(&self.queue)
    }
}

} // verus!
