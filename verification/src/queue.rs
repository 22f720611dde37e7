//! The bounded queue behind the candidate buffer.
//!
//! The queue itself comes from `crossbeam` and is not verified here. This
//! module states what the crate assumes of it; everything else in the crate
//! is proved from these statements.
//!
//! The statements speak of what the queue holds, so they are made for a
//! caller that holds the queue exclusively: pushing and popping go through
//! `&mut`, and the only owner of a queue is a `CandidateBuffer`, which never
//! hands out a reference to it.

use vstd::prelude::*;
use crossbeam::queue::ArrayQueue;
use crate::duel::Duel;

verus! {

/// `crossbeam::queue::ArrayQueue`, carried as an opaque value.
#[verifier::external_type_specification]
#[verifier::external_body]
#[verifier::reject_recursive_types(T)]
pub struct ExArrayQueue<T>(ArrayQueue<T>);

/// Largest capacity a queue is built with. `ArrayQueue::new` allocates one
/// slot per duel up front and panics when the slots exceed the largest
/// allocation; this bound keeps them below it on 32-bit and 64-bit targets.
pub const MAX_CAPACITY: usize = 0x0100_0000;

/// The duels a queue holds, oldest first.
pub uninterp spec fn queue_contents(q: ArrayQueue<Duel>) -> Seq<Duel>;

/// The number of duels a queue was built to hold.
pub uninterp spec fn queue_limit(q: ArrayQueue<Duel>) -> nat;

/// `ArrayQueue::new`: assumed to return an empty queue with room for exactly
/// `capacity` duels. The outside function panics on a capacity of zero and on
/// one too large to allocate, so both are excluded.
#[verifier::external_body]
pub(crate) fn queue_new(capacity: usize) -> (q: ArrayQueue<Duel>)
    requires
        0 < capacity <= MAX_CAPACITY,
    ensures
        queue_contents(q) == Seq::<Duel>::empty(),
        queue_limit(q) == capacity,
{
    ArrayQueue::new(capacity)
}

/// `ArrayQueue::push_mut`: assumed to append the duel behind the ones already
/// held when there is room, and to hand it back untouched, leaving the queue
/// as it was, when the queue is full. Also assumed: it never panics.
#[verifier::external_body]
pub(crate) fn queue_push(q: &mut ArrayQueue<Duel>, duel: Duel) -> (r: Result<(), Duel>)
    ensures
        queue_limit(*final(q)) == queue_limit(*old(q)),
        queue_contents(*old(q)).len() < queue_limit(*old(q)) ==> r is Ok
            && queue_contents(*final(q)) == queue_contents(*old(q)).push(duel),
        queue_contents(*old(q)).len() >= queue_limit(*old(q)) ==> r is Err && r->Err_0 == duel
            && queue_contents(*final(q)) == queue_contents(*old(q)),
    no_unwind
{
    q.push_mut(duel)
}

/// `ArrayQueue::pop_mut`: assumed to remove and return the oldest duel, and
/// to return `None`, leaving the queue as it was, when it holds none. Also
/// assumed: it never panics.
#[verifier::external_body]
pub(crate) fn queue_pop(q: &mut ArrayQueue<Duel>) -> (r: Option<Duel>)
    ensures
        queue_limit(*final(q)) == queue_limit(*old(q)),
        queue_contents(*old(q)).len() == 0 ==> r is None
            && queue_contents(*final(q)) == queue_contents(*old(q)),
        queue_contents(*old(q)).len() > 0 ==> r == Some(queue_contents(*old(q)).first())
            && queue_contents(*final(q)) == queue_contents(*old(q)).drop_first(),
    no_unwind
{
    q.pop_mut()
}

/// `ArrayQueue::len`: assumed to return the number of duels held.
#[verifier::external_body]
pub(crate) fn queue_len(q: &ArrayQueue<Duel>) -> (n: usize)
    ensures
        n == queue_contents(*q).len(),
{
    q.len()
}

/// `ArrayQueue::capacity`: assumed to return the capacity the queue was built
/// with.
#[verifier::external_body]
pub(crate) fn queue_capacity(q: &ArrayQueue<Duel>) -> (n: usize)
    ensures
        n == queue_limit(*q),
{
    q.capacity()
}

} // verus!
