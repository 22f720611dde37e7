//! The collection: the candidate buffer and its refresh coordinator, composed
//! into the decisions behind "give me a duel" and "record this outcome".
//!
//! The collection never touches the rating store. Where a decision needs
//! duels from the store, it says how many; the caller computes them with the
//! matchmaker and hands them back.

use vstd::prelude::*;
use crate::buffer::{after_pop, room_for, CandidateBuffer};
use crate::coordinator::RefreshCoordinator;
use crate::duel::{Duel, ImageCollectionOptions};
use crate::error::CollectionError;
use crate::queue::MAX_CAPACITY;
use crate::simulation::{ascending, shuffled_ranks};

verus! {

/// The size of the batch computed on the spot when the buffer runs dry.
pub const FALLBACK_BATCH: usize = 3;

/// The buffer capacity of a collection made for experiments.
pub const PRE_CONFIGURED_BUFFER: usize = 20;

/// The capacity of the buffer for a configured size and a population: the
/// configured size, clamped to the number of players, and at least one.
pub open spec fn capacity_for(configured: nat, player_count: nat) -> nat {
    let population = if player_count == 0 {
        1
    } else {
        player_count
    };
    let clamped = if configured <= population {
        configured
    } else {
        population
    };
    if clamped == 0 {
        1
    } else {
        clamped
    }
}

/// Whether the occupancy is below the low-water mark of half the capacity.
pub open spec fn runs_low(occupancy: nat, capacity: nat) -> bool {
    occupancy < capacity / 2
}

/// What `new_duel` found.
#[derive(Debug, Clone, PartialEq, Eq)]
pub enum NextDuel {
    /// A buffered duel, now taken from the buffer.
    Ready(Duel),
    /// The buffer is empty: a batch of this size has to be computed and its
    /// first duel served.
    Compute(usize),
}

/// A buffer of precomputed duels with its refill guard.
pub struct ImageCollection {
    candidates: CandidateBuffer,
    refresh: RefreshCoordinator,
}

/// The capacity of the buffer for a configured size and a population.
pub fn buffer_capacity(configured: usize, player_count: usize) -> (capacity: usize)
    ensures
        capacity == capacity_for(configured as nat, player_count as nat),
        capacity >= 1,
{
    let population = if player_count == 0 {
        1
    } else {
        player_count
    };
    let clamped = if configured <= population {
        configured
    } else {
        population
    };
    if clamped == 0 {
        1
    } else {
        clamped
    }
}

impl ImageCollection {
    /// The buffered duels, oldest first.
    pub closed spec fn buffered(&self) -> Seq<Duel> {
        self.candidates@
    }

    /// The capacity of the buffer.
    pub closed spec fn limit(&self) -> nat {
        self.candidates.limit()
    }

    /// Whether a refill is in flight.
    pub closed spec fn refilling(&self) -> bool {
        self.refresh.held()
    }

    /// A collection with an empty buffer sized for the options and the
    /// population, and no refill in flight.
    pub fn new(options: &ImageCollectionOptions, player_count: usize) -> (collection:
        ImageCollection)
        requires
            capacity_for(options.candidate_buffer as nat, player_count as nat) <= MAX_CAPACITY,
        ensures
            collection.buffered() == Seq::<Duel>::empty(),
            collection.limit() == capacity_for(
                options.candidate_buffer as nat,
                player_count as nat,
            ),
            !collection.refilling(),
    {
        let capacity = buffer_capacity(options.candidate_buffer, player_count);
        ImageCollection {
            candidates: CandidateBuffer::new(capacity),
            refresh: RefreshCoordinator::new(),
        }
    }

    /// A collection for experiments, with the names of its synthetic
    /// population: every rank below `num` once, in random order.
    pub fn new_pre_configured(num: u32) -> (made: (ImageCollection, Vec<u32>))
        ensures
            made.0.buffered() == Seq::<Duel>::empty(),
            made.0.limit() == PRE_CONFIGURED_BUFFER,
            !made.0.refilling(),
            made.1@.len() == num,
            made.1@.to_multiset() == ascending(num as nat).to_multiset(),
    {
        let collection = ImageCollection {
            candidates: CandidateBuffer::new(PRE_CONFIGURED_BUFFER),
            refresh: RefreshCoordinator::new(),
        };
        (collection, shuffled_ranks(num))
    }

    /// The capacity of the buffer.
    pub fn capacity(&self) -> (capacity: usize)
        ensures
            capacity == self.limit(),
            0 < capacity <= MAX_CAPACITY,
    {
        self.candidates.capacity()
    }

    /// The number of buffered duels; never more than the capacity.
    pub fn occupancy(&self) -> (occupancy: usize)
        ensures
            occupancy == self.buffered().len(),
            occupancy <= self.limit(),
    {
        self.candidates.occupancy()
    }

    /// Whether a refill is in flight.
    pub fn is_refilling(&self) -> (refilling: bool)
        ensures
            refilling == self.refilling(),
    {
        self.refresh.is_held()
    }

    /// Puts a first batch into the buffer, as far as it fits, and returns how
    /// many duels were accepted.
    pub fn preload(&mut self, duels: Vec<Duel>) -> (accepted: usize)
        ensures
            final(self).limit() == old(self).limit(),
            final(self).refilling() == old(self).refilling(),
            accepted == room_for(old(self).buffered().len(), old(self).limit(), duels@.len()),
            final(self).buffered() == old(self).buffered() + duels@.take(accepted as int),
            final(self).buffered().len() <= final(self).limit(),
    {
        self.candidates.fill(duels)
    }

    /// Serves the oldest buffered duel. When the buffer is empty it asks for
    /// a small batch instead; the refill guard is not involved either way.
    pub fn new_duel(&mut self) -> (next: NextDuel)
        ensures
            final(self).limit() == old(self).limit(),
            final(self).refilling() == old(self).refilling(),
            final(self).buffered() == after_pop(old(self).buffered()),
            match next {
                NextDuel::Ready(duel) => old(self).buffered().len() > 0 && duel == old(
                    self,
                ).buffered().first(),
                NextDuel::Compute(size) => old(self).buffered().len() == 0 && size
                    == FALLBACK_BATCH,
            },
    {
        match self.candidates.try_pop() {
            Some(duel) => NextDuel::Ready(duel),
            None => NextDuel::Compute(FALLBACK_BATCH),
        }
    }

    /// Serves the first duel of a batch that was computed because the buffer
    /// was empty. A failure of the computation is passed on; an empty batch
    /// means that there was nobody to pair.
    pub fn fallback_duel(batch: Result<Vec<Duel>, CollectionError>) -> (served: Result<
        Duel,
        CollectionError,
    >)
        ensures
            match batch {
                Err(e) => served == Err::<Duel, CollectionError>(e),
                Ok(duels) => if duels@.len() == 0 {
                    served == Err::<Duel, CollectionError>(CollectionError::InsufficientPopulation)
                } else {
                    served == Ok::<Duel, CollectionError>(duels@[0])
                },
            },
    {
        match batch {
            Err(e) => Err(e),
            Ok(duels) => {
                let mut duels = duels;
                if duels.len() == 0 {
                    Err(CollectionError::InsufficientPopulation)
                } else {
                    Ok(duels.remove(0))
                }
            },
        }
    }

    /// The check made after every recorded match. When the buffer runs low
    /// the caller tries for the refill guard; if it wins, the result is the
    /// size of the batch it now has to compute and hand to `finish_refill`.
    /// A buffer that does not run low leaves the guard alone.
    pub fn begin_refill(&mut self) -> (batch_size: Option<usize>)
        ensures
            final(self).limit() == old(self).limit(),
            final(self).buffered() == old(self).buffered(),
            batch_size is Some <==> runs_low(old(self).buffered().len(), old(self).limit()) && !old(
                self,
            ).refilling(),
            batch_size matches Some(size) ==> size == old(self).limit(),
            final(self).refilling() == (old(self).refilling() || runs_low(
                old(self).buffered().len(),
                old(self).limit(),
            )),
    {
        let capacity = self.candidates.capacity();
        if self.candidates.occupancy() < capacity / 2 {
            if self.refresh.try_acquire() {
                Some(capacity)
            } else {
                None
            }
        } else {
            None
        }
    }

    /// Ends the refill that `begin_refill` granted: the duels of the batch
    /// are offered in order, those that no longer fit are dropped, and the
    /// guard is released. A batch that could not be computed adds nothing.
    /// Returns the number of duels accepted.
    pub fn finish_refill(&mut self, batch: Result<Vec<Duel>, CollectionError>) -> (accepted: usize)
        ensures
            final(self).limit() == old(self).limit(),
            !final(self).refilling(),
            final(self).buffered().len() <= final(self).limit(),
            match batch {
                Ok(duels) => accepted == room_for(
                    old(self).buffered().len(),
                    old(self).limit(),
                    duels@.len(),
                ) && final(self).buffered() == old(self).buffered() + duels@.take(accepted as int),
                Err(_) => accepted == 0 && final(self).buffered() == old(self).buffered(),
            },
    {
        let duels = match batch {
            Ok(duels) => duels,
            Err(_) => Vec::new(),
        };
        let accepted = self.candidates.fill(duels);
        self.refresh.release();
        accepted
    }
}

} // verus!
