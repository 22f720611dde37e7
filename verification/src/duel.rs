//! Plain data exchanged between the ranking core and its callers.

use vstd::prelude::*;

verus! {

/// A rating subject as the matchmaker sees it: a stable key and the name of
/// the item it stands for.
#[derive(Debug, Clone, PartialEq, Eq)]
pub struct Player {
    pub id: u32,
    pub name: String,
}

/// An unplayed pairing of two rating subjects awaiting a judgment.
#[derive(Debug, Clone, PartialEq, Eq)]
pub struct Duel {
    pub home: String,
    pub home_id: u32,
    pub guest: String,
    pub guest_id: u32,
}

/// What a judge decided, seen from the home side.
#[derive(Debug, Clone, Copy, PartialEq, Eq, Structural)]
pub enum Outcome {
    HomeLost,
    Draw,
    HomeWon,
}

/// A played duel with its result.
#[derive(Debug, Clone, Copy, PartialEq, Eq, Structural)]
pub struct Match {
    pub home_id: u32,
    pub guest_id: u32,
    pub won: Outcome,
}

/// Options a collection is built from.
#[derive(Debug, Clone, PartialEq, Eq)]
pub struct ImageCollectionOptions {
    /// Where the rating store lives.
    pub db_path: String,
    /// Desired number of precomputed duels. A larger buffer saves store
    /// queries but serves pairings decided on older ratings.
    pub candidate_buffer: usize,
}

impl Outcome {
    /// Twice the score of the home side: 0 for a loss, 1 for a draw, 2 for a
    /// win.
    pub open spec fn points(self) -> int {
        match self {
            Outcome::HomeLost => 0,
            Outcome::Draw => 1,
            Outcome::HomeWon => 2,
        }
    }

    /// Twice the score of the home side, as a machine integer.
    pub fn half_points(self) -> (h: u8)
        ensures
            h == self.points(),
    {
        match self {
            Outcome::HomeLost => 0,
            Outcome::Draw => 1,
            Outcome::HomeWon => 2,
        }
    }

    /// The outcome whose doubled score is `h`, if there is one.
    pub fn from_half_points(h: u8) -> (o: Option<Outcome>)
        ensures
            o is Some <==> h <= 2,
            o matches Some(x) ==> x.points() == h,
    {
        if h == 0 {
            Some(Outcome::HomeLost)
        } else if h == 1 {
            Some(Outcome::Draw)
        } else if h == 2 {
            Some(Outcome::HomeWon)
        } else {
            None
        }
    }

    /// The same result seen from the other side: the two scores of one match
    /// always add up to one full point.
    pub fn reversed(self) -> (r: Outcome)
        ensures
            self.points() + r.points() == 2,
    {
        match self {
            Outcome::HomeLost => Outcome::HomeWon,
            Outcome::Draw => Outcome::Draw,
            Outcome::HomeWon => Outcome::HomeLost,
        }
    }
}

impl Match {
    /// The result as the home player's rating update must see it.
    pub fn home_outcome(&self) -> (o: Outcome)
        ensures
            o == self.won,
    {
        self.won
    }

    /// The result as the guest's rating update must see it: the complement of
    /// the home side's score.
    pub fn guest_outcome(&self) -> (o: Outcome)
        ensures
            o.points() == 2 - self.won.points(),
    {
        self.won.reversed()
    }
}

} // verus!
