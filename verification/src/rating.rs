//! The integer side of the rating model: the values every player starts
//! with and the time that feeds uncertainty decay.

use vstd::prelude::*;

verus! {

/// The rating a player starts with.
pub const INITIAL_RATING: u32 = 2200;

/// The deviation a player starts with. It is also the ceiling: no rating is
/// ever less certain than a fresh one.
pub const MAX_DEVIATION: u32 = 350;

/// The ticks elapsed between a rating's last update and `now`; zero when the
/// last update lies in the future.
pub fn elapsed_ticks(now: usize, last_update: usize) -> (elapsed: usize)
    ensures
        now >= last_update ==> elapsed == now - last_update,
        now < last_update ==> elapsed == 0,
{
    if now >= last_update {
        now - last_update
    } else {
        0
    }
}

} // verus!
