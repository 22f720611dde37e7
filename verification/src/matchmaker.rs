//! Matchmaking: which guest meets which home player.
//!
//! The rating store names the home players (those whose rating is least
//! certain) and, for each, the players whose rating lies in the home player's
//! band. The rules here choose among them: a guest is never the home player
//! and is not reused within one batch while the band offers somebody else;
//! when the band offers nobody, a uniform sample of the whole population
//! stands in.

use vstd::prelude::*;
use crate::duel::{Duel, Player};
use crate::error::CollectionError;
use crate::random::sample_uniform;

verus! {

/// What the rating store supplies for one home player.
#[derive(Debug, Clone, PartialEq, Eq)]
pub struct HomeCandidates {
    /// The player to find a guest for.
    pub home: Player,
    /// The players whose rating lies within the home player's band.
    pub band: Vec<Player>,
    /// A uniform sample of everybody but the home player, if the store could
    /// supply one.
    pub fallback: Option<Player>,
}

/// Whether `candidate` may be the guest of `home_id` once the guests in
/// `taken` are placed.
pub open spec fn eligible(home_id: u32, taken: Seq<u32>, candidate: Player) -> bool {
    candidate.id != home_id && !taken.contains(candidate.id)
}

/// The number of eligible players among the first `upto` of the band.
pub open spec fn eligible_before(home_id: u32, taken: Seq<u32>, band: Seq<Player>, upto: int) -> nat
    decreases upto,
{
    if upto <= 0 {
        0
    } else {
        eligible_before(home_id, taken, band, upto - 1) + if eligible(
            home_id,
            taken,
            band[upto - 1],
        ) {
            1nat
        } else {
            0nat
        }
    }
}

/// Whether the band offers at least one eligible guest.
pub open spec fn band_offers(home_id: u32, taken: Seq<u32>, band: Seq<Player>) -> bool {
    exists|i: int| 0 <= i < band.len() && eligible(home_id, taken, #[trigger] band[i])
}

/// The duel that pairs `home` with `guest`.
pub open spec fn pairing(home: Player, guest: Player) -> Duel {
    Duel { home: home.name, home_id: home.id, guest: guest.name, guest_id: guest.id }
}

/// The guests of the given duels, in order.
pub open spec fn guest_ids(duels: Seq<Duel>) -> Seq<u32> {
    Seq::new(duels.len(), |i: int| duels[i].guest_id)
}

/// Whether the fallback sample can serve as a guest.
pub open spec fn fallback_serves(candidates: HomeCandidates) -> bool {
    candidates.fallback matches Some(guest) && guest.id != candidates.home.id
}

/// Whether `duel` is a rightful pairing for the home player, given the guests
/// already taken: an eligible member of the band, or, only when the band
/// offers none, the fallback sample.
pub open spec fn placed(candidates: HomeCandidates, taken: Seq<u32>, duel: Duel) -> bool {
    ||| exists|i: int|
        0 <= i < candidates.band@.len() && eligible(
            candidates.home.id,
            taken,
            #[trigger] candidates.band@[i],
        ) && duel == pairing(candidates.home, candidates.band@[i])
    ||| {
        &&& !band_offers(candidates.home.id, taken, candidates.band@)
        &&& fallback_serves(candidates)
        &&& duel == pairing(candidates.home, candidates.fallback->Some_0)
    }
}

/// Whether nobody at all can meet the home player.
pub open spec fn unplaceable(candidates: HomeCandidates, taken: Seq<u32>) -> bool {
    !band_offers(candidates.home.id, taken, candidates.band@) && !fallback_serves(candidates)
}

/// Whether `duels` is a rightful batch for the home players in `homes`: the
/// home players are served in order, each against the guests placed before
/// it, and one is left out only when nobody can meet it.
pub open spec fn selection(homes: Seq<HomeCandidates>, duels: Seq<Duel>) -> bool
    decreases homes.len(),
{
    if homes.len() == 0 {
        duels.len() == 0
    } else {
        ||| {
            &&& duels.len() > 0
            &&& selection(homes.drop_last(), duels.drop_last())
            &&& placed(homes.last(), guest_ids(duels.drop_last()), duels.last())
        }
        ||| {
            &&& unplaceable(homes.last(), guest_ids(duels))
            &&& selection(homes.drop_last(), duels)
        }
    }
}

/// The count of eligible players is zero exactly when the band offers none,
/// and never exceeds the part of the band that was counted.
pub proof fn lemma_eligible_count(home_id: u32, taken: Seq<u32>, band: Seq<Player>, upto: int)
    requires
        0 <= upto <= band.len(),
    ensures
        eligible_before(home_id, taken, band, upto) <= upto,
        eligible_before(home_id, taken, band, upto) == 0 <==> forall|i: int|
            0 <= i < upto ==> !eligible(home_id, taken, #[trigger] band[i]),
    decreases upto,
{
    if upto > 0 {
        lemma_eligible_count(home_id, taken, band, upto - 1);
    }
}

/// Whether `id` is among the guests already taken.
fn is_taken(taken: &Vec<u32>, id: u32) -> (found: bool)
    ensures
        found == taken@.contains(id),
{
    let mut i: usize = 0;
    while i < taken.len()
        invariant
            i <= taken.len(),
            forall|k: int| 0 <= k < i ==> taken@[k] != id,
        decreases taken.len() - i,
    {
        if taken[i] == id {
            return true;
        }
        i = i + 1;
    }
    false
}

/// Whether `candidate` may be the guest of `home_id`.
pub fn is_eligible(home_id: u32, taken: &Vec<u32>, candidate: &Player) -> (ok: bool)
    ensures
        ok == eligible(home_id, taken@, *candidate),
{
    candidate.id != home_id && !is_taken(taken, candidate.id)
}

/// The number of eligible players in the band.
pub fn count_eligible(home_id: u32, taken: &Vec<u32>, band: &Vec<Player>) -> (count: usize)
    ensures
        count == eligible_before(home_id, taken@, band@, band@.len() as int),
{
    let mut count: usize = 0;
    let mut i: usize = 0;
    while i < band.len()
        invariant
            i <= band.len(),
            count <= i,
            count == eligible_before(home_id, taken@, band@, i as int),
        decreases band.len() - i,
    {
        if is_eligible(home_id, taken, &band[i]) {
            count = count + 1;
        }
        i = i + 1;
    }
    count
}

/// The position in the band of the eligible player that has exactly `n`
/// eligible players before it, or `None` when the band has no more than `n`
/// eligible players.
pub fn nth_eligible(home_id: u32, taken: &Vec<u32>, band: &Vec<Player>, n: usize) -> (position:
    Option<usize>)
    ensures
        match position {
            Some(i) => {
                &&& i < band@.len()
                &&& eligible(home_id, taken@, band@[i as int])
                &&& eligible_before(home_id, taken@, band@, i as int) == n
            },
            None => eligible_before(home_id, taken@, band@, band@.len() as int) <= n,
        },
{
    let mut seen: usize = 0;
    let mut i: usize = 0;
    while i < band.len()
        invariant
            i <= band.len(),
            seen <= i,
            seen <= n,
            seen == eligible_before(home_id, taken@, band@, i as int),
        decreases band.len() - i,
    {
        if is_eligible(home_id, taken, &band[i]) {
            if seen == n {
                return Some(i);
            }
            seen = seen + 1;
        }
        i = i + 1;
    }
    None
}

/// Picks one eligible player of the band at random and returns its position,
/// or `None` exactly when the band offers nobody.
pub fn pick_from_band(home_id: u32, taken: &Vec<u32>, band: &Vec<Player>) -> (position: Option<
    usize,
>)
    ensures
        position is None <==> !band_offers(home_id, taken@, band@),
        position matches Some(i) ==> i < band@.len() && eligible(home_id, taken@, band@[i as int]),
{
    proof {
        lemma_eligible_count(home_id, taken@, band@, band@.len() as int);
    }
    let count = count_eligible(home_id, taken, band);
    if count == 0 {
        None
    } else {
        let drawn = sample_uniform(0, count);
        nth_eligible(home_id, taken, band, drawn)
    }
}

/// The offset of the fallback guest among everybody but the home player:
/// drawn uniformly from the `player_count - 1` others, and refused when
/// there is no other player.
pub fn uniform_offset(player_count: usize) -> (offset: Result<usize, CollectionError>)
    ensures
        offset is Err <==> player_count < 2,
        offset matches Err(e) ==> e == CollectionError::InsufficientPopulation,
        offset matches Ok(k) ==> k < player_count - 1,
{
    if player_count < 2 {
        Err(CollectionError::InsufficientPopulation)
    } else {
        Ok(sample_uniform(0, player_count - 1))
    }
}

/// Builds the duel of `home` against `guest`.
pub fn make_duel(home: &Player, guest: &Player) -> (duel: Duel)
    ensures
        duel == pairing(*home, *guest),
{
    Duel {
        home: home.name.clone(),
        home_id: home.id,
        guest: guest.name.clone(),
        guest_id: guest.id,
    }
}

/// Finds a guest for one home player, given the guests already taken: a
/// random eligible member of the band, else the fallback sample, else nobody.
pub fn place(candidates: &HomeCandidates, taken: &Vec<u32>) -> (duel: Option<Duel>)
    ensures
        duel is None <==> unplaceable(*candidates, taken@),
        duel matches Some(d) ==> placed(*candidates, taken@, d),
{
    match pick_from_band(candidates.home.id, taken, &candidates.band) {
        Some(i) => Some(make_duel(&candidates.home, &candidates.band[i])),
        None => match &candidates.fallback {
            Some(guest) => if guest.id != candidates.home.id {
                Some(make_duel(&candidates.home, guest))
            } else {
                None
            },
            None => None,
        },
    }
}

/// Pairs every home player of a batch, in the order given. Fails when the
/// population is too small to pair anybody.
pub fn select_batch(population: usize, homes: &Vec<HomeCandidates>) -> (batch: Result<
    Vec<Duel>,
    CollectionError,
>)
    ensures
        batch is Err <==> population < 2,
        batch matches Err(e) ==> e == CollectionError::InsufficientPopulation,
        batch matches Ok(duels) ==> selection(homes@, duels@),
{
    if population < 2 {
        return Err(CollectionError::InsufficientPopulation);
    }
    let mut duels: Vec<Duel> = Vec::new();
    let mut taken: Vec<u32> = Vec::new();
    let mut i: usize = 0;
    while i < homes.len()
        invariant
            i <= homes.len(),
            taken@ == guest_ids(duels@),
            selection(homes@.take(i as int), duels@),
        decreases homes.len() - i,
    {
        let ghost before = duels@;
        let ghost served = homes@.take(i as int);
        let ghost next = homes@.take(i + 1);
        proof {
            assert(next.drop_last() == served);
            assert(next.last() == homes@[i as int]);
        }
        match place(&homes[i], &taken) {
            Some(duel) => {
                taken.push(duel.guest_id);
                duels.push(duel);
                proof {
                    assert(duels@.drop_last() == before);
                    assert(taken@ == guest_ids(duels@));
                }
            },
            None => {},
        }
        i = i + 1;
    }
    proof {
        assert(homes@.take(homes@.len() as int) == homes@);
    }
    Ok(duels)
}

/// Pairs a single home player. Fails when the population is too small or
/// nobody can meet the home player.
pub fn select_one(population: usize, candidates: &HomeCandidates) -> (duel: Result<
    Duel,
    CollectionError,
>)
    ensures
        duel is Err <==> population < 2 || unplaceable(*candidates, Seq::<u32>::empty()),
        duel matches Err(e) ==> e == CollectionError::InsufficientPopulation,
        duel matches Ok(d) ==> placed(*candidates, Seq::<u32>::empty(), d),
{
    if population < 2 {
        return Err(CollectionError::InsufficientPopulation);
    }
    let taken: Vec<u32> = Vec::new();
    match place(candidates, &taken) {
        Some(d) => Ok(d),
        None => Err(CollectionError::InsufficientPopulation),
    }
}

/// A batch never holds more duels than home players were given, and nobody
/// meets itself.
pub proof fn lemma_selection_shape(homes: Seq<HomeCandidates>, duels: Seq<Duel>)
    requires
        selection(homes, duels),
    ensures
        duels.len() <= homes.len(),
        forall|k: int| 0 <= k < duels.len() ==> (#[trigger] duels[k]).guest_id != duels[k].home_id,
    decreases homes.len(),
{
    if homes.len() > 0 {
        if duels.len() > 0 && selection(homes.drop_last(), duels.drop_last()) && placed(
            homes.last(),
            guest_ids(duels.drop_last()),
            duels.last(),
        ) {
            lemma_selection_shape(homes.drop_last(), duels.drop_last());
            assert forall|k: int| 0 <= k < duels.len() implies (#[trigger] duels[k]).guest_id
                != duels[k].home_id by {
                if k < duels.len() - 1 {
                    assert(duels[k] == duels.drop_last()[k]);
                }
            }
        } else {
            lemma_selection_shape(homes.drop_last(), duels);
        }
    }
}

/// No home player is silently dropped: when every home player comes with a
/// fallback sample that can serve, the batch holds one duel per home player,
/// in the order of the home players.
pub proof fn lemma_selection_serves_every_home(homes: Seq<HomeCandidates>, duels: Seq<Duel>)
    requires
        selection(homes, duels),
        forall|k: int| 0 <= k < homes.len() ==> fallback_serves(#[trigger] homes[k]),
    ensures
        duels.len() == homes.len(),
        forall|k: int|
            0 <= k < homes.len() ==> (#[trigger] duels[k]).home_id == homes[k].home.id
                && duels[k].home == homes[k].home.name,
    decreases homes.len(),
{
    if homes.len() > 0 {
        let rest = homes.drop_last();
        assert(fallback_serves(homes[homes.len() - 1]));
        assert forall|k: int| 0 <= k < rest.len() implies fallback_serves(#[trigger] rest[k]) by {
            assert(rest[k] == homes[k]);
        }
        lemma_selection_serves_every_home(rest, duels.drop_last());
        assert forall|k: int| 0 <= k < homes.len() implies (#[trigger] duels[k]).home_id
            == homes[k].home.id && duels[k].home == homes[k].home.name by {
            if k < homes.len() - 1 {
                assert(duels[k] == duels.drop_last()[k]);
                assert(rest[k] == homes[k]);
            }
        }
    }
}

/// Every duel of a batch is played at home by one of the home players given.
pub proof fn lemma_selection_homes_are_given(homes: Seq<HomeCandidates>, duels: Seq<Duel>)
    requires
        selection(homes, duels),
    ensures
        forall|k: int|
            0 <= k < duels.len() ==> exists|j: int|
                0 <= j < homes.len() && (#[trigger] homes[j]).home.id == (
                #[trigger] duels[k]).home_id,
    decreases homes.len(),
{
    if homes.len() > 0 {
        let rest = homes.drop_last();
        let last = homes.len() - 1;
        if duels.len() > 0 && selection(rest, duels.drop_last()) && placed(
            homes.last(),
            guest_ids(duels.drop_last()),
            duels.last(),
        ) {
            lemma_selection_homes_are_given(rest, duels.drop_last());
            assert forall|k: int| 0 <= k < duels.len() implies exists|j: int|
                0 <= j < homes.len() && (#[trigger] homes[j]).home.id == (
                #[trigger] duels[k]).home_id by {
                if k < duels.len() - 1 {
                    assert(duels[k] == duels.drop_last()[k]);
                    let j = choose|j: int|
                        0 <= j < rest.len() && (#[trigger] rest[j]).home.id
                            == duels.drop_last()[k].home_id;
                    assert(homes[j] == rest[j]);
                } else {
                    assert(homes[last].home.id == duels[k].home_id);
                }
            }
        } else {
            lemma_selection_homes_are_given(rest, duels);
            assert forall|k: int| 0 <= k < duels.len() implies exists|j: int|
                0 <= j < homes.len() && (#[trigger] homes[j]).home.id == (
                #[trigger] duels[k]).home_id by {
                let j = choose|j: int|
                    0 <= j < rest.len() && (#[trigger] rest[j]).home.id == duels[k].home_id;
                assert(homes[j] == rest[j]);
            }
        }
    }
}

/// Home players that are distinct going in are distinct coming out: no
/// player is at home in two duels of one batch.
pub proof fn lemma_selection_keeps_homes_distinct(homes: Seq<HomeCandidates>, duels: Seq<Duel>)
    requires
        selection(homes, duels),
        forall|i: int, j: int|
            0 <= i < j < homes.len() ==> (#[trigger] homes[i]).home.id != (
            #[trigger] homes[j]).home.id,
    ensures
        forall|a: int, b: int|
            0 <= a < b < duels.len() ==> (#[trigger] duels[a]).home_id != (
            #[trigger] duels[b]).home_id,
    decreases homes.len(),
{
    if homes.len() > 0 {
        let rest = homes.drop_last();
        let last = homes.len() - 1;
        assert forall|i: int, j: int| 0 <= i < j < rest.len() implies (#[trigger] rest[i]).home.id
            != (#[trigger] rest[j]).home.id by {
            assert(rest[i] == homes[i]);
            assert(rest[j] == homes[j]);
        }
        if duels.len() > 0 && selection(rest, duels.drop_last()) && placed(
            homes.last(),
            guest_ids(duels.drop_last()),
            duels.last(),
        ) {
            let earlier = duels.drop_last();
            lemma_selection_keeps_homes_distinct(rest, earlier);
            lemma_selection_homes_are_given(rest, earlier);
            assert forall|a: int, b: int| 0 <= a < b < duels.len() implies (
            #[trigger] duels[a]).home_id != (#[trigger] duels[b]).home_id by {
                assert(duels[a] == earlier[a]);
                if b < duels.len() - 1 {
                    assert(duels[b] == earlier[b]);
                } else {
                    let j = choose|j: int|
                        0 <= j < rest.len() && (#[trigger] rest[j]).home.id == earlier[a].home_id;
                    assert(rest[j] == homes[j]);
                    assert(homes[j].home.id != homes[last].home.id);
                }
            }
        } else {
            lemma_selection_keeps_homes_distinct(rest, duels);
        }
    }
}

} // verus!
