use image_collection::collection::{buffer_capacity, FALLBACK_BATCH, PRE_CONFIGURED_BUFFER};
use image_collection::{CollectionError, Duel, ImageCollection, ImageCollectionOptions, NextDuel};

fn duel(home_id: u32, guest_id: u32) -> Duel {
    Duel {
        home: format!("home-{}", home_id),
        home_id,
        guest: format!("guest-{}", guest_id),
        guest_id,
    }
}

fn options(candidate_buffer: usize) -> ImageCollectionOptions {
    ImageCollectionOptions { db_path: "sqlite://out.db".to_string(), candidate_buffer }
}

fn batch(size: u32) -> Vec<Duel> {
    let mut duels = Vec::new();
    for i in 0..size {
        duels.push(duel(i, i + 1000));
    }
    duels
}

#[test]
fn capacity_is_the_configured_size_clamped_to_the_population() {
    assert_eq!(buffer_capacity(20, 500), 20);
    assert_eq!(buffer_capacity(20, 20), 20);
    assert_eq!(buffer_capacity(20, 5), 5);
    assert_eq!(buffer_capacity(20, 1), 1);
    assert_eq!(buffer_capacity(1, 500), 1);
}

#[test]
fn capacity_is_at_least_one() {
    assert_eq!(buffer_capacity(20, 0), 1);
    assert_eq!(buffer_capacity(0, 500), 1);
    assert_eq!(buffer_capacity(0, 0), 1);
}

#[test]
fn new_collection_is_empty_and_idle() {
    let collection = ImageCollection::new(&options(20), 5);
    assert_eq!(collection.capacity(), 5);
    assert_eq!(collection.occupancy(), 0);
    assert!(!collection.is_refilling());
}

#[test]
fn pre_configured_collection_names_every_rank_once() {
    let (collection, names) = ImageCollection::new_pre_configured(50);
    assert_eq!(PRE_CONFIGURED_BUFFER, 20);
    assert_eq!(collection.capacity(), 20);
    assert_eq!(collection.occupancy(), 0);
    assert!(!collection.is_refilling());
    let mut sorted = names.clone();
    sorted.sort();
    let expected: Vec<u32> = (0..50).collect();
    assert_eq!(sorted, expected);
}

#[test]
fn preload_fills_up_to_the_capacity() {
    let mut collection = ImageCollection::new(&options(4), 100);
    assert_eq!(collection.preload(batch(6)), 4);
    assert_eq!(collection.occupancy(), 4);
    assert_eq!(collection.new_duel(), NextDuel::Ready(duel(0, 1000)));
    assert_eq!(collection.new_duel(), NextDuel::Ready(duel(1, 1001)));
}

#[test]
fn new_duel_on_an_empty_buffer_asks_for_a_small_batch() {
    let mut collection = ImageCollection::new(&options(4), 100);
    assert_eq!(FALLBACK_BATCH, 3);
    assert_eq!(collection.new_duel(), NextDuel::Compute(3));
    assert!(!collection.is_refilling());
    assert_eq!(collection.occupancy(), 0);
}

#[test]
fn fallback_serves_the_first_duel_of_the_batch() {
    let served = ImageCollection::fallback_duel(Ok(batch(3)));
    assert_eq!(served, Ok(duel(0, 1000)));
}

#[test]
fn fallback_on_an_empty_batch_reports_insufficient_population() {
    let served = ImageCollection::fallback_duel(Ok(Vec::new()));
    assert_eq!(served, Err(CollectionError::InsufficientPopulation));
}

#[test]
fn fallback_passes_failures_on() {
    assert_eq!(
        ImageCollection::fallback_duel(Err(CollectionError::StoreUnavailable)),
        Err(CollectionError::StoreUnavailable)
    );
    assert_eq!(
        ImageCollection::fallback_duel(Err(CollectionError::NotFound)),
        Err(CollectionError::NotFound)
    );
    assert_eq!(
        ImageCollection::fallback_duel(Err(CollectionError::InsufficientPopulation)),
        Err(CollectionError::InsufficientPopulation)
    );
}

#[test]
fn refill_starts_only_below_half_the_capacity() {
    let mut collection = ImageCollection::new(&options(10), 100);
    assert_eq!(collection.preload(batch(5)), 5);
    assert_eq!(collection.begin_refill(), None);
    assert!(!collection.is_refilling());
    assert_eq!(collection.new_duel(), NextDuel::Ready(duel(0, 1000)));
    assert_eq!(collection.begin_refill(), Some(10));
    assert!(collection.is_refilling());
}

#[test]
fn second_trigger_during_a_refill_gets_nothing() {
    let mut collection = ImageCollection::new(&options(10), 100);
    assert_eq!(collection.begin_refill(), Some(10));
    assert_eq!(collection.begin_refill(), None);
    assert_eq!(collection.begin_refill(), None);
    assert!(collection.is_refilling());
    assert_eq!(collection.finish_refill(Ok(batch(2))), 2);
    assert!(!collection.is_refilling());
    assert_eq!(collection.begin_refill(), Some(10));
}

#[test]
fn refill_pushes_every_duel_that_fits() {
    let mut collection = ImageCollection::new(&options(4), 100);
    assert_eq!(collection.preload(batch(1)), 1);
    assert_eq!(collection.begin_refill(), Some(4));
    assert_eq!(collection.finish_refill(Ok(batch(4))), 3);
    assert_eq!(collection.occupancy(), 4);
    assert!(!collection.is_refilling());
    assert_eq!(collection.new_duel(), NextDuel::Ready(duel(0, 1000)));
    assert_eq!(collection.new_duel(), NextDuel::Ready(duel(0, 1000)));
    assert_eq!(collection.new_duel(), NextDuel::Ready(duel(1, 1001)));
    assert_eq!(collection.new_duel(), NextDuel::Ready(duel(2, 1002)));
    assert_eq!(collection.new_duel(), NextDuel::Compute(3));
}

#[test]
fn failed_refill_releases_the_guard_and_adds_nothing() {
    let mut collection = ImageCollection::new(&options(4), 100);
    assert_eq!(collection.begin_refill(), Some(4));
    assert_eq!(collection.finish_refill(Err(CollectionError::StoreUnavailable)), 0);
    assert_eq!(collection.occupancy(), 0);
    assert!(!collection.is_refilling());
}

#[test]
fn capacity_of_one_never_runs_low() {
    let mut collection = ImageCollection::new(&options(1), 100);
    assert_eq!(collection.begin_refill(), None);
    assert!(!collection.is_refilling());
}

#[test]
fn error_messages() {
    assert_eq!(
        CollectionError::InsufficientPopulation.message(),
        "fewer than two players to pair"
    );
    assert_eq!(CollectionError::NotFound.message(), "player not found");
    assert_eq!(CollectionError::StoreUnavailable.message(), "rating store unavailable");
}
