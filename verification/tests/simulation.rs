use image_collection::rating::{elapsed_ticks, INITIAL_RATING, MAX_DEVIATION};
use image_collection::simulation::{
    parse_rank, ranks_of_names, shuffled_ranks, squared_rank_error,
};
use image_collection::{Match, Outcome};

#[test]
fn shuffled_ranks_hold_every_rank_once() {
    let mut ranks = shuffled_ranks(500);
    assert_eq!(ranks.len(), 500);
    ranks.sort();
    let expected: Vec<u32> = (0..500).collect();
    assert_eq!(ranks, expected);
}

#[test]
fn shuffled_ranks_are_not_left_in_order() {
    let ranks = shuffled_ranks(1000);
    let ordered: Vec<u32> = (0..1000).collect();
    assert_ne!(ranks, ordered);
}

#[test]
fn shuffled_ranks_of_nothing_are_empty() {
    assert_eq!(shuffled_ranks(0), Vec::<u32>::new());
    assert_eq!(shuffled_ranks(1), vec![0]);
}

#[test]
fn perfect_ranking_has_no_error() {
    assert_eq!(squared_rank_error(&vec![0, 1, 2, 3, 4]), Some(0));
    assert_eq!(squared_rank_error(&Vec::new()), Some(0));
}

#[test]
fn squared_rank_error_sums_the_squared_distances() {
    assert_eq!(squared_rank_error(&vec![2, 1, 0]), Some(8));
    assert_eq!(squared_rank_error(&vec![1, 0]), Some(2));
    assert_eq!(squared_rank_error(&vec![10]), Some(100));
    assert_eq!(squared_rank_error(&vec![0, 0, 0, 0]), Some(14));
}

#[test]
fn squared_rank_error_handles_the_largest_rank() {
    let largest = u32::MAX as u128;
    assert_eq!(squared_rank_error(&vec![u32::MAX]), Some(largest * largest));
}

#[test]
fn mean_square_rank_error_of_a_reversed_ranking() {
    let ranks: Vec<u32> = (0..500).rev().collect();
    let total = squared_rank_error(&ranks).unwrap();
    assert_eq!(total, 41_666_500);
    let msre = (total as f64 / ranks.len() as f64).sqrt();
    assert!((msre - 288.674_210).abs() < 0.001);
}

#[test]
fn elapsed_ticks_never_go_negative() {
    assert_eq!(elapsed_ticks(10, 3), 7);
    assert_eq!(elapsed_ticks(3, 3), 0);
    assert_eq!(elapsed_ticks(3, 10), 0);
    assert_eq!(elapsed_ticks(usize::MAX, 0), usize::MAX);
}

#[test]
fn fresh_players_start_at_the_ceiling_of_uncertainty() {
    assert_eq!(INITIAL_RATING, 2200);
    assert_eq!(MAX_DEVIATION, 350);
}

#[test]
fn outcome_half_points() {
    assert_eq!(Outcome::HomeLost.half_points(), 0);
    assert_eq!(Outcome::Draw.half_points(), 1);
    assert_eq!(Outcome::HomeWon.half_points(), 2);
    assert_eq!(Outcome::from_half_points(0), Some(Outcome::HomeLost));
    assert_eq!(Outcome::from_half_points(1), Some(Outcome::Draw));
    assert_eq!(Outcome::from_half_points(2), Some(Outcome::HomeWon));
    assert_eq!(Outcome::from_half_points(3), None);
    assert_eq!(Outcome::from_half_points(255), None);
}

#[test]
fn both_sides_of_a_match_share_one_point() {
    for won in [Outcome::HomeLost, Outcome::Draw, Outcome::HomeWon] {
        let played = Match { home_id: 1, guest_id: 2, won };
        assert_eq!(played.home_outcome(), won);
        assert_eq!(played.home_outcome().half_points() + played.guest_outcome().half_points(), 2);
    }
    assert_eq!(Outcome::HomeWon.reversed(), Outcome::HomeLost);
    assert_eq!(Outcome::Draw.reversed(), Outcome::Draw);
    assert_eq!(Outcome::HomeLost.reversed(), Outcome::HomeWon);
}

#[test]
fn names_made_of_digits_encode_a_rank() {
    assert_eq!(parse_rank(b"0"), Some(0));
    assert_eq!(parse_rank(b"7"), Some(7));
    assert_eq!(parse_rank(b"499"), Some(499));
    assert_eq!(parse_rank(b"007"), Some(7));
    assert_eq!(parse_rank(b"4294967295"), Some(u32::MAX));
}

#[test]
fn other_names_encode_no_rank() {
    assert_eq!(parse_rank(b""), None);
    assert_eq!(parse_rank(b"cat.png"), None);
    assert_eq!(parse_rank(b"12.png"), None);
    assert_eq!(parse_rank(b"-3"), None);
    assert_eq!(parse_rank(b"+3"), None);
    assert_eq!(parse_rank(b" 3"), None);
    assert_eq!(parse_rank(b"1.5"), None);
}

#[test]
fn ranks_beyond_the_largest_are_refused() {
    assert_eq!(parse_rank(b"4294967296"), None);
    assert_eq!(parse_rank(b"99999999999999999999999999"), None);
    assert_eq!(parse_rank(b"4294967296x"), None);
}

#[test]
fn names_without_a_rank_are_skipped() {
    let names: Vec<Vec<u8>> =
        vec![b"3".to_vec(), b"cat.png".to_vec(), b"1".to_vec(), Vec::new(), b"2".to_vec()];
    assert_eq!(ranks_of_names(&names), vec![3, 1, 2]);
    assert_eq!(ranks_of_names(&Vec::new()), Vec::<u32>::new());
}

#[test]
fn every_shuffled_rank_reads_back_from_its_name() {
    for rank in shuffled_ranks(300) {
        assert_eq!(parse_rank(rank.to_string().as_bytes()), Some(rank));
    }
}
