use gotcritter::counter::{decrement, increment, initialize, Counter};
use gotcritter::events::{BetPlaced, EndOfBettingPeriod, GameCreated, PrizeClaimed};
use gotcritter::movie::{
    add_movie_review, update_movie_review, MovieReviewError, MAX_DESCRIPTION_LENGTH,
    MAX_TITLE_LENGTH,
};
use gotcritter::Pubkey;

fn key(n: u64) -> Pubkey {
    Pubkey { w0: n, w1: 0, w2: 0, w3: 0 }
}

#[test]
fn counter_initialize_starts_at_zero() {
    let counter = initialize();
    assert_eq!(counter.count, 0);
}

#[test]
fn counter_increment_adds_one() {
    let mut counter = Counter { count: 41 };
    increment(&mut counter);
    assert_eq!(counter.count, 42);
}

#[test]
fn counter_decrement_takes_one() {
    let mut counter = Counter { count: 42 };
    decrement(&mut counter);
    assert_eq!(counter.count, 41);
}

#[test]
fn add_review_accepts_valid_input() {
    let state = add_movie_review(key(1), "Metropolis".to_string(), "A silent classic.".to_string(), 5)
        .expect("valid review should be accepted");
    assert_eq!(state.reviewer, key(1));
    assert_eq!(state.rating, 5);
    assert_eq!(state.title, "Metropolis");
    assert_eq!(state.description, "A silent classic.");
}

#[test]
fn add_review_rejects_rating_out_of_range() {
    let low = add_movie_review(key(1), "T".to_string(), "D".to_string(), 0);
    assert_eq!(low.err(), Some(MovieReviewError::InvalidRating));
    let high = add_movie_review(key(1), "T".to_string(), "D".to_string(), 6);
    assert_eq!(high.err(), Some(MovieReviewError::InvalidRating));
}

#[test]
fn add_review_rejects_long_title() {
    let title = "x".repeat(MAX_TITLE_LENGTH + 1);
    let result = add_movie_review(key(1), title, "D".to_string(), 3);
    assert_eq!(result.err(), Some(MovieReviewError::TitleTooLong));
    let boundary = "x".repeat(MAX_TITLE_LENGTH);
    assert!(add_movie_review(key(1), boundary, "D".to_string(), 3).is_ok());
}

#[test]
fn add_review_measures_title_in_bytes() {
    // Eleven two-byte characters: 11 characters, 22 bytes — over the cap.
    let title = "é".repeat(11);
    assert_eq!(title.chars().count(), 11);
    let result = add_movie_review(key(1), title, "D".to_string(), 3);
    assert_eq!(result.err(), Some(MovieReviewError::TitleTooLong));
}

#[test]
fn add_review_rejects_long_description() {
    let description = "y".repeat(MAX_DESCRIPTION_LENGTH + 1);
    let result = add_movie_review(key(1), "T".to_string(), description, 3);
    assert_eq!(result.err(), Some(MovieReviewError::DescriptionTooLong));
}

#[test]
fn update_review_applies_rating_and_description() {
    let mut state = add_movie_review(key(1), "T".to_string(), "old".to_string(), 2).unwrap();
    update_movie_review(&mut state, "T".to_string(), "new".to_string(), 4)
        .expect("valid update should be accepted");
    assert_eq!(state.rating, 4);
    assert_eq!(state.description, "new");
    assert_eq!(state.title, "T");
    assert_eq!(state.reviewer, key(1));
}

#[test]
fn update_review_rejects_bad_input_unchanged() {
    let mut state = add_movie_review(key(1), "T".to_string(), "old".to_string(), 2).unwrap();
    let bad_rating = update_movie_review(&mut state, "T".to_string(), "new".to_string(), 9);
    assert_eq!(bad_rating.err(), Some(MovieReviewError::InvalidRating));
    let long = "y".repeat(MAX_DESCRIPTION_LENGTH + 1);
    let bad_description = update_movie_review(&mut state, "T".to_string(), long, 3);
    assert_eq!(bad_description.err(), Some(MovieReviewError::DescriptionTooLong));
    assert_eq!(state.rating, 2);
    assert_eq!(state.description, "old");
}

#[test]
fn events_carry_their_fields() {
    let created = GameCreated { game: key(1), creator: key(2), private: true, timestamp: 7 };
    assert_eq!(created.creator, key(2));
    let placed = BetPlaced {
        game: key(1),
        bettor: key(3),
        number: 7,
        value: 10,
        timestamp: 8,
        bet: key(4),
    };
    assert_eq!(placed.number, 7);
    let closed = EndOfBettingPeriod { game: key(1), closer: key(3), reward: 10, timestamp: 9 };
    assert_eq!(closed.reward, 10);
    let claimed = PrizeClaimed {
        game: key(1),
        bettor: key(3),
        drawn_number: 7,
        prize_value: 11,
        timestamp: 10,
    };
    assert_eq!(claimed.prize_value, 11);
}
