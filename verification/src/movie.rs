//! Movie reviews: a sibling record type with plain validation rules.
//!
//! A review carries a rating in 1..=5 and byte-length-capped title and
//! description; invalid input is rejected before any state changes.

use vstd::prelude::*;
use vstd::utf8::encode_utf8;
use crate::Pubkey;

verus! {

/// The lowest accepted rating.
pub const MIN_RATING: u8 = 1;

/// The highest accepted rating.
pub const MAX_RATING: u8 = 5;

/// The longest accepted title, in bytes.
pub const MAX_TITLE_LENGTH: usize = 20;

/// The longest accepted description, in bytes.
pub const MAX_DESCRIPTION_LENGTH: usize = 50;

/// One review record.
pub struct MovieAccountState {
    /// Who wrote the review.
    pub reviewer: Pubkey,
    /// The rating, in 1..=5.
    pub rating: u8,
    /// The reviewed title.
    pub title: String,
    /// The review text.
    pub description: String,
}

/// The mathematical image of a review record.
#[verifier::ext_equal]
pub ghost struct MovieModel {
    pub reviewer: Pubkey,
    pub rating: u8,
    pub title: Seq<char>,
    pub description: Seq<char>,
}

impl View for MovieAccountState {
    type V = MovieModel;

    open spec fn view(&self) -> MovieModel {
        MovieModel {
            reviewer: self.reviewer,
            rating: self.rating,
            title: self.title@,
            description: self.description@,
        }
    }
}

/// Why a review is rejected.
#[derive(Clone, Copy, PartialEq, Eq, Structural, Debug)]
pub enum MovieReviewError {
    /// The rating lies outside 1..=5.
    InvalidRating,
    /// The title is longer than the cap.
    TitleTooLong,
    /// The description is longer than the cap.
    DescriptionTooLong,
}

/// The byte length of a text, as the machine sees it.
pub open spec fn byte_len(text: Seq<char>) -> usize {
    encode_utf8(text).len() as usize
}

/// Why adding a review is rejected, or nothing when it is accepted.
pub open spec fn add_review_error(title: Seq<char>, description: Seq<char>, rating: u8) -> Option<
    MovieReviewError,
> {
    if !(MIN_RATING <= rating && rating <= MAX_RATING) {
        Some(MovieReviewError::InvalidRating)
    } else if byte_len(title) > MAX_TITLE_LENGTH {
        Some(MovieReviewError::TitleTooLong)
    } else if byte_len(description) > MAX_DESCRIPTION_LENGTH {
        Some(MovieReviewError::DescriptionTooLong)
    } else {
        None
    }
}

/// Why updating a review is rejected, or nothing when it is accepted; an
/// update never re-checks the title, which it leaves in place.
pub open spec fn update_review_error(description: Seq<char>, rating: u8) -> Option<
    MovieReviewError,
> {
    if !(MIN_RATING <= rating && rating <= MAX_RATING) {
        Some(MovieReviewError::InvalidRating)
    } else if byte_len(description) > MAX_DESCRIPTION_LENGTH {
        Some(MovieReviewError::DescriptionTooLong)
    } else {
        None
    }
}

/// Validates and builds a new review record.
pub fn add_movie_review(
    reviewer: Pubkey,
    title: String,
    description: String,
    rating: u8,
) -> (result: Result<MovieAccountState, MovieReviewError>)
    ensures
        match result {
            Ok(state) => {
                &&& add_review_error(title@, description@, rating) is None
                &&& state@ == (MovieModel {
                    reviewer,
                    rating,
                    title: title@,
                    description: description@,
                })
            },
            Err(e) => add_review_error(title@, description@, rating) == Some(e),
        },
{
    if !(rating >= MIN_RATING && rating <= MAX_RATING) {
        return Err(MovieReviewError::InvalidRating);
    }
    if title.as_str().len() > MAX_TITLE_LENGTH {
        return Err(MovieReviewError::TitleTooLong);
    }
    if description.as_str().len() > MAX_DESCRIPTION_LENGTH {
        return Err(MovieReviewError::DescriptionTooLong);
    }
    Ok(MovieAccountState { reviewer, rating, title, description })
}

/// Validates an update and applies the new rating and description,
/// keeping the author identity and the title. A rejection changes nothing.
pub fn update_movie_review(
    state: &mut MovieAccountState,
    _title: String,
    description: String,
    rating: u8,
) -> (result: Result<(), MovieReviewError>)
    ensures
        match result {
            Ok(_) => {
                &&& update_review_error(description@, rating) is None
                &&& final(state)@ == (MovieModel {
                    rating,
                    description: description@,
                    ..old(state)@
                })
            },
            Err(e) => {
                &&& final(state)@ == old(state)@
                &&& update_review_error(description@, rating) == Some(e)
            },
        },
{
    if !(rating >= MIN_RATING && rating <= MAX_RATING) {
        return Err(MovieReviewError::InvalidRating);
    }
    if description.as_str().len() > MAX_DESCRIPTION_LENGTH {
        return Err(MovieReviewError::DescriptionTooLong);
    }
    state.rating = rating;
    state.description = description;
    Ok(())
}

} // verus!
