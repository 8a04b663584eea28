//! Layout of the dense encoding of what a seat knows.
//!
//! The owner's role, the trump, the contract value and the doubling; a weight
//! per card for each of declarer, whist, dummy and offside; the dummy's cards
//! and the owner's cards; the called suit; then the current trick and the
//! thirteen tricks, each as suit and figure of the cards of declarer, whist,
//! dummy and offside.

use vstd::prelude::*;

verus! {

pub const SPARSE_DECK_SIZE: usize = 52;
/// Two numbers (suit and figure) for each of the four seats.
pub const TRICK_REPRESENTATION_SIZE: usize = 2 * 4;
pub const TRICK_NUMBER: usize = 13;
pub const CONTRACT_TRUMP_OFFSET: usize = 1;
pub const CONTRACT_VALUE_OFFSET: usize = CONTRACT_TRUMP_OFFSET + 1;
pub const DOUBLING_OFFSET: usize = CONTRACT_VALUE_OFFSET + 1;
pub const DECLARER_DIST_OFFSET: usize = DOUBLING_OFFSET + 1;
pub const WHIST_DIST_OFFSET: usize = DECLARER_DIST_OFFSET + SPARSE_DECK_SIZE;
pub const DUMMY_DIST_OFFSET: usize = WHIST_DIST_OFFSET + SPARSE_DECK_SIZE;
pub const OFFSIDE_DIST_OFFSET: usize = DUMMY_DIST_OFFSET + SPARSE_DECK_SIZE;
pub const CURRENT_DUMMY_CARDS: usize = OFFSIDE_DIST_OFFSET + SPARSE_DECK_SIZE;
pub const CURRENT_OWN_CARDS: usize = CURRENT_DUMMY_CARDS + SPARSE_DECK_SIZE;
pub const CURRENT_CALLED_TRUMP_OFFSET: usize = CURRENT_OWN_CARDS + SPARSE_DECK_SIZE;
pub const CURRENT_TRICK_OFFSET: usize = CURRENT_CALLED_TRUMP_OFFSET + 1;
pub const TRICKS_OFFSET: usize = CURRENT_TRICK_OFFSET + TRICK_REPRESENTATION_SIZE;
pub const STATE_REPR_SIZE: usize = TRICKS_OFFSET + 13 * TRICK_REPRESENTATION_SIZE;

} // verus!
