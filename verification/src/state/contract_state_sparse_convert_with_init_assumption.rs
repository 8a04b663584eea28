//! Layout of the sparse encoding of what a seat knows: one number per flag.
//!
//! Contract section: the owner's role among declarer, whist, dummy and
//! offside; the trump among clubs, diamonds, hearts, spades and no trump; the
//! contract value; the doubling. Card section: for each seat, counted
//! clockwise from the owner, a weight per card. Trick section: the called
//! suit, the seat that led, counted from the owner, and for each seat the
//! card it put in the current trick.

use vstd::prelude::*;

verus! {

pub const SPARSE_DECK_SIZE: usize = 52;
pub const CONTRACT_ROLE_OFFSET: usize = 0;
pub const CONTRACT_TRUMP_OFFSET: usize = CONTRACT_ROLE_OFFSET + 4;
pub const CONTRACT_VALUE_OFFSET: usize = CONTRACT_TRUMP_OFFSET + 5;
pub const DOUBLING_OFFSET: usize = CONTRACT_VALUE_OFFSET + 1;
pub const CARD_SET_OFFSET: usize = DOUBLING_OFFSET + 1;
pub const LEFT_CARD_SET_OFFSET: usize = CARD_SET_OFFSET + SPARSE_DECK_SIZE;
pub const PARTNER_CARD_SET_OFFSET: usize = LEFT_CARD_SET_OFFSET + SPARSE_DECK_SIZE;
pub const RIGHT_CARD_SET_OFFSET: usize = PARTNER_CARD_SET_OFFSET + SPARSE_DECK_SIZE;
pub const CALLED_SUIT_OFFSET: usize = RIGHT_CARD_SET_OFFSET + SPARSE_DECK_SIZE;
pub const TRICK_STARTING_SIDE_OFFSET: usize = CALLED_SUIT_OFFSET + 4;
pub const OWN_CARD_PLACED_OFFSET: usize = TRICK_STARTING_SIDE_OFFSET + 4;
pub const LEFT_CARD_PLACED_OFFSET: usize = OWN_CARD_PLACED_OFFSET + SPARSE_DECK_SIZE;
pub const PARTNER_CARD_PLACED_OFFSET: usize = LEFT_CARD_PLACED_OFFSET + SPARSE_DECK_SIZE;
pub const RIGHT_CARD_PLACED_OFFSET: usize = PARTNER_CARD_PLACED_OFFSET + SPARSE_DECK_SIZE;
pub const STATE_REPR_SIZE: usize = RIGHT_CARD_PLACED_OFFSET + SPARSE_DECK_SIZE;

} // verus!
