//! Layout of the sparse encoding extended with the cards of every completed
//! trick: for each trick and each seat, counted clockwise from the owner, a
//! flag per card.

use vstd::prelude::*;
use crate::state::contract_state_converter_common::STATE_REPR_SIZE;
use crate::state::contract_state_sparse_convert_with_init_assumption::{RIGHT_CARD_PLACED_OFFSET, SPARSE_DECK_SIZE};

verus! {

pub const STATE_REPR_SIZE_WITH_HISTORY: usize = STATE_REPR_SIZE + (SPARSE_DECK_SIZE * 4 * 13);
pub const CONTRACT_HISTORY_OFFSET: usize = RIGHT_CARD_PLACED_OFFSET + SPARSE_DECK_SIZE;

} // verus!
