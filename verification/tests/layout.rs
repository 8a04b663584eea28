use brydz_core::state::contract_state_converter_common::CURRENT_TRICK_OFFSET;
use brydz_core::state::contract_state_sparse_convert_with_init_assumption::{
    CALLED_SUIT_OFFSET, CARD_SET_OFFSET, LEFT_CARD_PLACED_OFFSET, OWN_CARD_PLACED_OFFSET,
};

#[test]
fn current_trick_offset() {
    assert_eq!(CURRENT_TRICK_OFFSET, 317);
}

#[test]
fn own_trick_offset() {
    assert_eq!(OWN_CARD_PLACED_OFFSET, 227)
}

#[test]
fn left_card_offset() {
    assert_eq!(LEFT_CARD_PLACED_OFFSET, 279);
}

#[test]
fn cardset_offset() {
    assert_eq!(CARD_SET_OFFSET, 11);
}

#[test]
fn called_suit_offset() {
    assert_eq!(CALLED_SUIT_OFFSET, 219);
}
