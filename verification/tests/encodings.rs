use brydz_core::bidding::{Bid, Doubling};
use brydz_core::card_set::CardSet;
use brydz_core::cards::{Card, Figure, Suit, Trump};
use brydz_core::contract::{Contract, ContractParametersGen};
use brydz_core::player::Side::{East, North, South, West};
use brydz_core::state::contract_state_sparse_convert_with_init_assumption as sparse;
use brydz_core::state::contract_state_sparse_with_history::{CONTRACT_HISTORY_OFFSET, STATE_REPR_SIZE_WITH_HISTORY};
use brydz_core::state::contract_state_converter_common as dense;
use brydz_core::state::{
    dense_card_flags, dense_contract_params, dense_tricks, sparse_flags, sparse_history_flags,
    ActionPlaceCardConvertion1D, ContractAction, ContractActionWayToTensor, ContractInfoSetConvertDense1,
    ContractInfoSetConvertSparse, ContractInfoSetConvertSparseHistoric, ContractInfoSetEncoding, ContractStateUpdate,
    ConvertError, HandInfo, HandInfoSimple, StateWithSide, ContractAgentInfoSetSimple, DENSE_TRICKS_LENGTH,
};

fn card(figure: Figure, suit: Suit) -> Card {
    Card::new(figure, suit)
}

#[test]
fn state_update_parts() {
    let update = ContractStateUpdate::new(East, ContractAction::PlaceCard(card(Figure::Ace, Suit::Spades)));
    assert_eq!(*update.side(), East);
    assert_eq!(*update.action(), ContractAction::PlaceCard(card(Figure::Ace, Suit::Spades)));
    assert_eq!(update.into_tuple(), (East, ContractAction::PlaceCard(card(Figure::Ace, Suit::Spades))));
}

#[test]
fn action_index_encoding() {
    let enc = ActionPlaceCardConvertion1D {};
    let action = ContractAction::PlaceCard(card(Figure::Three, Suit::Diamonds));
    assert_eq!(enc.try_to_index(&action), Ok(14));
    assert_eq!(enc.try_from_index(14), Ok(action));
    assert_eq!(enc.try_from_index(0), Ok(ContractAction::PlaceCard(card(Figure::Two, Suit::Clubs))));
    assert_eq!(enc.try_from_index(51), Ok(ContractAction::PlaceCard(card(Figure::Ace, Suit::Spades))));
    assert_eq!(enc.try_from_index(52), Err(ConvertError::ConvertFromTensor));
    assert_eq!(enc.try_from_index(-1), Err(ConvertError::ConvertFromTensor));
    assert_eq!(enc.try_to_index(&ContractAction::ShowHand(CardSet::empty())), Err(ConvertError::ConvertToTensor));
    assert_eq!(enc.min(), 0);
    assert_eq!(enc.limit(), 52);
    assert_eq!(enc.desired_shape(), [1]);
    assert_eq!(enc.expected_input_shape(), [1]);
    for i in 0..52i64 {
        let a = enc.try_from_index(i).unwrap();
        assert_eq!(enc.try_to_index(&a), Ok(i));
    }
}

#[test]
fn action_min_representation() {
    assert_eq!(ContractAction::ShowHand(CardSet::empty()).min_representation(), [0, 0]);
    assert_eq!(ContractAction::PlaceCard(card(Figure::Ace, Suit::Hearts)).min_representation(), [3, 13]);
    assert_eq!(ContractAction::PlaceCard(card(Figure::Two, Suit::Clubs)).min_representation(), [1, 1]);
}

#[test]
fn encoding_shapes() {
    assert_eq!(ContractActionWayToTensor {}.desired_shape(), [2]);
    assert_eq!(ContractInfoSetConvertDense1 {}.desired_shape(), [429]);
    assert_eq!(ContractInfoSetConvertSparse {}.desired_shape(), [435]);
    assert_eq!(ContractInfoSetConvertSparseHistoric {}.desired_shape(), [429 + 52 * 4 * 13]);
    assert_eq!(ContractInfoSetEncoding::Sparse(ContractInfoSetConvertSparse {}).desired_shape(), [435]);
    assert_eq!(sparse::STATE_REPR_SIZE, 435);
    assert_eq!(dense::STATE_REPR_SIZE, 429);
    assert_eq!(dense::TRICKS_OFFSET, 325);
    assert_eq!(STATE_REPR_SIZE_WITH_HISTORY, 3133);
    assert_eq!(CONTRACT_HISTORY_OFFSET, 435);
    assert_eq!(DENSE_TRICKS_LENGTH, 113);
}

fn hearts_contract_after_one_card() -> Contract {
    let mut contract = Contract::new(ContractParametersGen::new_d(
        East,
        Bid::init(Trump::Colored(Suit::Hearts), 2).unwrap(),
        Doubling::Double,
    ));
    contract.insert_card(South, card(Figure::Ace, Suit::Diamonds)).unwrap();
    contract
}

#[test]
fn dense_sections() {
    let contract = hearts_contract_after_one_card();
    assert_eq!(dense_contract_params(North, &contract), [3, 2, 2, 1]);
    assert_eq!(dense_contract_params(East, &contract), [0, 2, 2, 1]);
    let t = dense_tricks(&contract);
    assert_eq!(t.len(), 113);
    assert_eq!(t[0], 1); // diamonds called
    // declarer East, whist South: South's ace of diamonds is the second pair
    assert_eq!(&t[1..9], &[-1, -1, 1, 12, -1, -1, -1, -1]);
    assert!(t[9..].iter().all(|v| *v == -1));
    let mut hand = CardSet::empty();
    hand.insert_card(card(Figure::Two, Suit::Clubs)).unwrap();
    hand.insert_card(card(Figure::Ace, Suit::Spades)).unwrap();
    let flags = dense_card_flags(Some(&hand));
    assert_eq!(flags.len(), 52);
    assert_eq!(flags[0], 1);
    assert_eq!(flags[51], 1);
    assert_eq!(flags.iter().filter(|f| **f == 1).count(), 2);
    assert!(dense_card_flags(None).iter().all(|f| *f == -1));
}

#[test]
fn sparse_flag_positions() {
    let contract = hearts_contract_after_one_card();
    // North: role offside (3), trump hearts (4 + 2), called diamonds (219 + 1),
    // trick led by South, two seats after North (223 + 2), South's card in the
    // partner section (227 + 2 * 52 + 25)
    assert_eq!(sparse_flags(North, &contract), vec![3, 6, 220, 225, 227 + 104 + 25]);
    assert!(sparse_history_flags(North, &contract).is_empty());
}

#[test]
fn sparse_history_after_a_trick() {
    let mut contract = Contract::new(ContractParametersGen::new(North, Bid::init(Trump::NoTrump, 1).unwrap()));
    contract.insert_card(East, card(Figure::Two, Suit::Clubs)).unwrap();
    contract.insert_card(South, card(Figure::Three, Suit::Clubs)).unwrap();
    contract.insert_card(West, card(Figure::Four, Suit::Clubs)).unwrap();
    contract.insert_card(North, card(Figure::Five, Suit::Clubs)).unwrap();
    let h = sparse_history_flags(West, &contract);
    // seats from West: West, North, East, South
    assert_eq!(h, vec![435 + 2, 435 + 52 + 3, 435 + 104, 435 + 156 + 1]);
}

#[test]
fn hand_info_keeps_cards() {
    let mut hand = CardSet::empty();
    hand.insert_card(card(Figure::King, Suit::Hearts)).unwrap();
    assert_eq!(HandInfoSimple::new(hand).own_cards(), hand);
}

#[test]
fn state_with_side_id() {
    let contract = hearts_contract_after_one_card();
    let info = ContractAgentInfoSetSimple::new(West, CardSet::empty(), contract, None);
    assert_eq!(StateWithSide::id(&info), West);
    assert_eq!(info.id(), West);
    let _ = South;
}

#[test]
fn dense_parts_of_whist_state() {
    // East declares three diamonds doubled; South (whist) leads the jack of
    // spades and West (dummy) follows with the two.
    let mut contract = Contract::new(ContractParametersGen::new_d(
        East,
        Bid::init(Trump::Colored(Suit::Diamonds), 3).unwrap(),
        Doubling::Double,
    ));
    contract.insert_card(South, card(Figure::Jack, Suit::Spades)).unwrap();
    contract.insert_card(West, card(Figure::Two, Suit::Spades)).unwrap();
    assert_eq!(dense_contract_params(South, &contract), [1, 1, 3, 1]);
    let t = dense_tricks(&contract);
    assert_eq!(t[0], 3); // called spades
    assert_eq!(&t[1..9], &[-1, -1, 3, 9, 3, 0, -1, -1]);
    assert!(t[9..].iter().all(|v| *v == -1));
    let _ = North;
}

#[test]
fn action_sparse_and_pair_forms() {
    let way = ContractActionWayToTensor {};
    let action = ContractAction::PlaceCard(card(Figure::Queen, Suit::Hearts));
    assert_eq!(way.try_to_pair(&action), [2, 10]);
    let s = action.sparse_representation();
    assert_eq!(s.len(), 53);
    assert_eq!(s[36], 1);
    assert_eq!(s[52], 1);
    assert_eq!(s.iter().filter(|x| **x == 1).count(), 2);
    let mut h = CardSet::empty();
    h.insert_card(card(Figure::Two, Suit::Clubs)).unwrap();
    h.insert_card(card(Figure::Ace, Suit::Spades)).unwrap();
    let s = ContractAction::ShowHand(h).sparse_representation();
    assert_eq!(s[0], 1);
    assert_eq!(s[51], 1);
    assert_eq!(s[52], 0);
    assert_eq!(s.iter().filter(|x| **x == 1).count(), 2);
}

#[test]
fn dense_normalised_tricks() {
    let contract = hearts_contract_after_one_card();
    let t = brydz_core::state::dense_tricks_n(&contract);
    assert_eq!(t.len(), 104);
    // no trick completed: the current trick takes the first slot
    assert_eq!(&t[0..8], &[-1, -1, 2, 13, -1, -1, -1, -1]);
    assert!(t[8..].iter().all(|v| *v == -1));
}
