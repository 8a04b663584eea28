use brydz_core::bidding::{Bid, Doubling};
use brydz_core::card_set::{CardSet, CardSetError};
use brydz_core::cards::{Card, Figure, Suit, Trump};
use brydz_core::contract::{Contract, ContractParametersGen};
use brydz_core::error::{BridgeCoreError, ContractError, Mismatch};
use brydz_core::player::Side::{self, East, North, South, West};
use brydz_core::player::{Axis, PlayRole, SideMap};
use brydz_core::state::ContractAction::{PlaceCard, ShowHand};
use brydz_core::state::{
    ContractAgentInfoSetAllKnowing, ContractAgentInfoSetSimple, ContractDummyState, ContractEnvStateComplete,
    ContractEnvStateMin, ContractStateUpdate, ILLEGAL_ACTION_PENALTY,
};

fn figure_of(ch: char) -> Figure {
    match ch {
        '2' => Figure::Two,
        '3' => Figure::Three,
        '4' => Figure::Four,
        '5' => Figure::Five,
        '6' => Figure::Six,
        '7' => Figure::Seven,
        '8' => Figure::Eight,
        '9' => Figure::Nine,
        'T' => Figure::Ten,
        'J' => Figure::Jack,
        'Q' => Figure::Queen,
        'K' => Figure::King,
        'A' => Figure::Ace,
        _ => panic!("no figure {ch}"),
    }
}

fn card(figure: char, suit: Suit) -> Card {
    Card::new(figure_of(figure), suit)
}

fn cards(list: &[Card]) -> CardSet {
    let mut set = CardSet::empty();
    for c in list {
        set.insert_card(*c).unwrap();
    }
    set
}

fn params(declarer: Side, trump: Trump, number: u8) -> ContractParametersGen {
    ContractParametersGen::new(declarer, Bid::init(trump, number).unwrap())
}

fn spades_contract() -> Contract {
    Contract::new(params(North, Trump::Colored(Suit::Spades), 2))
}

#[test]
fn contract_whist_leads_first_trick() {
    let contract = spades_contract();
    assert_eq!(contract.current_side(), East);
    assert_eq!(contract.declarer(), North);
    assert_eq!(contract.dummy(), South);
    assert!(!contract.is_completed());
    assert_eq!(contract.count_completed_tricks(), 0);
}

#[test]
fn contract_refuses_wrong_order_and_duplicates() {
    let mut contract = spades_contract();
    let r = contract.insert_card(South, card('2', Suit::Clubs));
    assert_eq!(r, Err(ContractError::ViolatedOrder(Mismatch { expected: East, found: South })));
    assert_eq!(contract.insert_card(East, card('2', Suit::Clubs)), Ok(South));
    let r = contract.insert_card(South, card('2', Suit::Clubs));
    assert_eq!(r, Err(ContractError::CardDuplicated(card('2', Suit::Clubs))));
    assert_eq!(contract.current_trick().count_cards(), 1);
}

#[test]
fn contract_trick_goes_to_best_card_and_winner_leads() {
    let mut contract = spades_contract();
    assert_eq!(contract.insert_card(East, card('K', Suit::Hearts)), Ok(South));
    assert_eq!(contract.insert_card(South, card('A', Suit::Hearts)), Ok(West));
    assert_eq!(contract.insert_card(West, card('2', Suit::Spades)), Ok(North));
    // the trump two of West beats the hearts ace
    assert_eq!(contract.insert_card(North, card('3', Suit::Hearts)), Ok(West));
    assert_eq!(contract.count_completed_tricks(), 1);
    assert_eq!(contract.current_side(), West);
    assert_eq!(contract.total_tricks_taken_axis(Axis::EastWest), 1);
    assert_eq!(contract.total_tricks_taken_axis(Axis::NorthSouth), 0);
    assert_eq!(contract.total_tricks_taken_side(West), 1);
    assert_eq!(contract.total_tricks_taken_side(East), 0);
    assert_eq!(contract.total_tricks_taken_role(PlayRole::Offside), 1);
    assert_eq!(contract.total_tricks_taken_role_axis(PlayRole::Whist), 1);
    assert_eq!(contract.tricks_taken_axis_in_n_first_tricks(Axis::EastWest, 0), 0);
    assert_eq!(contract.tricks_taken_side_in_n_first_tricks(West, 5), 1);
    // North played a heart on a heart lead: no suit is marked exhausted for it
    assert!(contract.side_possibly_has_card(North, &card('4', Suit::Hearts)));
    // West played a spade on a heart lead: it has no hearts left
    assert!(!contract.side_possibly_has_card(West, &card('4', Suit::Hearts)));
    assert!(contract.card_used(&card('A', Suit::Hearts)));
    assert!(!contract.card_used(&card('A', Suit::Clubs)));
}

#[test]
fn contract_roles_of_seats() {
    let contract = spades_contract();
    assert_eq!(contract.role_by_side(North), PlayRole::Declarer);
    assert_eq!(contract.role_by_side(East), PlayRole::Whist);
    assert_eq!(contract.role_by_side(South), PlayRole::Dummy);
    assert_eq!(contract.role_by_side(West), PlayRole::Offside);
    assert_eq!(contract.side_by_role(PlayRole::Whist), East);
    assert_eq!(contract.side_by_role(PlayRole::Offside), West);
}

#[test]
fn contract_full_after_thirteen_tricks() {
    let mut contract = Contract::new(params(South, Trump::NoTrump, 1));
    // West leads; every trick is won by the seat that leads it with the ace
    let order = [West, North, East, South];
    let figures = ['2', '3', '4', '5', '6', '7', '8', '9', 'T', 'J', 'Q', 'K', 'A'];
    let suits = [Suit::Clubs, Suit::Diamonds, Suit::Hearts, Suit::Spades];
    for t in 0..13 {
        for (k, side) in order.iter().enumerate() {
            let c = card(figures[t], suits[k]);
            contract.insert_card(*side, c).unwrap();
        }
    }
    assert!(contract.is_completed());
    assert_eq!(contract.completed_tricks().len(), 13);
    assert_eq!(
        contract.total_tricks_taken_axis(Axis::EastWest) + contract.total_tricks_taken_axis(Axis::NorthSouth),
        13
    );
    assert_eq!(contract.insert_card(West, card('A', Suit::Clubs)), Err(ContractError::ContractFull));
}

fn table() -> (CardSet, CardSet, CardSet, CardSet) {
    let hand_north = cards(&[card('T', Suit::Clubs), card('A', Suit::Diamonds), card('Q', Suit::Hearts), card('Q', Suit::Spades)]);
    let hand_east = cards(&[card('4', Suit::Clubs), card('3', Suit::Diamonds), card('6', Suit::Hearts), card('8', Suit::Spades)]);
    let hand_south = cards(&[card('9', Suit::Clubs), card('6', Suit::Diamonds), card('T', Suit::Hearts), card('A', Suit::Spades)]);
    let hand_west = cards(&[card('6', Suit::Clubs), card('8', Suit::Diamonds), card('8', Suit::Hearts), card('J', Suit::Spades)]);
    (hand_north, hand_east, hand_south, hand_west)
}

#[test]
fn complete_env_dummy_shows_hand_and_declarer_plays_for_it() {
    let (n, e, s, w) = table();
    let mut state = ContractEnvStateComplete::from_deal(
        &params(North, Trump::Colored(Suit::Spades), 2),
        &SideMap::new(n, e, s, w),
    );
    assert_eq!(state.current_player(), Some(East));
    state.forward(East, PlaceCard(card('3', Suit::Diamonds))).unwrap();
    assert_eq!(state.current_player(), Some(South));
    let r = state.forward(South, ShowHand(e));
    assert_eq!(r, Err(BridgeCoreError::Contract(ContractError::DummyCardSetMissmatch)));
    state.forward(South, ShowHand(s)).unwrap();
    assert!(state.is_dummy_shown());
    // the declarer plays for the dummy now
    assert_eq!(state.current_player(), Some(North));
    let updates = state.forward(North, PlaceCard(card('6', Suit::Diamonds))).unwrap();
    assert_eq!(*updates[0].1.side(), South);
    assert!(!state.hand(South).contains(&card('6', Suit::Diamonds)));
    assert_eq!(state.current_player(), Some(West));
    let r = state.forward(West, PlaceCard(card('A', Suit::Clubs)));
    assert_eq!(r, Err(BridgeCoreError::Hand(CardSetError::CardNotInHand(card('A', Suit::Clubs)))));
    state.forward(West, PlaceCard(card('8', Suit::Diamonds))).unwrap();
    state.forward(North, PlaceCard(card('A', Suit::Diamonds))).unwrap();
    assert_eq!(state.state_score_of_player(&North), 1);
    assert_eq!(state.state_score_of_player(&East), 0);
    assert_eq!(state.current_player(), Some(North));
    assert!(!state.is_finished());
}

#[test]
fn minimal_env_tracks_dummy_hand() {
    let (_n, _e, s, _w) = table();
    let mut state = ContractEnvStateMin::from_params(&params(North, Trump::Colored(Suit::Spades), 2));
    assert!(state.dummy_hand().is_none());
    state.forward(East, PlaceCard(card('3', Suit::Diamonds))).unwrap();
    assert_eq!(state.current_player(), Some(South));
    state.forward(South, ShowHand(s)).unwrap();
    assert_eq!(state.current_player(), Some(North));
    state.forward(North, PlaceCard(card('6', Suit::Diamonds))).unwrap();
    assert_eq!(state.current_player(), Some(West));
    let r = state.forward(North, PlaceCard(card('8', Suit::Diamonds)));
    assert_eq!(r, Err(BridgeCoreError::Contract(ContractError::ViolatedOrder(Mismatch { expected: West, found: North }))));
    assert_eq!(state.state_payoff_of_player(&West), 0);
}

#[test]
fn dummy_state_shows_hand_only() {
    let (_n, _e, s, _w) = table();
    let mut dummy = ContractDummyState::new(South, s, spades_contract());
    assert!(dummy.is_action_valid(&ShowHand(s)));
    assert!(!dummy.is_action_valid(&PlaceCard(card('9', Suit::Clubs))));
    assert!(dummy.available_actions().is_empty());
    dummy.update(ContractStateUpdate::new(East, PlaceCard(card('3', Suit::Diamonds)))).unwrap();
    assert_eq!(dummy.available_actions(), vec![ShowHand(s)]);
    dummy.update(ContractStateUpdate::new(South, PlaceCard(card('6', Suit::Diamonds)))).unwrap();
    assert_eq!(dummy.penalty_for_illegal(), ILLEGAL_ACTION_PENALTY);
    assert_eq!(dummy.current_subjective_score(), 0);
    assert_eq!(*dummy.agent_id(), South);
}

#[test]
fn simple_info_set_offers_legal_plays() {
    let (n, _e, s, _w) = table();
    let mut north = ContractAgentInfoSetSimple::new(North, n, spades_contract(), None);
    assert!(north.available_actions().is_empty());
    north.update(ContractStateUpdate::new(East, PlaceCard(card('3', Suit::Diamonds)))).unwrap();
    north.update(ContractStateUpdate::new(South, ShowHand(s))).unwrap();
    // on the dummy's turn the declarer is offered the dummy's diamonds
    assert_eq!(north.available_actions(), vec![PlaceCard(card('6', Suit::Diamonds))]);
    north.update(ContractStateUpdate::new(North, PlaceCard(card('6', Suit::Diamonds)))).unwrap();
    north.update(ContractStateUpdate::new(West, PlaceCard(card('8', Suit::Diamonds)))).unwrap();
    // North must follow diamonds
    assert_eq!(north.available_actions(), vec![PlaceCard(card('A', Suit::Diamonds))]);
    assert!(north.is_action_valid(&PlaceCard(card('A', Suit::Diamonds))));
    assert!(!north.is_action_valid(&PlaceCard(card('Q', Suit::Spades))));
    assert!(!north.is_action_valid(&ShowHand(n)));
    assert_eq!(north.hint_card_share_for_player(North, &card('A', Suit::Diamonds)), 1);
    assert_eq!(north.hint_card_share_for_player(East, &card('A', Suit::Diamonds)), 0);
    assert_eq!(north.hint_card_share_for_player(South, &card('A', Suit::Spades)), 1);
    assert_eq!(north.hint_card_share_for_player(East, &card('K', Suit::Clubs)), 2);
    assert_eq!(north.hint_card_share_for_player(East, &card('3', Suit::Diamonds)), 0);
}

#[test]
fn simple_info_set_hint_before_dummy_shows() {
    let (n, _e, _s, _w) = table();
    let north = ContractAgentInfoSetSimple::new(North, n, spades_contract(), None);
    assert_eq!(north.hint_card_share_for_player(West, &card('K', Suit::Clubs)), 3);
    assert_eq!(north.hint_card_share_for_player(West, &card('T', Suit::Clubs)), 0);
}

#[test]
fn all_knowing_info_set_checks_hands() {
    let (n, e, s, w) = table();
    let mut east = ContractAgentInfoSetAllKnowing::from_deal(
        East,
        &params(North, Trump::Colored(Suit::Spades), 2),
        &SideMap::new(n, e, s, w),
    );
    assert_eq!(east.available_actions().len(), 4);
    let r = east.update(ContractStateUpdate::new(East, PlaceCard(card('A', Suit::Clubs))));
    assert_eq!(r, Err(BridgeCoreError::Contract(ContractError::CardNotInHand(East, card('A', Suit::Clubs)))));
    east.update(ContractStateUpdate::new(East, PlaceCard(card('3', Suit::Diamonds)))).unwrap();
    assert!(!east.hand().contains(&card('3', Suit::Diamonds)));
    assert_eq!(east.initial_deal().east, e);
    let r = east.update(ContractStateUpdate::new(South, ShowHand(n)));
    assert_eq!(
        r,
        Err(BridgeCoreError::Hand(CardSetError::ExpectedEqualCardSets(Mismatch { expected: s, found: n })))
    );
    east.update(ContractStateUpdate::new(South, ShowHand(s))).unwrap();
    assert!(east.available_actions().is_empty());
    assert_eq!(east.dummy_hand(), Some(&s));
    assert_eq!(east.current_assessment(), 0);
}

#[test]
fn doubled_contract_parameters_are_kept() {
    let p = ContractParametersGen::new_d(West, Bid::init(Trump::NoTrump, 3).unwrap(), Doubling::Redouble);
    let contract = Contract::new(p);
    assert_eq!(*contract.contract_spec(), p);
    assert_eq!(contract.current_side(), North);
}

#[test]
fn environment_charges_penalties_for_refused_actions() {
    let (n, e, s, w) = table();
    let state = ContractEnvStateComplete::from_deal(
        &params(North, Trump::Colored(Suit::Spades), 2),
        &SideMap::new(n, e, s, w),
    );
    let mut env = brydz_core::state::ContractEnv::new(state, SideMap::new((), (), (), ()));
    assert_eq!(env.players(), [North, East, South, West]);
    let r = env.process_action_penalise_illegal(&South, &PlaceCard(card('9', Suit::Clubs)), -10);
    assert!(r.is_err());
    assert_eq!(env.actual_penalty_score_of_player(&South), -10);
    assert_eq!(env.actual_penalty_score_of_player(&East), 0);
    env.process_action_penalise_illegal(&East, &PlaceCard(card('3', Suit::Diamonds)), -10).unwrap();
    assert_eq!(env.actual_penalty_score_of_player(&East), 0);
    assert!(env.process_action(&South, &PlaceCard(card('9', Suit::Clubs))).is_err());
    assert_eq!(env.actual_penalty_score_of_player(&South), -10);
    assert_eq!(env.game_violator(), None);
    env.set_game_violator(Some(South));
    assert_eq!(env.game_violator(), Some(&South));
    assert_eq!(env.actual_score_of_player(&North), 0);
    assert_eq!(env.state().current_player(), Some(South));
}

#[test]
fn contract_undo_takes_back_cards() {
    let mut contract = spades_contract();
    assert_eq!(contract.undo(), Err(ContractError::NothingToUndo));
    contract.insert_card(East, card('K', Suit::Hearts)).unwrap();
    contract.insert_card(South, card('A', Suit::Hearts)).unwrap();
    contract.insert_card(West, card('2', Suit::Spades)).unwrap();
    assert!(!contract.side_possibly_has_card(West, &card('4', Suit::Hearts)));
    // taking back West's spade forgets that West lacks hearts
    assert_eq!(contract.undo(), Ok(card('2', Suit::Spades)));
    assert!(contract.side_possibly_has_card(West, &card('4', Suit::Hearts)));
    assert!(!contract.card_used(&card('2', Suit::Spades)));
    assert_eq!(contract.current_side(), West);
    contract.insert_card(West, card('2', Suit::Spades)).unwrap();
    contract.insert_card(North, card('3', Suit::Hearts)).unwrap();
    assert_eq!(contract.count_completed_tricks(), 1);
    // taking back the card that closed the trick reopens it
    assert_eq!(contract.undo(), Ok(card('3', Suit::Hearts)));
    assert_eq!(contract.count_completed_tricks(), 0);
    assert_eq!(contract.current_trick().count_cards(), 3);
    assert_eq!(contract.current_side(), North);
    assert_eq!(contract.total_tricks_taken_axis(Axis::EastWest), 0);
}
