use brydz_core::bidding::{Bid, Doubling};
use brydz_core::card_set::CardSet;
use brydz_core::cards::{Card, Figure, Suit, Trump};
use brydz_core::contract::{Contract, ContractParametersGen};
use brydz_core::error::{BridgeCoreError, ContractError, Mismatch};
use brydz_core::player::Axis;
use brydz_core::player::Side::{self, East, North, South, West};
use brydz_core::state::ContractAction::{PlaceCard, ShowHand};
use brydz_core::state::{
    ContractAgentInfoSetSimple, ContractDummyState, ContractEnvStateComplete, ContractEnvStateMin,
    ContractStateUpdate,
};

fn figure_of(ch: char) -> Figure {
    match ch {
        '2' => Figure::Two,
        '3' => Figure::Three,
        '4' => Figure::Four,
        '5' => Figure::Five,
        '6' => Figure::Six,
        '7' => Figure::Seven,
        '8' => Figure::Eight,
        '9' => Figure::Nine,
        'T' => Figure::Ten,
        'J' => Figure::Jack,
        'Q' => Figure::Queen,
        'K' => Figure::King,
        'A' => Figure::Ace,
        _ => panic!("no figure {ch}"),
    }
}

fn card(figure: char, suit: Suit) -> Card {
    Card::new(figure_of(figure), suit)
}

/// A hand written suit by suit: spades, hearts, diamonds, clubs, separated by dots.
fn hand(text: &str) -> CardSet {
    let suits = [Suit::Spades, Suit::Hearts, Suit::Diamonds, Suit::Clubs];
    let mut set = CardSet::empty();
    for (i, part) in text.split('.').enumerate() {
        for ch in part.chars() {
            set.insert_card(card(ch, suits[i])).unwrap();
        }
    }
    set
}

fn cards(list: &[Card]) -> CardSet {
    let mut set = CardSet::empty();
    for c in list {
        set.insert_card(*c).unwrap();
    }
    set
}

fn params(declarer: Side, trump: Trump, number: u8) -> ContractParametersGen {
    ContractParametersGen::new(declarer, Bid::init(trump, number).unwrap())
}

#[test]
fn convert_simple_info_set_to_bytes() {
    let contract = Contract::new(params(East, Trump::Colored(Suit::Hearts), 2));
    let mut info_set = ContractAgentInfoSetSimple::new(North, hand("AT86.KJT93.4T.2A"), contract, None);

    let state_as_vec = info_set.to_bytes();
    assert_eq!(
        state_as_vec,
        vec![
            120, 0, 0, 0, 0, 0, 0, 0, 0, 0, 0, 0, 120, //north
            0, 0, 120, 0, 0, 0, 0, 0, 120, 0, 0, 0, 0,
            0, 120, 0, 0, 0, 0, 0, 120, 120, 120, 0, 120, 0,
            0, 0, 0, 0, 120, 0, 120, 0, 120, 0, 0, 0, 120,
            0, 40, 40, 40, 40, 40, 40, 40, 40, 40, 40, 40, 0, //east (declarer)
            40, 40, 0, 40, 40, 40, 40, 40, 0, 40, 40, 40, 40,
            40, 0, 40, 40, 40, 40, 40, 0, 0, 0, 40, 0, 40,
            40, 40, 40, 40, 0, 40, 0, 40, 0, 40, 40, 40, 0,
            0, 40, 40, 40, 40, 40, 40, 40, 40, 40, 40, 40, 0, //south (partner)
            40, 40, 0, 40, 40, 40, 40, 40, 0, 40, 40, 40, 40,
            40, 0, 40, 40, 40, 40, 40, 0, 0, 0, 40, 0, 40,
            40, 40, 40, 40, 0, 40, 0, 40, 0, 40, 40, 40, 0,
            0, 40, 40, 40, 40, 40, 40, 40, 40, 40, 40, 40, 0, //west (dummy)
            40, 40, 0, 40, 40, 40, 40, 40, 0, 40, 40, 40, 40,
            40, 0, 40, 40, 40, 40, 40, 0, 0, 0, 40, 0, 40,
            40, 40, 40, 40, 0, 40, 0, 40, 0, 40, 40, 40, 0,
            1, 0, 0, 0, 0, 0, 0, 0, 0, 0, 3, 2, 0, 0
        ]
    );

    info_set
        .update(ContractStateUpdate::new(South, PlaceCard(card('A', Suit::Diamonds))))
        .unwrap();
    let state_as_vec = info_set.to_bytes();
    assert_eq!(
        state_as_vec,
        vec![
            120, 0, 0, 0, 0, 0, 0, 0, 0, 0, 0, 0, 120, //north
            0, 0, 120, 0, 0, 0, 0, 0, 120, 0, 0, 0, 0,
            0, 120, 0, 0, 0, 0, 0, 120, 120, 120, 0, 120, 0,
            0, 0, 0, 0, 120, 0, 120, 0, 120, 0, 0, 0, 120,
            0, 40, 40, 40, 40, 40, 40, 40, 40, 40, 40, 40, 0, //east (declarer)
            40, 40, 0, 40, 40, 40, 40, 40, 0, 40, 40, 40, 0,
            40, 0, 40, 40, 40, 40, 40, 0, 0, 0, 40, 0, 40,
            40, 40, 40, 40, 0, 40, 0, 40, 0, 40, 40, 40, 0,
            0, 40, 40, 40, 40, 40, 40, 40, 40, 40, 40, 40, 0, //south (partner)
            40, 40, 0, 40, 40, 40, 40, 40, 0, 40, 40, 40, 0,
            40, 0, 40, 40, 40, 40, 40, 0, 0, 0, 40, 0, 40,
            40, 40, 40, 40, 0, 40, 0, 40, 0, 40, 40, 40, 0,
            0, 40, 40, 40, 40, 40, 40, 40, 40, 40, 40, 40, 0, //west (dummy)
            40, 40, 0, 40, 40, 40, 40, 40, 0, 40, 40, 40, 0,
            40, 0, 40, 40, 40, 40, 40, 0, 0, 0, 40, 0, 40,
            40, 40, 40, 40, 0, 40, 0, 40, 0, 40, 40, 40, 0,
            1, 1, 0, 0, 0, 0, 2, 13, 0, 0, 3, 2, 0, 1
        ]
    );
    info_set
        .update(ContractStateUpdate::new(West, ShowHand(hand("QJ3.8764.A95.T96"))))
        .unwrap();
    info_set
        .update(ContractStateUpdate::new(West, PlaceCard(card('5', Suit::Diamonds))))
        .unwrap();

    let state_as_vec = info_set.to_bytes();
    assert_eq!(
        state_as_vec,
        vec![
            120, 0, 0, 0, 0, 0, 0, 0, 0, 0, 0, 0, 120, //north
            0, 0, 120, 0, 0, 0, 0, 0, 120, 0, 0, 0, 0,
            0, 120, 0, 0, 0, 0, 0, 120, 120, 120, 0, 120, 0,
            0, 0, 0, 0, 120, 0, 120, 0, 120, 0, 0, 0, 120,
            0, 60, 60, 60, 0, 60, 60, 0, 0, 60, 60, 60, 0, //east (declarer)
            60, 60, 0, 0, 60, 60, 60, 0, 0, 60, 60, 60, 0,
            60, 0, 0, 60, 0, 0, 0, 0, 0, 0, 60, 0, 60,
            60, 0, 60, 60, 0, 60, 0, 60, 0, 0, 0, 60, 0,
            0, 60, 60, 60, 0, 60, 60, 0, 0, 60, 60, 60, 0, //south (partner)
            60, 60, 0, 0, 60, 60, 60, 0, 0, 60, 60, 60, 0,
            60, 0, 0, 60, 0, 0, 0, 0, 0, 0, 60, 0, 60,
            60, 0, 60, 60, 0, 60, 0, 60, 0, 0, 0, 60, 0,
            0, 0, 0, 0, 120, 0, 0, 120, 120, 0, 0, 0, 0, //west (dummy)
            0, 0, 0, 0, 0, 0, 0, 120, 0, 0, 0, 0, 0,
            0, 0, 120, 0, 120, 120, 120, 0, 0, 0, 0, 0, 0,
            0, 120, 0, 0, 0, 0, 0, 0, 0, 120, 120, 0, 0,
            1, 2, 0, 0, 0, 0, 2, 13, 2, 4, 3, 2, 0, 0
        ]
    );
}

#[test]
fn possibly_has_card_after_one_trick() {
    let mut deal_1 = Contract::new(ContractParametersGen::new_d(
        North,
        Bid::init(Trump::Colored(Suit::Diamonds), 1).unwrap(),
        Doubling::NoDouble,
    ));
    deal_1.insert_card(East, card('K', Suit::Spades)).unwrap();
    deal_1.insert_card(South, card('Q', Suit::Spades)).unwrap();
    deal_1.insert_card(West, card('J', Suit::Spades)).unwrap();
    deal_1.insert_card(North, card('2', Suit::Hearts)).unwrap();
    let i_s = ContractAgentInfoSetSimple::new(
        West,
        cards(&[card('K', Suit::Hearts)]),
        deal_1,
        Some(cards(&[card('T', Suit::Hearts)])),
    );
    assert!(i_s.possibly_has_card(West, &card('K', Suit::Hearts)));
    assert!(!i_s.possibly_has_card(West, &card('Q', Suit::Hearts)));
    assert!(i_s.possibly_has_card(East, &card('Q', Suit::Hearts)));
    assert!(!i_s.possibly_has_card(East, &card('K', Suit::Spades)));
    assert!(!i_s.possibly_has_card(North, &card('2', Suit::Spades)));
    assert!(i_s.possibly_has_card(North, &card('3', Suit::Hearts)));
    assert!(!i_s.possibly_has_card(North, &card('K', Suit::Hearts)));
    assert!(!i_s.possibly_has_card(North, &card('T', Suit::Hearts)));
    assert!(!i_s.possibly_has_card(South, &card('2', Suit::Spades)));
    assert!(i_s.possibly_has_card(South, &card('T', Suit::Hearts)));
    assert!(i_s.surely_has_card(South, &card('T', Suit::Hearts)));
    assert!(!i_s.surely_has_card(East, &card('Q', Suit::Hearts)));
}

#[test]
fn complete_env_refuses_ignored_called_suit() {
    let hand_north = cards(&[card('T', Suit::Clubs), card('A', Suit::Diamonds), card('Q', Suit::Hearts), card('Q', Suit::Spades)]);
    let hand_east = cards(&[card('4', Suit::Clubs), card('3', Suit::Diamonds), card('6', Suit::Hearts), card('8', Suit::Spades)]);
    let hand_south = cards(&[card('9', Suit::Clubs), card('6', Suit::Diamonds), card('T', Suit::Hearts), card('A', Suit::Spades)]);
    let hand_west = cards(&[card('6', Suit::Clubs), card('8', Suit::Diamonds), card('8', Suit::Hearts), card('J', Suit::Spades)]);
    let contract = Contract::new(params(North, Trump::Colored(Suit::Spades), 2));
    let mut state = ContractEnvStateComplete::new(contract, hand_north, hand_east, hand_south, hand_west);
    let updates = state.forward(East, PlaceCard(card('3', Suit::Diamonds))).unwrap();
    assert_eq!(updates[0].0, North);
    assert_eq!(updates[3].0, West);
    assert_eq!(*updates[2].1.side(), East);
    assert_eq!(*updates[2].1.action(), PlaceCard(card('3', Suit::Diamonds)));
    let r = state.forward(South, PlaceCard(card('9', Suit::Clubs)));
    assert_eq!(r, Err(BridgeCoreError::Contract(ContractError::IgnoredCalledSuit(South, Suit::Diamonds))));
    assert!(state.forward(South, PlaceCard(card('K', Suit::Clubs))).is_err());
    assert_eq!(state.current_player(), Some(South));
}
