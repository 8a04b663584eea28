use brydz_core::bidding::Bid;
use brydz_core::card_set::CardSet;
use brydz_core::cards::{Card, Figure, Suit, Trump};
use brydz_core::contract::{Contract, ContractParametersGen};
use brydz_core::player::Side;
use brydz_core::player::SideMap;
use brydz_core::state::ContractAction::PlaceCard;
use brydz_core::state::{
    ContractAgentInfoSetAllKnowing, ContractAgentInfoSetSimple, ContractInformationSet, ContractStateUpdate,
    HISTORY_ROW,
};

fn figure_of(ch: char) -> Figure {
    match ch {
        '2' => Figure::Two,
        '3' => Figure::Three,
        '4' => Figure::Four,
        '5' => Figure::Five,
        '6' => Figure::Six,
        '7' => Figure::Seven,
        '8' => Figure::Eight,
        '9' => Figure::Nine,
        'T' => Figure::Ten,
        'J' => Figure::Jack,
        'Q' => Figure::Queen,
        'K' => Figure::King,
        'A' => Figure::Ace,
        _ => panic!("no figure {ch}"),
    }
}

/// A hand written suit by suit: spades, hearts, diamonds, clubs, separated by dots.
fn hand(text: &str) -> CardSet {
    let suits = [Suit::Spades, Suit::Hearts, Suit::Diamonds, Suit::Clubs];
    let mut set = CardSet::empty();
    for (i, part) in text.split('.').enumerate() {
        for ch in part.chars() {
            set.insert_card(Card::new(figure_of(ch), suits[i])).unwrap();
        }
    }
    set
}

fn contract_after_two_spades() -> Contract {
    let mut contract = Contract::new(ContractParametersGen::new(
        Side::West,
        Bid::init(Trump::Colored(Suit::Hearts), 1).unwrap(),
    ));
    contract.insert_card(Side::North, Card::new(Figure::King, Suit::Spades)).unwrap();
    contract.insert_card(Side::East, Card::new(Figure::Two, Suit::Spades)).unwrap();
    contract
}

fn expected_south_mask() -> Vec<bool> {
    vec![
        false, false, false, false, false, false, false, false, false, false, false, false, false,
        false, false, false, false, false, false, false, false, false, false, false, false, false,
        false, false, false, false, false, false, false, false, false, false, false, false, false,
        false, false, false, false, true, false, true, false, true, false, false, false, true,
    ]
}

#[test]
fn all_knowing_mask_follows_suit() {
    let south_deck = hand("AT86.KJT93.4T.2A");
    let south_info_set = ContractAgentInfoSetAllKnowing::new(
        Side::South,
        SideMap {
            north: hand("KQJ.87.832.JT843"),
            east: hand("932.A42.KQ976.K9"),
            south: south_deck,
            west: hand("754.Q65.AJ5.Q765"),
        },
        contract_after_two_spades(),
    );
    assert!(south_info_set.is_action_valid(&PlaceCard(Card::new(Figure::Ace, Suit::Spades))));
    assert!(!south_info_set.is_action_valid(&PlaceCard(Card::new(Figure::King, Suit::Hearts))));
    assert_eq!(south_info_set.try_build_mask(), expected_south_mask());
    let info = ContractInformationSet::AllKnowing(south_info_set);
    assert_eq!(info.try_build_mask(), expected_south_mask());
    assert_eq!(*info.agent_id(), Side::South);
}

#[test]
fn simple_mask_and_history_rows() {
    let south = ContractAgentInfoSetSimple::new(Side::South, hand("AT86.KJT93.4T.2A"), contract_after_two_spades(), None);
    assert_eq!(south.try_build_mask(), expected_south_mask());
    let mut info = ContractInformationSet::Simple(south.clone());
    assert!(info.is_action_valid(&PlaceCard(Card::new(Figure::Six, Suit::Spades))));
    info.update(ContractStateUpdate::new(Side::South, PlaceCard(Card::new(Figure::Six, Suit::Spades)))).unwrap();

    let params = south.contract_params();
    assert_eq!(params.len(), HISTORY_ROW);
    assert_eq!(&params[0..3], &[1, 1, 2]);
    assert!(params[3..].iter().all(|v| *v == 0));
    let own = south.actual_cards();
    assert_eq!(own[51], 1);
    assert_eq!(own[52], 1);
    assert_eq!(own.iter().filter(|v| **v == 1).count(), 14);
    assert!(south.actual_dummy_cards().iter().all(|v| *v == 0));
    // trick 0 is the current one; North, two seats after South, led the king of spades
    let row = south.trick_cards(0, 2);
    assert_eq!(row[50], 1);
    assert_eq!(row[52], 1);
    assert_eq!(row.iter().filter(|v| **v == 1).count(), 2);
    assert!(south.trick_cards(0, 0).iter().all(|v| *v == 0));
    assert!(south.trick_cards(3, 2).iter().all(|v| *v == 0));
}

#[test]
fn information_sets_renew() {
    let p = ContractParametersGen::new(Side::North, Bid::init(Trump::NoTrump, 2).unwrap());
    let cards = SideMap {
        north: hand("KQJ.87.832.JT843"),
        east: hand("932.A42.KQ976.K9"),
        south: hand("AT86.KJT93.4T.2A"),
        west: hand("754.Q65.AJ5.Q765"),
    };
    let mut simple = ContractAgentInfoSetSimple::new(Side::South, CardSet::empty(), contract_after_two_spades(), Some(CardSet::empty()));
    simple.renew_from(Side::East, &p, &cards);
    assert_eq!(simple.id(), Side::East);
    assert_eq!(*simple.hand(), cards.east);
    assert!(simple.dummy_hand().is_none());
    assert_eq!(simple.contract_data().count_completed_tricks(), 0);
    let mut info = ContractInformationSet::AllKnowing(ContractAgentInfoSetAllKnowing::new(Side::South, cards, contract_after_two_spades()));
    info.renew_from(Side::West, &p, &cards);
    assert_eq!(*info.agent_id(), Side::West);
}
