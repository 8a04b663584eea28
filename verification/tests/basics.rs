use brydz_core::bidding::parser::{parse_bid, parse_nt, parse_nt_delimited, parse_trump, parse_trump_colored, ParseError, ParseErrorKind};
use brydz_core::bidding::{AuctionStack, AuctionStatus, Bid, Call, DeclarationStorage, Doubling, GeneralDeclarationStorage};
use brydz_core::card_set::{CardSet, CardSetError};
use brydz_core::cards::{Card, Figure, Suit, Trump};
use brydz_core::contract::suit_exhaust::SuitExhaust;
use brydz_core::contract::{ContractParametersGen, NoTrumpTrickSolver, SmartTrickSolver, Trick, TrickError, TrumpTrickSolver};
use brydz_core::deal::{deal_in_rotation, distribute_standard_deck_on_4, fair_bridge_deal, fair_bridge_partial_deal, standard_deck, ContractGameDescription};
use brydz_core::deck::Deck;
use brydz_core::error::{BiddingError, Mismatch};
use brydz_core::player::Side::{East, North, South, West};
use brydz_core::player::{Axis, PlayRole, Side, SideMap};

use rand::rngs::StdRng;
use rand::SeedableRng;

fn card(figure: Figure, suit: Suit) -> Card {
    Card::new(figure, suit)
}

#[test]
fn parse_no_trump_words() {
    assert_eq!(parse_nt("nt "), Ok((2, Trump::NoTrump)));
    assert_eq!(parse_nt("notrump"), Ok((7, Trump::NoTrump)));
    assert_eq!(parse_nt("n"), Ok((1, Trump::NoTrump)));
    assert_eq!(parse_nt("NO_TRUMP"), Ok((8, Trump::NoTrump)));
    assert_eq!(parse_nt("x"), Err(ParseError { position: 0, kind: ParseErrorKind::Tag }));
    assert_eq!(parse_nt_delimited("\tnt \t"), Ok((5, Trump::NoTrump)));
    assert_eq!(parse_nt_delimited("  notrump\t"), Ok((10, Trump::NoTrump)));
    assert_eq!(parse_nt_delimited("  n "), Ok((4, Trump::NoTrump)));
    assert_eq!(parse_nt_delimited("  x"), Err(ParseError { position: 2, kind: ParseErrorKind::Tag }));
}

#[test]
fn parse_trumps() {
    assert_eq!(parse_trump_colored("hjik"), Ok((1, Trump::Colored(Suit::Hearts))));
    assert_eq!(parse_trump_colored("spadesorsth"), Ok((6, Trump::Colored(Suit::Spades))));
    assert_eq!(parse_trump("hjik"), Ok((1, Trump::Colored(Suit::Hearts))));
    assert_eq!(parse_trump("notrump\t"), Ok((7, Trump::NoTrump)));
    assert_eq!(parse_nt("notrump\t"), Ok((7, Trump::NoTrump)));
    assert!(parse_trump_colored("nt").is_err());
}

#[test]
fn parse_suit_words_and_symbols() {
    assert_eq!(parse_trump("Diax!"), Ok((4, Trump::Colored(Suit::Diamonds))));
    assert_eq!(parse_trump("DIAMONDS"), Ok((8, Trump::Colored(Suit::Diamonds))));
    assert_eq!(parse_trump("dia"), Ok((1, Trump::Colored(Suit::Diamonds))));
    assert_eq!(parse_trump_colored("ClubsX"), Ok((5, Trump::Colored(Suit::Clubs))));
    assert_eq!(parse_trump_colored("sh"), Ok((1, Trump::Colored(Suit::Spades))));
    assert_eq!(parse_trump_colored("\u{2660}K"), Ok((3, Trump::Colored(Suit::Spades))));
    assert_eq!(parse_trump_colored("\u{2661}"), Ok((3, Trump::Colored(Suit::Hearts))));
    assert_eq!(parse_trump_colored("n"), Err(ParseError { position: 0, kind: ParseErrorKind::Tag }));
    assert_eq!(parse_trump_colored(""), Err(ParseError { position: 0, kind: ParseErrorKind::Tag }));
    assert_eq!(parse_trump("\u{e9}"), Err(ParseError { position: 0, kind: ParseErrorKind::Tag }));
    assert_eq!(parse_bid("5 \u{2663}"), Ok((5, Bid::init(Trump::Colored(Suit::Clubs), 5).unwrap())));
    assert_eq!(parse_bid("1S"), Ok((2, Bid::init(Trump::Colored(Suit::Spades), 1).unwrap())));
}

#[test]
fn parse_bids() {
    assert_eq!(parse_bid("3c"), Ok((2, Bid::init(Trump::Colored(Suit::Clubs), 3).unwrap())));
    assert_eq!(parse_bid("7nt "), Ok((3, Bid::init(Trump::NoTrump, 7).unwrap())));
    assert_eq!(parse_bid("2 hearts"), Ok((8, Bid::init(Trump::Colored(Suit::Hearts), 2).unwrap())));
    assert_eq!(parse_bid("0hearts"), Err(ParseError { position: 0, kind: ParseErrorKind::Digit }));
    assert_eq!(parse_bid("q2spades"), Err(ParseError { position: 0, kind: ParseErrorKind::Digit }));
    assert_eq!(parse_bid("8spades"), Err(ParseError { position: 0, kind: ParseErrorKind::Digit }));
    assert_eq!(parse_bid("h"), Err(ParseError { position: 0, kind: ParseErrorKind::Digit }));
    assert_eq!(parse_bid("3x"), Err(ParseError { position: 1, kind: ParseErrorKind::Tag }));
}

#[test]
fn bid_order() {
    let bid1 = Bid::init(Trump::NoTrump, 2).unwrap();
    let bid2 = Bid::init(Trump::Colored(Suit::Spades), 3).unwrap();
    let bid3 = Bid::init(Trump::Colored(Suit::Clubs), 3).unwrap();
    let bid4 = Bid::init(Trump::Colored(Suit::Hearts), 4).unwrap();
    let bid5 = Bid::init(Trump::Colored(Suit::Diamonds), 2).unwrap();
    assert!(bid1 < bid2);
    assert!(bid2 > bid3);
    assert!(bid2 < bid4);
    assert!(bid1 > bid5);
    assert!(bid2.is_above(&bid3));
    assert!(!bid3.is_above(&bid2));
    assert!(!bid3.is_above(&bid3));
    assert_eq!(Bid::init(Trump::NoTrump, 8), Err(BiddingError::IllegalBidNumber(8)));
    assert_eq!(Bid::init(Trump::NoTrump, 0), Err(BiddingError::IllegalBidNumber(0)));
    assert_eq!(bid4.number(), 4);
    assert_eq!(bid4.number_normalised(), 10);
    assert_eq!(bid4.trump(), Trump::Colored(Suit::Hearts));
}

#[test]
fn auction_ends_after_three_passes() {
    let mut auction = AuctionStack::new();
    assert_eq!(auction.add_contract_bid(North, Call::NewBid(Bid::init(Trump::NoTrump, 1).unwrap())), Ok(AuctionStatus::Running(East)));
    assert_eq!(auction.add_contract_bid(East, Call::Pass), Ok(AuctionStatus::Running(South)));
    assert_eq!(auction.add_contract_bid(South, Call::Pass), Ok(AuctionStatus::Running(West)));
    assert_eq!(auction.last_passes(), 2);
    assert_eq!(auction.add_contract_bid(West, Call::Pass), Ok(AuctionStatus::Finished));
    assert_eq!(auction.current_bid(), Some(Bid::init(Trump::NoTrump, 1).unwrap()));
    assert_eq!(auction.current_contract().unwrap().declarer(), North);
}

#[test]
fn long_run_of_passes_keeps_the_auction_finished() {
    let mut auction = AuctionStack::new();
    auction.add_contract_bid(North, Call::NewBid(Bid::init(Trump::NoTrump, 1).unwrap())).unwrap();
    let mut side = East;
    assert_eq!(auction.add_contract_bid(side, Call::Pass), Ok(AuctionStatus::Running(South)));
    side = South;
    assert_eq!(auction.add_contract_bid(side, Call::Pass), Ok(AuctionStatus::Running(West)));
    side = West;
    for _ in 0..300 {
        assert_eq!(auction.add_contract_bid(side, Call::Pass), Ok(AuctionStatus::Finished));
        side = side.next();
    }
    assert_eq!(auction.add_contract_bid(side.next(), Call::Pass), Err(BiddingError::ViolatedOrder(Mismatch { expected: side, found: side.next() })));
}

#[test]
fn double_of_partner_is_refused() {
    let mut auction = AuctionStack::new();
    auction.add_contract_bid(North, Call::NewBid(Bid::init(Trump::NoTrump, 1).unwrap())).unwrap();
    auction.add_contract_bid(East, Call::Pass).unwrap();
    assert_eq!(auction.add_contract_bid(South, Call::Double), Err(BiddingError::DoubleOnSameAxis));
}

#[test]
fn declaration_storage_remembers_first_declarer() {
    let mut storage = GeneralDeclarationStorage::new();
    assert_eq!(storage.get_declarer(Axis::NorthSouth, &Trump::NoTrump), None);
    storage.set_declarer(South, Trump::NoTrump);
    assert_eq!(storage.get_declarer(Axis::NorthSouth, &Trump::NoTrump), Some(South));
    assert_eq!(storage.get_declarer(Axis::EastWest, &Trump::NoTrump), None);
}

#[test]
fn trump_solver_winner() {
    let mut trick1 = Trick::new(North);
    trick1.insert_card(North, card(Figure::Queen, Suit::Hearts)).unwrap();
    trick1.insert_card(East, card(Figure::Two, Suit::Clubs)).unwrap();
    trick1.insert_card(South, card(Figure::Ace, Suit::Spades)).unwrap();
    assert_eq!(TrumpTrickSolver::new(Suit::Hearts).winner(&trick1), Err(TrickError::MissingCard(West)));
    trick1.insert_card(West, card(Figure::Ten, Suit::Spades)).unwrap();
    assert_eq!(TrumpTrickSolver::new(Suit::Hearts).winner(&trick1), Ok(North));
    assert_eq!(TrumpTrickSolver::new(Suit::Spades).winner(&trick1), Ok(South));
}

#[test]
fn trump_solver_leader() {
    let mut trick1 = Trick::new(North);
    trick1.insert_card(North, card(Figure::Queen, Suit::Hearts)).unwrap();
    trick1.insert_card(East, card(Figure::Ace, Suit::Clubs)).unwrap();
    trick1.insert_card(South, card(Figure::King, Suit::Hearts)).unwrap();
    assert!(TrumpTrickSolver::new(Suit::Hearts).does_beat_leader(&trick1, &card(Figure::Ace, Suit::Hearts)));
    assert!(!TrumpTrickSolver::new(Suit::Hearts).does_beat_leader(&trick1, &card(Figure::Jack, Suit::Hearts)));
    assert!(!TrumpTrickSolver::new(Suit::Hearts).does_beat_leader(&trick1, &card(Figure::Ace, Suit::Spades)));
    trick1.insert_card(West, card(Figure::Ten, Suit::Spades)).unwrap();
    assert_eq!(TrumpTrickSolver::new(Suit::Hearts).leader(&trick1), Some(South));
    assert_eq!(TrumpTrickSolver::new(Suit::Clubs).leader(&trick1), Some(East));
    assert_eq!(TrumpTrickSolver::new(Suit::Spades).leader(&trick1), Some(West));
    assert_eq!(TrumpTrickSolver::new(Suit::Diamonds).leader(&trick1), Some(South));
}

#[test]
fn no_trump_solver() {
    let mut trick1 = Trick::new(North);
    assert_eq!(NoTrumpTrickSolver::new().leader(&trick1), None);
    trick1.insert_card(North, card(Figure::Queen, Suit::Hearts)).unwrap();
    trick1.insert_card(East, card(Figure::Two, Suit::Clubs)).unwrap();
    trick1.insert_card(South, card(Figure::Ace, Suit::Spades)).unwrap();
    assert_eq!(NoTrumpTrickSolver::new().winner(&trick1), Err(TrickError::MissingCard(West)));
    assert!(NoTrumpTrickSolver::new().does_beat_leader(&trick1, &card(Figure::Ace, Suit::Hearts)));
    assert!(!NoTrumpTrickSolver::new().does_beat_leader(&trick1, &card(Figure::Jack, Suit::Hearts)));
    trick1.insert_card(West, card(Figure::Ten, Suit::Spades)).unwrap();
    assert_eq!(NoTrumpTrickSolver::new().winner(&trick1), Ok(North));
    trick1.undo().unwrap();
    trick1.insert_card(West, card(Figure::King, Suit::Hearts)).unwrap();
    assert_eq!(NoTrumpTrickSolver::new().winner(&trick1), Ok(West));
    assert_eq!(SmartTrickSolver::new(Trump::NoTrump).winner(&trick1), Ok(West));
    assert_eq!(SmartTrickSolver::new(Trump::Colored(Suit::Clubs)).winner(&trick1), Ok(East));
}

#[test]
fn trick_refuses_bad_cards() {
    let mut trick = Trick::new(South);
    assert_eq!(trick.undo(), Err(TrickError::TrickEmpty));
    assert_eq!(
        trick.insert_card(North, card(Figure::Two, Suit::Clubs)),
        Err(TrickError::ViolatedOrder(Mismatch { expected: South, found: North }))
    );
    assert_eq!(trick.insert_card(South, card(Figure::Two, Suit::Clubs)), Ok(West));
    assert_eq!(trick.insert_card(West, card(Figure::Two, Suit::Clubs)), Err(TrickError::CardDuplicated(card(Figure::Two, Suit::Clubs))));
    assert_eq!(trick.called_suit(), Some(Suit::Clubs));
    assert_eq!(trick.card_of_side(South), Some(card(Figure::Two, Suit::Clubs)));
    assert_eq!(trick.card_of_side(West), None);
}

#[test]
fn fair_deals() {
    let table = fair_bridge_deal();
    assert_eq!(table.north.len(), 13);
    assert_eq!(table.east.len(), 13);
    assert_eq!(table.west.len(), 13);
    assert_eq!(table.south.len(), 13);
    for c in standard_deck() {
        let holders = [table.north, table.east, table.south, table.west].iter().filter(|h| h.contains(&c)).count();
        assert_eq!(holders, 1);
    }
}

fn honours() -> Vec<Card> {
    let mut v = Vec::new();
    for f in [Figure::Ace, Figure::King, Figure::Queen] {
        for s in [Suit::Spades, Suit::Hearts, Suit::Diamonds, Suit::Clubs] {
            v.push(card(f, s));
        }
    }
    v
}

#[test]
fn fair_partial_deals() {
    let hands = fair_bridge_partial_deal(honours(), North);
    assert_eq!(hands.get(North).len(), 3);
    assert_eq!(hands.get(West).len(), 3);
    let mut card_supply = honours();
    card_supply.pop();
    card_supply.pop();
    let hands = fair_bridge_partial_deal(card_supply.clone(), North);
    assert_eq!(hands.get(North).len(), 2);
    assert_eq!(hands.get(West).len(), 3);
    assert_eq!(hands.get(South).len(), 3);
    assert_eq!(hands.get(East).len(), 2);
    card_supply.pop();
    let hands = fair_bridge_partial_deal(card_supply, North);
    assert_eq!(hands.get(West).len(), 3);
    assert_eq!(hands.get(South).len(), 2);
}

#[test]
fn deal_in_rotation_gives_every_fourth_card() {
    let deck = standard_deck();
    let hands = deal_in_rotation(&deck);
    // the standard deck goes by figures: the four twos first
    assert!(hands.north.contains(&card(Figure::Two, Suit::Clubs)));
    assert!(hands.east.contains(&card(Figure::Two, Suit::Diamonds)));
    assert!(hands.south.contains(&card(Figure::Two, Suit::Hearts)));
    assert!(hands.west.contains(&card(Figure::Two, Suit::Spades)));
    assert_eq!(hands.west.len(), 13);
}

#[test]
fn game_description() {
    let g = ContractGameDescription::new_fair_random();
    assert_eq!(g.parameters().declarer(), North);
    assert_eq!(*g.parameters().bid(), Bid::init(Trump::NoTrump, 1).unwrap());
    assert_eq!(g.cards().east.len(), 13);
    let p = ContractParametersGen::new(East, Bid::init(Trump::NoTrump, 2).unwrap());
    let g2 = ContractGameDescription::new(p, SideMap::new_symmetric(CardSet::empty()));
    assert_eq!(*g2.parameters(), p);
}

#[test]
fn decks_are_ordered() {
    let by_suits = Deck::new_sorted_by_suits();
    assert_eq!(*by_suits.at(0), card(Figure::Ace, Suit::Spades));
    assert_eq!(*by_suits.at(12), card(Figure::Two, Suit::Spades));
    assert_eq!(*by_suits.at(13), card(Figure::Ace, Suit::Hearts));
    assert_eq!(*by_suits.at(51), card(Figure::Two, Suit::Clubs));
    let by_figures = Deck::new_sorted_by_figures();
    assert_eq!(*by_figures.at(0), card(Figure::Ace, Suit::Spades));
    assert_eq!(*by_figures.at(1), card(Figure::Ace, Suit::Hearts));
    assert_eq!(*by_figures.at(4), card(Figure::King, Suit::Spades));
    assert_eq!(*by_figures.at(51), card(Figure::Two, Suit::Clubs));
    let mut shuffled = Deck::new_sorted_by_suits();
    shuffled.shuffle();
    assert_eq!(shuffled.cards().len(), 52);
    for c in by_suits.cards() {
        assert!(shuffled.cards().contains(c));
    }
}

#[test]
fn card_sets() {
    let mut set = CardSet::empty();
    assert_eq!(set.len(), 0);
    set.insert_card(card(Figure::King, Suit::Hearts)).unwrap();
    assert_eq!(set.insert_card(card(Figure::King, Suit::Hearts)), Err(CardSetError::CardDuplicated(card(Figure::King, Suit::Hearts))));
    assert!(set.contains_in_suit(&Suit::Hearts));
    assert!(!set.contains_in_suit(&Suit::Clubs));
    let mut other = CardSet::empty();
    other.insert_card(card(Figure::Two, Suit::Clubs)).unwrap();
    assert_eq!(set.union(&other).len(), 2);
    assert_eq!(set.intersection(&other).len(), 0);
    assert_eq!(set.union(&other).to_vec(), vec![card(Figure::Two, Suit::Clubs), card(Figure::King, Suit::Hearts)]);
    assert_eq!(set.remove_card(&card(Figure::Two, Suit::Clubs)), Err(CardSetError::CardNotInSet(card(Figure::Two, Suit::Clubs))));
    set.remove_card(&card(Figure::King, Suit::Hearts)).unwrap();
    assert_eq!(set, CardSet::empty());
}

#[test]
fn card_indices() {
    assert_eq!(card(Figure::Ace, Suit::Spades).index(), 51);
    assert_eq!(Card::from_index(14), Some(card(Figure::Three, Suit::Diamonds)));
    assert_eq!(Card::from_index(52), None);
    assert_eq!(Trump::NoTrump.index(), 4);
}

#[test]
fn suit_exhaust_register() {
    let mut e = SuitExhaust::new();
    assert!(!e.is_registered(&(North, Suit::Spades)));
    e.register((North, Suit::Spades));
    assert!(e.is_registered(&(North, Suit::Spades)));
    assert!(!e.is_registered(&(South, Suit::Spades)));
    e.unregister(&(North, Suit::Spades));
    assert!(!e.is_registered(&(North, Suit::Spades)));
}

#[test]
fn contract_parameters_roles_and_doubling() {
    let mut p = ContractParametersGen::new(East, Bid::init(Trump::Colored(Suit::Hearts), 3).unwrap());
    assert_eq!(p.whist(), South);
    assert_eq!(p.dummy(), West);
    assert_eq!(p.offside(), North);
    assert_eq!(p.map_side_to_role(West), PlayRole::Dummy);
    assert_eq!(p.map_role_to_side(PlayRole::Offside), North);
    assert_eq!(p.redouble(), Err(BiddingError::ReDoubleWithoutDouble));
    p.double().unwrap();
    assert_eq!(p.doubling(), Doubling::Double);
    assert_eq!(p.double(), Err(BiddingError::DoubleAfterDouble));
    p.redouble().unwrap();
    assert_eq!(p.doubling(), Doubling::Redouble);
    assert_eq!(p.redouble(), Err(BiddingError::ReDoubleAfterReDouble));
    assert_eq!(p.double(), Err(BiddingError::DoubleAfterReDouble));
}

#[test]
fn seats() {
    assert_eq!(North.next(), East);
    assert_eq!(North.prev(), West);
    assert_eq!(North.partner(), South);
    assert_eq!(West.next_i(2), East);
    assert_eq!(East.axis(), Axis::EastWest);
    assert_eq!(North.distance_from(East), 3);
    assert_eq!(Side::from_index(2), South);
    assert_eq!(PlayRole::Dummy.next_i(3), PlayRole::Whist);
}

#[test]
fn shuffle_rearranges_the_deck() {
    let sorted = Deck::new_sorted_by_suits();
    let mut shuffled = Deck::new_sorted_by_suits();
    shuffled.shuffle();
    // the chance that a shuffle keeps all 52 cards in place is 1 / 52!
    assert_ne!(shuffled.cards(), sorted.cards());
    let a = fair_bridge_deal();
    let b = fair_bridge_deal();
    assert_ne!(a, b);
}

#[test]
fn standard_deck_dealt_with_a_seeded_generator() {
    let mut rng1 = StdRng::seed_from_u64(42);
    let mut rng2 = StdRng::seed_from_u64(42);
    let deal1 = distribute_standard_deck_on_4(&mut rng1);
    let deal2 = distribute_standard_deck_on_4(&mut rng2);
    assert_eq!(deal1, deal2);
    assert_eq!(deal1.north.len(), 13);
    assert_eq!(deal1.east.len(), 13);
    assert_eq!(deal1.south.len(), 13);
    assert_eq!(deal1.west.len(), 13);
    let all = deal1.north.union(&deal1.east).union(&deal1.south).union(&deal1.west);
    assert_eq!(all.len(), 52);
    let next1 = distribute_standard_deck_on_4(&mut rng1);
    let next2 = distribute_standard_deck_on_4(&mut rng2);
    assert_eq!(next1, next2);
}
