use brydz_core::bidding::{AuctionStack, Bid, Call, Doubling};
use brydz_core::cards::{Suit, Trump};
use brydz_core::contract::ContractParametersGen;
use brydz_core::error::{BiddingError, Mismatch};
use brydz_core::player::Side::{East, North, South, West};

fn bid(trump: Trump, number: u8) -> Bid {
    Bid::init(trump, number).unwrap()
}

fn clubs(number: u8) -> Bid {
    bid(Trump::Colored(Suit::Clubs), number)
}

#[test]
fn add_bids_legal() {
    let mut auction_stack = AuctionStack::new();
    auction_stack.add_contract_bid(East, Call::Pass).unwrap();
    auction_stack.add_contract_bid(South, Call::Pass).unwrap();
    assert_eq!(auction_stack.current_contract(), None);
    auction_stack.add_contract_bid(West, Call::NewBid(clubs(1))).unwrap();
    assert_eq!(
        auction_stack.current_contract(),
        Some(&ContractParametersGen::new_d(West, clubs(1), Doubling::NoDouble))
    );
    auction_stack
        .add_contract_bid(North, Call::NewBid(bid(Trump::Colored(Suit::Diamonds), 1)))
        .unwrap();
    assert_eq!(
        auction_stack.current_contract(),
        Some(&ContractParametersGen::new_d(North, bid(Trump::Colored(Suit::Diamonds), 1), Doubling::NoDouble))
    );
    auction_stack.add_contract_bid(East, Call::Pass).unwrap();
    auction_stack
        .add_contract_bid(South, Call::NewBid(bid(Trump::Colored(Suit::Diamonds), 2)))
        .unwrap();
    assert_eq!(
        auction_stack.current_contract(),
        Some(&ContractParametersGen::new_d(North, bid(Trump::Colored(Suit::Diamonds), 2), Doubling::NoDouble))
    );
    auction_stack.add_contract_bid(West, Call::Double).unwrap();
    assert_eq!(
        auction_stack.current_contract(),
        Some(&ContractParametersGen::new_d(North, bid(Trump::Colored(Suit::Diamonds), 2), Doubling::Double))
    );
    auction_stack.add_contract_bid(North, Call::Redouble).unwrap();
    assert_eq!(
        auction_stack.current_contract(),
        Some(&ContractParametersGen::new_d(North, bid(Trump::Colored(Suit::Diamonds), 2), Doubling::Redouble))
    );
}

#[test]
fn violate_auction_order() {
    let mut auction_stack = AuctionStack::new();
    auction_stack.add_contract_bid(West, Call::NewBid(clubs(1))).unwrap();
    assert_eq!(
        auction_stack.current_contract(),
        Some(&ContractParametersGen::new_d(West, clubs(1), Doubling::NoDouble))
    );
    let r = auction_stack.add_contract_bid(South, Call::NewBid(clubs(1)));
    assert_eq!(r, Err(BiddingError::ViolatedOrder(Mismatch { expected: North, found: South })));
}

#[test]
fn double_after_double() {
    let mut auction_stack = AuctionStack::new();
    auction_stack.add_contract_bid(West, Call::NewBid(clubs(1))).unwrap();
    assert_eq!(
        auction_stack.current_contract(),
        Some(&ContractParametersGen::new_d(West, clubs(1), Doubling::NoDouble))
    );
    auction_stack.add_contract_bid(North, Call::Double).unwrap();
    auction_stack.add_contract_bid(East, Call::Pass).unwrap();
    let r = auction_stack.add_contract_bid(South, Call::Double);
    assert_eq!(r, Err(BiddingError::DoubleAfterDouble));
}

#[test]
fn redouble_after_redouble() {
    let mut auction_stack = AuctionStack::new();
    auction_stack.add_contract_bid(West, Call::NewBid(clubs(1))).unwrap();
    assert_eq!(
        auction_stack.current_contract(),
        Some(&ContractParametersGen::new_d(West, clubs(1), Doubling::NoDouble))
    );
    auction_stack.add_contract_bid(North, Call::Double).unwrap();
    auction_stack.add_contract_bid(East, Call::Redouble).unwrap();
    auction_stack.add_contract_bid(South, Call::Pass).unwrap();
    let r = auction_stack.add_contract_bid(West, Call::Redouble);
    assert_eq!(r, Err(BiddingError::ReDoubleAfterReDouble));
}

#[test]
fn double_after_redouble() {
    let mut auction_stack = AuctionStack::new();
    auction_stack.add_contract_bid(West, Call::NewBid(clubs(1))).unwrap();
    assert_eq!(
        auction_stack.current_contract(),
        Some(&ContractParametersGen::new_d(West, clubs(1), Doubling::NoDouble))
    );
    auction_stack.add_contract_bid(North, Call::Double).unwrap();
    auction_stack.add_contract_bid(East, Call::Redouble).unwrap();
    let r = auction_stack.add_contract_bid(South, Call::Double);
    assert_eq!(r, Err(BiddingError::DoubleAfterReDouble));
}

#[test]
fn redouble_without_double() {
    let mut auction_stack = AuctionStack::new();
    auction_stack.add_contract_bid(West, Call::NewBid(clubs(1))).unwrap();
    assert_eq!(
        auction_stack.current_contract(),
        Some(&ContractParametersGen::new_d(West, clubs(1), Doubling::NoDouble))
    );
    let r = auction_stack.add_contract_bid(North, Call::Redouble);
    assert_eq!(r, Err(BiddingError::ReDoubleWithoutDouble));
}

#[test]
fn bid_too_low() {
    let mut auction_stack = AuctionStack::new();
    auction_stack.add_contract_bid(West, Call::NewBid(clubs(2))).unwrap();
    let r = auction_stack.add_contract_bid(North, Call::NewBid(bid(Trump::Colored(Suit::Diamonds), 1)));
    assert_eq!(
        r,
        Err(BiddingError::BidTooLow(Mismatch { expected: clubs(2), found: bid(Trump::Colored(Suit::Diamonds), 1) }))
    );
}

#[test]
fn declarer_simple() {
    let mut auction_stack = AuctionStack::new();
    auction_stack.add_contract_bid(West, Call::NewBid(clubs(1))).unwrap();
    auction_stack.add_contract_bid(North, Call::NewBid(clubs(2))).unwrap();
    auction_stack.add_contract_bid(East, Call::NewBid(bid(Trump::Colored(Suit::Spades), 2))).unwrap();
    assert_eq!(auction_stack.current_contract().unwrap().declarer(), East);
}

#[test]
fn declarer_partner() {
    let mut auction_stack = AuctionStack::new();
    auction_stack.add_contract_bid(West, Call::NewBid(clubs(1))).unwrap();
    auction_stack.add_contract_bid(North, Call::NewBid(clubs(2))).unwrap();
    auction_stack.add_contract_bid(East, Call::NewBid(clubs(3))).unwrap();
    assert_eq!(auction_stack.current_contract().unwrap().declarer(), West);
}
