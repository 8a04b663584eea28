use vstd::prelude::*;
use crate::bidding::Bid;
use crate::card_set::CardSetError;
use crate::cards::{Card, Suit};
use crate::player::Side;

verus! {

/// A pair of values where one was expected and another was found.
#[derive(Debug, Clone, Copy, PartialEq, Eq)]
pub struct Mismatch<T> {
    pub expected: T,
    pub found: T,
}

/// Reasons why a call is refused during the auction or why a bid cannot be built.
#[derive(Debug, Clone, Copy, PartialEq, Eq)]
pub enum BiddingError {
    IllegalBidNumber(u8),
    BidTooLow(Mismatch<Bid>),
    DoubleAfterDouble,
    DoubleAfterReDouble,
    DoubleOnSameAxis,
    DoubleOnVoidCall,
    ReDoubleAfterReDouble,
    ReDoubleOnSameAxis,
    ReDoubleOnVoidCall,
    ReDoubleWithoutDouble,
    ViolatedOrder(Mismatch<Side>),
}

/// Reasons why a card cannot be played in a contract.
#[derive(Debug, Clone, Copy, PartialEq, Eq)]
pub enum ContractError {
    /// All thirteen tricks have been played.
    ContractFull,
    /// A card was offered by a seat whose turn it is not.
    ViolatedOrder(Mismatch<Side>),
    /// The card has already been played in this contract.
    CardDuplicated(Card),
    /// The played card is not in the hand of the seat that played it.
    CardNotInHand(Side, Card),
    /// The seat did not follow the called suit though it holds a card of it.
    IgnoredCalledSuit(Side, Suit),
    /// The dummy showed cards other than the ones it holds.
    DummyCardSetMissmatch,
    /// The dummy showed its hand a second time.
    DummyShownTwice,
    /// A seat other than the dummy tried to show its hand.
    HandShownByNonDummy(Side),
    /// No card has been played, so none can be taken back.
    NothingToUndo,
}

/// Errors of the game as a whole.
#[derive(Debug, Clone, Copy, PartialEq, Eq)]
pub enum BridgeCoreError {
    Contract(ContractError),
    Hand(CardSetError),
    Bidding(BiddingError),
}

} // verus!
