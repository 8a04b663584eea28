use vstd::prelude::*;
use crate::cards::{Suit, Trump, trump_index};
use crate::error::BiddingError;

verus! {

/// Lowest number of tricks above the book that can be bid.
pub const MIN_BID_NUMBER: u8 = 1;
/// Highest number of tricks above the book that can be bid.
pub const MAX_BID_NUMBER: u8 = 7;
/// Tricks of the book, added to the bid number to get the tricks to take.
pub const HALF_TRICKS: u8 = 6;

/// A bid: a trump and a number of tricks above the book (1 to 7).
/// Bids are ordered by number first and by trump second.
#[derive(Debug, Clone, Copy, PartialEq, Eq, Structural, Hash, PartialOrd, Ord)]
pub struct Bid {
    number: u8,
    trump: Trump,
}

/// Strict order of bids: a higher number, or the same number and a higher trump.
pub open spec fn bid_above(a: Bid, b: Bid) -> bool {
    a.number_spec() > b.number_spec() || (a.number_spec() == b.number_spec()
        && trump_index(a.trump_spec()) > trump_index(b.trump_spec()))
}

impl Bid {
    pub closed spec fn number_spec(self) -> u8 {
        self.number
    }

    pub closed spec fn trump_spec(self) -> Trump {
        self.trump
    }

    /// A bid is well formed when its number lies between 1 and 7.
    pub open spec fn wf(self) -> bool {
        MIN_BID_NUMBER <= self.number_spec() <= MAX_BID_NUMBER
    }

    /// Builds a bid; numbers outside `1..=7` are refused.
    pub fn init(trump: Trump, number: u8) -> (r: Result<Bid, BiddingError>)
        ensures
            MIN_BID_NUMBER <= number <= MAX_BID_NUMBER ==> (r matches Ok(b) && b.trump_spec()
                == trump && b.number_spec() == number),
            !(MIN_BID_NUMBER <= number <= MAX_BID_NUMBER) ==> r == Err::<Bid, BiddingError>(
                BiddingError::IllegalBidNumber(number),
            ),
    {
        if MIN_BID_NUMBER <= number && number <= MAX_BID_NUMBER {
            Ok(Bid { trump, number })
        } else {
            Err(BiddingError::IllegalBidNumber(number))
        }
    }

    pub fn trump(&self) -> (r: Trump)
        ensures
            r == self.trump_spec(),
    {
        self.trump
    }

    pub fn number(&self) -> (r: u8)
        ensures
            r == self.number_spec(),
    {
        self.number
    }

    /// Number of tricks the declaring side undertakes to take (bid number plus six).
    pub fn number_normalised(&self) -> (r: u8)
        requires
            self.wf(),
        ensures
            r == self.number_spec() + HALF_TRICKS,
    {
        self.number + HALF_TRICKS
    }

    /// Whether this bid is strictly higher than `other`.
    pub fn is_above(&self, other: &Bid) -> (r: bool)
        ensures
            r == bid_above(*self, *other),
    {
        self.number > other.number || (self.number == other.number && self.trump.index()
            > other.trump.index())
    }
}

/// The bid order is irreflexive.
pub proof fn bid_order_irreflexive(a: Bid)
    ensures
        !bid_above(a, a),
{
}

/// The bid order is transitive.
pub proof fn bid_order_transitive(a: Bid, b: Bid, c: Bid)
    requires
        bid_above(a, b),
        bid_above(b, c),
    ensures
        bid_above(a, c),
{
}

/// Of two different bids, exactly one is above the other.
pub proof fn bid_order_total(a: Bid, b: Bid)
    requires
        a != b,
    ensures
        bid_above(a, b) != bid_above(b, a),
{
    if a.number_spec() == b.number_spec() && trump_index(a.trump_spec()) == trump_index(
        b.trump_spec(),
    ) {
        assert(a.trump_spec() == b.trump_spec());
    }
}


/// Bids are ordered by level first.  At one level, no trump is above every
/// suit, and the suits rank clubs, diamonds, hearts, spades from lowest to
/// highest; a bid is never above one of the same level and trump.
pub proof fn bid_order_by_level_then_trump(a: Bid, b: Bid)
    ensures
        a.number_spec() > b.number_spec() ==> bid_above(a, b),
        a.number_spec() < b.number_spec() ==> !bid_above(a, b),
        a.number_spec() == b.number_spec() ==> (bid_above(a, b) <==> {
            let (x, y) = (a.trump_spec(), b.trump_spec());
            ||| x is NoTrump && y is Colored
            ||| x == Trump::Colored(Suit::Spades) && y is Colored && y != Trump::Colored(Suit::Spades)
            ||| x == Trump::Colored(Suit::Hearts) && (y == Trump::Colored(Suit::Diamonds) || y == Trump::Colored(Suit::Clubs))
            ||| x == Trump::Colored(Suit::Diamonds) && y == Trump::Colored(Suit::Clubs)
        }),
{
}

} // verus!
