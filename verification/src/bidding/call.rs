use vstd::prelude::*;
use crate::bidding::Bid;
use crate::player::Side;

verus! {

/// State of doubling of a contract.
#[derive(Debug, Clone, Copy, PartialEq, Eq, Structural, Hash)]
pub enum Doubling {
    NoDouble,
    Double,
    Redouble,
}

/// A call made during the auction.
#[derive(Debug, Clone, Copy, PartialEq, Eq)]
pub enum Call {
    NewBid(Bid),
    Double,
    Redouble,
    Pass,
}

/// A call together with the seat that made it.
#[derive(Debug, Clone, Copy, PartialEq, Eq)]
pub struct CallEntry {
    player_side: Side,
    call: Call,
}

impl CallEntry {
    pub closed spec fn side_spec(self) -> Side {
        self.player_side
    }

    pub closed spec fn call_spec(self) -> Call {
        self.call
    }

    pub fn new(player_side: Side, call: Call) -> (r: CallEntry)
        ensures
            r.side_spec() == player_side,
            r.call_spec() == call,
    {
        CallEntry { player_side, call }
    }

    pub fn player_side(&self) -> (r: Side)
        ensures
            r == self.side_spec(),
    {
        self.player_side
    }

    pub fn call(&self) -> (r: &Call)
        ensures
            *r == self.call_spec(),
    {
        &self.call
    }
}

} // verus!
