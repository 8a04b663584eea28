use vstd::prelude::*;
use crate::bidding::{Bid, Doubling};
use crate::error::BiddingError;
use crate::player::{PlayRole, Side, role_at, role_index, side_at, side_index, side_distance};

verus! {

/// Parameters of a contract fixed by the auction: the declarer, the final bid
/// and the doubling state.
#[derive(Debug, Clone, Copy, PartialEq, Eq)]
pub struct ContractParametersGen {
    declarer: Side,
    bid: Bid,
    doubling: Doubling,
}

pub type ContractParameters = ContractParametersGen;

impl ContractParametersGen {
    pub closed spec fn declarer_spec(self) -> Side {
        self.declarer
    }

    pub closed spec fn bid_spec(self) -> Bid {
        self.bid
    }

    pub closed spec fn doubling_spec(self) -> Doubling {
        self.doubling
    }

    pub fn new_d(owner: Side, bid: Bid, doubling: Doubling) -> (r: Self)
        ensures
            r.declarer_spec() == owner,
            r.bid_spec() == bid,
            r.doubling_spec() == doubling,
    {
        ContractParametersGen { bid, doubling, declarer: owner }
    }

    /// Undoubled contract.
    pub fn new(player: Side, bid: Bid) -> (r: Self)
        ensures
            r.declarer_spec() == player,
            r.bid_spec() == bid,
            r.doubling_spec() == Doubling::NoDouble,
    {
        ContractParametersGen { declarer: player, bid, doubling: Doubling::NoDouble }
    }

    pub fn bid(&self) -> (r: &Bid)
        ensures
            *r == self.bid_spec(),
    {
        &self.bid
    }

    pub fn doubling(&self) -> (r: Doubling)
        ensures
            r == self.doubling_spec(),
    {
        self.doubling
    }

    pub fn declarer(&self) -> (r: Side)
        ensures
            r == self.declarer_spec(),
    {
        self.declarer
    }

    /// The seat after the declarer, who leads the first trick.
    pub fn whist(&self) -> (r: Side)
        ensures
            r == side_at(side_index(self.declarer_spec()) + 1),
    {
        self.declarer.next()
    }

    /// The declarer's partner.
    pub fn dummy(&self) -> (r: Side)
        ensures
            r == side_at(side_index(self.declarer_spec()) + 2),
    {
        self.declarer.next_i(2)
    }

    /// The seat before the declarer.
    pub fn offside(&self) -> (r: Side)
        ensures
            r == side_at(side_index(self.declarer_spec()) + 3),
    {
        self.declarer.next_i(3)
    }

    /// Doubles an undoubled contract; a doubled or redoubled one is refused.
    pub fn double(&mut self) -> (r: Result<(), BiddingError>)
        ensures
            old(self).doubling_spec() == Doubling::NoDouble ==> r is Ok
                && final(self).doubling_spec() == Doubling::Double,
            old(self).doubling_spec() == Doubling::Double ==> r == Err::<(), BiddingError>(
                BiddingError::DoubleAfterDouble,
            ),
            old(self).doubling_spec() == Doubling::Redouble ==> r == Err::<(), BiddingError>(
                BiddingError::DoubleAfterReDouble,
            ),
            r is Err ==> *final(self) == *old(self),
            final(self).declarer_spec() == old(self).declarer_spec(),
            final(self).bid_spec() == old(self).bid_spec(),
    {
        match self.doubling {
            Doubling::NoDouble => {
                self.doubling = Doubling::Double;
                Ok(())
            },
            Doubling::Double => Err(BiddingError::DoubleAfterDouble),
            Doubling::Redouble => Err(BiddingError::DoubleAfterReDouble),
        }
    }

    /// Redoubles a doubled contract; other contracts are refused.
    pub fn redouble(&mut self) -> (r: Result<(), BiddingError>)
        ensures
            old(self).doubling_spec() == Doubling::Double ==> r is Ok
                && final(self).doubling_spec() == Doubling::Redouble,
            old(self).doubling_spec() == Doubling::Redouble ==> r == Err::<(), BiddingError>(
                BiddingError::ReDoubleAfterReDouble,
            ),
            old(self).doubling_spec() == Doubling::NoDouble ==> r == Err::<(), BiddingError>(
                BiddingError::ReDoubleWithoutDouble,
            ),
            r is Err ==> *final(self) == *old(self),
            final(self).declarer_spec() == old(self).declarer_spec(),
            final(self).bid_spec() == old(self).bid_spec(),
    {
        match self.doubling {
            Doubling::Double => {
                self.doubling = Doubling::Redouble;
                Ok(())
            },
            Doubling::Redouble => Err(BiddingError::ReDoubleAfterReDouble),
            Doubling::NoDouble => Err(BiddingError::ReDoubleWithoutDouble),
        }
    }

    /// Role of a seat in this contract: the number of clockwise steps from the
    /// declarer selects Declarer, Whist, Dummy or Offside.
    pub fn map_side_to_role(&self, side: Side) -> (r: PlayRole)
        ensures
            r == role_at(side_distance(side, self.declarer_spec()) as int),
    {
        let i = side.distance_from(self.declarer);
        PlayRole::Declarer.next_i(i)
    }

    /// Seat that plays a role in this contract.
    pub fn map_role_to_side(&self, role: PlayRole) -> (r: Side)
        ensures
            r == side_at(side_index(self.declarer_spec()) + role_index(role)),
    {
        let i = role.index();
        self.declarer.next_i(i)
    }
}

/// Mapping a role to its seat and back gives the role again.
pub proof fn role_side_round_trip(params: ContractParametersGen, role: PlayRole)
    ensures
        role_at(side_distance(side_at(side_index(params.declarer_spec()) + role_index(role)),
            params.declarer_spec()) as int) == role,
{
}

/// Mapping a seat to its role and back gives the seat again.
pub proof fn side_role_round_trip(params: ContractParametersGen, side: Side)
    ensures
        side_at(side_index(params.declarer_spec()) + role_index(
            role_at(side_distance(side, params.declarer_spec()) as int),
        )) == side,
{
}

} // verus!
