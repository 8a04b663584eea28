use vstd::prelude::*;
use crate::bidding::{Bid, Call, CallEntry, DeclarationStorage, Doubling, GeneralDeclarationStorage, bid_above};
use crate::cards::Trump;
use crate::contract::ContractParametersGen;
use crate::error::{BiddingError, Mismatch};
use crate::player::{Axis, Side, side_at, side_axis, side_index};

verus! {

/// Whether the auction goes on (and whose call it is) or has ended.
#[derive(Debug, Clone, Copy, PartialEq, Eq)]
pub enum AuctionStatus {
    Running(Side),
    Finished,
}

/// Record of an auction: the calls made so far, the contract they currently
/// lead to and, for each partnership, who first named each trump.
#[derive(Debug, Clone)]
pub struct AuctionStack {
    calls_entries: Vec<CallEntry>,
    current_contract: Option<ContractParametersGen>,
    declaration_storage: GeneralDeclarationStorage,
}

/// Number of passes at the end of a sequence of calls.
pub open spec fn trailing_passes(calls: Seq<CallEntry>) -> nat
    decreases calls.len(),
{
    if calls.len() == 0 {
        0
    } else if calls.last().call_spec() is Pass {
        1 + trailing_passes(calls.drop_last())
    } else {
        0
    }
}

/// A recorded seat, if any, belongs to partnership `a`.
pub open spec fn axis_consistent(o: Option<Side>, a: Axis) -> bool {
    o matches Some(s) ==> side_axis(s) == a
}

/// The seat following `s` clockwise.
pub open spec fn next_side(s: Side) -> Side {
    side_at(side_index(s) + 1)
}

impl AuctionStack {
    pub closed spec fn calls(self) -> Seq<CallEntry> {
        self.calls_entries@
    }

    pub closed spec fn contract(self) -> Option<ContractParametersGen> {
        self.current_contract
    }

    /// Seat of partnership `a` that first named trump `t`, if any.
    pub closed spec fn declarer_of(self, a: Axis, t: Trump) -> Option<Side> {
        self.declaration_storage.declarer_of(a, t)
    }

    /// Internal consistency: a contract exists only after some call, and the
    /// recorded first namer of a trump belongs to the partnership it is kept for.
    pub open spec fn wf(self) -> bool {
        &&& self.contract() is Some ==> self.calls().len() > 0
        &&& forall|a: Axis, t: Trump| axis_consistent(#[trigger] self.declarer_of(a, t), a)
    }

    /// Seat expected to call next once the auction has a contract.
    pub open spec fn expected_side(self) -> Side {
        next_side(self.calls().last().side_spec())
    }

    /// The declarer that a new bid of `trump` by `side` yields: the partner who
    /// first named that trump, or `side` itself.
    pub open spec fn declarer_for(self, side: Side, trump: Trump) -> Side {
        match self.declarer_of(side_axis(side), trump) {
            Some(s) => s,
            None => side,
        }
    }

    /// `new` is `self` with the call of `side` appended.
    pub open spec fn appended(self, new: Self, side: Side, call: Call) -> bool {
        &&& new.calls().len() == self.calls().len() + 1
        &&& new.calls().drop_last() == self.calls()
        &&& new.calls().last().side_spec() == side
        &&& new.calls().last().call_spec() == call
    }

    pub open spec fn same_declarations(self, new: Self) -> bool {
        forall|a: Axis, t: Trump| #[trigger] new.declarer_of(a, t) == self.declarer_of(a, t)
    }

    /// `new` is `self` after `side` bid `bid`, which became the contract.
    pub open spec fn accepted_bid(self, new: Self, side: Side, bid: Bid) -> bool {
        &&& self.appended(new, side, Call::NewBid(bid))
        &&& new.contract() matches Some(p) && p.declarer_spec() == self.declarer_for(side, bid.trump_spec())
            && p.bid_spec() == bid && p.doubling_spec() == Doubling::NoDouble
        &&& forall|a: Axis, t: Trump| #[trigger] new.declarer_of(a, t) == if a == side_axis(side) && t
            == bid.trump_spec() && self.declarer_of(a, t) is None {
            Some(side)
        } else {
            self.declarer_of(a, t)
        }
    }

    /// `new` is `self` after `side` passed.
    pub open spec fn accepted_pass(self, new: Self, side: Side) -> bool {
        &&& self.appended(new, side, Call::Pass)
        &&& new.contract() == self.contract()
        &&& self.same_declarations(new)
    }

    /// `new` is `self` after `side` doubled or redoubled, reaching `doubling`.
    pub open spec fn accepted_doubling(self, new: Self, side: Side, call: Call, doubling: Doubling) -> bool {
        &&& self.appended(new, side, call)
        &&& self.same_declarations(new)
        &&& new.contract() matches Some(p) && self.contract() matches Some(q)
            && p.declarer_spec() == q.declarer_spec() && p.bid_spec() == q.bid_spec()
            && p.doubling_spec() == doubling
    }

    /// Outcome of the call `call` by `side` on the auction `self`: the
    /// result `r` and the auction `new` it leaves.
    pub open spec fn call_effect(self, new: Self, side: Side, call: Call, r: Result<AuctionStatus, BiddingError>) -> bool {
        &&& r is Err ==> new == self
        &&& match self.contract() {
        None => match call {
            Call::Pass => r == Ok::<AuctionStatus, BiddingError>(AuctionStatus::Running(next_side(side)))
                && self.accepted_pass(new, side),
            Call::NewBid(b) => r == Ok::<AuctionStatus, BiddingError>(AuctionStatus::Running(next_side(side)))
                && self.accepted_bid(new, side, b),
            Call::Double => r == Err::<AuctionStatus, BiddingError>(BiddingError::DoubleOnVoidCall),
            Call::Redouble => r == Err::<AuctionStatus, BiddingError>(BiddingError::ReDoubleOnVoidCall),
        },
        Some(p) => if side != self.expected_side() {
            r == Err::<AuctionStatus, BiddingError>(
                BiddingError::ViolatedOrder(Mismatch { expected: self.expected_side(), found: side }),
            )
        } else {
            match call {
                Call::Pass => self.accepted_pass(new, side) && r == if trailing_passes(self.calls()) <= 1 {
                    Ok::<AuctionStatus, BiddingError>(AuctionStatus::Running(next_side(side)))
                } else {
                    Ok::<AuctionStatus, BiddingError>(AuctionStatus::Finished)
                },
                Call::NewBid(b) => if bid_above(b, p.bid_spec()) {
                    r == Ok::<AuctionStatus, BiddingError>(AuctionStatus::Running(next_side(side)))
                        && self.accepted_bid(new, side, b)
                } else {
                    r == Err::<AuctionStatus, BiddingError>(BiddingError::BidTooLow(Mismatch { expected: p.bid_spec(), found: b }))
                },
                Call::Double => match p.doubling_spec() {
                    Doubling::NoDouble => if side_axis(p.declarer_spec()) == side_axis(side) {
                        r == Err::<AuctionStatus, BiddingError>(BiddingError::DoubleOnSameAxis)
                    } else {
                        r == Ok::<AuctionStatus, BiddingError>(AuctionStatus::Running(next_side(side)))
                            && self.accepted_doubling(new, side, call, Doubling::Double)
                    },
                    Doubling::Double => r == Err::<AuctionStatus, BiddingError>(BiddingError::DoubleAfterDouble),
                    Doubling::Redouble => r == Err::<AuctionStatus, BiddingError>(BiddingError::DoubleAfterReDouble),
                },
                Call::Redouble => match p.doubling_spec() {
                    Doubling::NoDouble => r == Err::<AuctionStatus, BiddingError>(BiddingError::ReDoubleWithoutDouble),
                    Doubling::Double => if side_axis(p.declarer_spec()) == side_axis(side) {
                        r == Ok::<AuctionStatus, BiddingError>(AuctionStatus::Running(next_side(side)))
                            && self.accepted_doubling(new, side, call, Doubling::Redouble)
                    } else {
                        r == Err::<AuctionStatus, BiddingError>(BiddingError::ReDoubleOnSameAxis)
                    },
                    Doubling::Redouble => r == Err::<AuctionStatus, BiddingError>(BiddingError::ReDoubleAfterReDouble),
                },
            }
        },
    }
    }

    pub fn new() -> (r: Self)
        ensures
            r.wf(),
            r.calls().len() == 0,
            r.contract() is None,
            forall|a: Axis, t: Trump| #[trigger] r.declarer_of(a, t) is None,
    {
        AuctionStack {
            calls_entries: Vec::new(),
            current_contract: None,
            declaration_storage: GeneralDeclarationStorage::new(),
        }
    }

    pub fn current_contract(&self) -> (r: Option<&ContractParametersGen>)
        ensures
            match r {
                Some(p) => self.contract() == Some(*p),
                None => self.contract() is None,
            },
    {
        match &self.current_contract {
            Some(x) => Some(x),
            None => None,
        }
    }

    /// Number of passes that end the calls made so far.
    pub fn last_passes(&self) -> (r: u8)
        requires
            trailing_passes(self.calls()) <= 255,
        ensures
            r == trailing_passes(self.calls()),
    {
        let mut counter: u8 = 0;
        let n = self.calls_entries.len();
        let mut i: usize = n;
        proof {
            assert(self.calls().subrange(0, n as int) =~= self.calls());
        }
        while i > 0
            invariant
                i <= n,
                n == self.calls().len(),
                trailing_passes(self.calls()) <= 255,
                counter + trailing_passes(self.calls().subrange(0, i as int)) == trailing_passes(self.calls()),
            decreases i,
        {
            proof {
                assert(self.calls().subrange(0, i as int).drop_last() =~= self.calls().subrange(0, i - 1));
            }
            match self.calls_entries[i - 1].call() {
                Call::Pass => {
                    counter = counter + 1;
                },
                _ => {
                    return counter;
                },
            }
            i = i - 1;
        }
        proof {
            assert(self.calls().subrange(0, 0) =~= Seq::<CallEntry>::empty());
        }
        counter
    }

    /// Bid of the current contract, if there is one.
    pub fn current_bid(&self) -> (r: Option<Bid>)
        ensures
            match self.contract() {
                Some(p) => r == Some(p.bid_spec()),
                None => r is None,
            },
    {
        match &self.current_contract {
            Some(c) => Some(*c.bid()),
            None => None,
        }
    }

    /// Sets the contract to `bid` by `side` and records `side` as first namer
    /// of the trump in its partnership unless a partner named it before.
    fn set_bid_contract(&mut self, player_side: Side, bid: Bid)
        requires
            old(self).wf(),
        ensures
            final(self).calls() == old(self).calls(),
            final(self).contract() matches Some(p) && p.declarer_spec() == old(self).declarer_for(
                player_side,
                bid.trump_spec(),
            ) && p.bid_spec() == bid && p.doubling_spec() == Doubling::NoDouble,
            forall|a: Axis, t: Trump| #[trigger] final(self).declarer_of(a, t) == if a == side_axis(
                player_side,
            ) && t == bid.trump_spec() && old(self).declarer_of(a, t) is None {
                Some(player_side)
            } else {
                old(self).declarer_of(a, t)
            },
            old(self).calls().len() > 0 ==> final(self).wf(),
    {
        let trump = bid.trump();
        match self.declaration_storage.get_declarer(player_side.axis(), &trump) {
            None => {
                self.declaration_storage.set_declarer(player_side, trump);
                self.current_contract = Some(ContractParametersGen::new(player_side, bid));
            },
            Some(s) => {
                self.current_contract = Some(ContractParametersGen::new(s, bid));
            },
        }
        proof {
            assert forall|a: Axis, t: Trump| axis_consistent(#[trigger] self.declarer_of(a, t), a) by {
                assert(axis_consistent(old(self).declarer_of(a, t), a));
            }
        }
    }

    fn push_call(&mut self, player_side: Side, call: Call)
        requires
            old(self).wf(),
        ensures
            final(self).wf(),
            old(self).appended(*final(self), player_side, call),
            final(self).contract() == old(self).contract(),
            old(self).same_declarations(*final(self)),
    {
        self.calls_entries.push(CallEntry::new(player_side, call));
        proof {
            assert(self.calls().drop_last() =~= old(self).calls());
            assert forall|a: Axis, t: Trump| axis_consistent(#[trigger] self.declarer_of(a, t), a) by {
                assert(axis_consistent(old(self).declarer_of(a, t), a));
            }
        }
    }

    /// Whether the calls made so far end with at least two passes.
    fn ends_with_two_passes(&self) -> (r: bool)
        ensures
            r == (trailing_passes(self.calls()) >= 2),
    {
        let n = self.calls_entries.len();
        proof {
            reveal_with_fuel(trailing_passes, 3);
            let c = self.calls();
            if n >= 1 {
                assert(c.drop_last().len() == n - 1);
                if n >= 2 {
                    assert(c.drop_last().last() == c[n - 2]);
                    assert(c.drop_last().drop_last().len() == n - 2);
                }
            }
        }
        if n < 2 {
            return false;
        }
        match (self.calls_entries[n - 1].call(), self.calls_entries[n - 2].call()) {
            (Call::Pass, Call::Pass) => true,
            _ => false,
        }
    }

    /// Adds the call of `player_side` to the auction.
    ///
    /// Before any bid, passes are accepted from anyone, a bid opens the
    /// auction, and a double or redouble is refused.  Once there is a
    /// contract, the call must come from the seat after the last caller; a
    /// pass ends the auction when it follows two passes; a bid must be higher
    /// than the current one; a double must come from the defenders of an
    /// undoubled contract and a redouble from the declaring partnership of a
    /// doubled one.  A refused call leaves the auction unchanged.
    pub fn add_contract_bid(&mut self, player_side: Side, call: Call) -> (r: Result<AuctionStatus, BiddingError>)
        requires
            old(self).wf(),
        ensures
            final(self).wf(),
            r is Err ==> *final(self) == *old(self),
            old(self).call_effect(*final(self), player_side, call, r),
    {
        match self.current_contract {
            None => {
                match call {
                    Call::Pass => {
                        self.push_call(player_side, call);
                        assert(old(self).accepted_pass(*self, player_side));
                        assert(self.wf());
                        Ok(AuctionStatus::Running(player_side.next()))
                    },
                    Call::NewBid(bid) => {
                        self.push_call(player_side, call);
                        let ghost mid = *self;
                        self.set_bid_contract(player_side, bid);
                        proof {
                            assert(self.calls() == mid.calls());
                            assert(old(self).appended(*self, player_side, call));
                            assert(self.wf());
                            assert(old(self).accepted_bid(*self, player_side, bid));
                        }
                        Ok(AuctionStatus::Running(player_side.next()))
                    },
                    Call::Double => Err(BiddingError::DoubleOnVoidCall),
                    Call::Redouble => Err(BiddingError::ReDoubleOnVoidCall),
                }
            },
            Some(contract) => {
                let expected = self.calls_entries[self.calls_entries.len() - 1].player_side().next();
                if player_side != expected {
                    return Err(BiddingError::ViolatedOrder(Mismatch { expected, found: player_side }));
                }
                match call {
                    Call::Pass => {
                        let finishing = self.ends_with_two_passes();
                        self.push_call(player_side, call);
                        if finishing {
                            Ok(AuctionStatus::Finished)
                        } else {
                            Ok(AuctionStatus::Running(player_side.next()))
                        }
                    },
                    Call::NewBid(bid) => {
                        let current = *contract.bid();
                        if bid.is_above(&current) {
                            self.push_call(player_side, call);
                            let ghost mid = *self;
                            self.set_bid_contract(player_side, bid);
                            proof {
                                assert(self.calls() == mid.calls());
                            }
                            Ok(AuctionStatus::Running(player_side.next()))
                        } else {
                            Err(BiddingError::BidTooLow(Mismatch { expected: current, found: bid }))
                        }
                    },
                    Call::Double => {
                        match contract.doubling() {
                            Doubling::NoDouble => {
                                if contract.declarer().axis() == player_side.axis() {
                                    Err(BiddingError::DoubleOnSameAxis)
                                } else {
                                    let mut c = contract;
                                    let _ = c.double();
                                    self.push_call(player_side, call);
                                    let ghost mid = *self;
                                    self.current_contract = Some(c);
                                    proof {
                                        assert(mid.same_declarations(*self));
                                        assert forall|a: Axis, t: Trump| axis_consistent(#[trigger] self.declarer_of(a, t), a) by {
                                            assert(axis_consistent(mid.declarer_of(a, t), a));
                                        }
                                        assert(old(self).same_declarations(*self));
                                    }
                                    Ok(AuctionStatus::Running(player_side.next()))
                                }
                            },
                            Doubling::Double => Err(BiddingError::DoubleAfterDouble),
                            Doubling::Redouble => Err(BiddingError::DoubleAfterReDouble),
                        }
                    },
                    Call::Redouble => {
                        match contract.doubling() {
                            Doubling::NoDouble => Err(BiddingError::ReDoubleWithoutDouble),
                            Doubling::Double => {
                                if contract.declarer().axis() == player_side.axis() {
                                    let mut c = contract;
                                    let _ = c.redouble();
                                    self.push_call(player_side, call);
                                    let ghost mid = *self;
                                    self.current_contract = Some(c);
                                    proof {
                                        assert(mid.same_declarations(*self));
                                        assert forall|a: Axis, t: Trump| axis_consistent(#[trigger] self.declarer_of(a, t), a) by {
                                            assert(axis_consistent(mid.declarer_of(a, t), a));
                                        }
                                        assert(old(self).same_declarations(*self));
                                    }
                                    Ok(AuctionStatus::Running(player_side.next()))
                                } else {
                                    Err(BiddingError::ReDoubleOnSameAxis)
                                }
                            },
                            Doubling::Redouble => Err(BiddingError::ReDoubleAfterReDouble),
                        }
                    },
                }
            },
        }
    }
}


/// Once the auction has a contract, every call keeps one, and its bid never
/// goes down: it stays the same or rises.
pub proof fn auction_bid_never_decreases(
    before: AuctionStack,
    after: AuctionStack,
    side: Side,
    call: Call,
    r: Result<AuctionStatus, BiddingError>,
)
    requires
        before.wf(),
        before.call_effect(after, side, call, r),
        before.contract() is Some,
    ensures
        after.contract() matches Some(q) && (q.bid_spec() == before.contract()->0.bid_spec()
            || bid_above(q.bid_spec(), before.contract()->0.bid_spec())),
{
}

/// An accepted bid becomes the contract, and its declarer belongs to the
/// partnership of the seat that bid.
pub proof fn auction_declarer_in_bidding_partnership(
    before: AuctionStack,
    after: AuctionStack,
    side: Side,
    bid: Bid,
    r: Result<AuctionStatus, BiddingError>,
)
    requires
        before.wf(),
        before.call_effect(after, side, Call::NewBid(bid), r),
        r is Ok,
    ensures
        after.contract() matches Some(p) && p.bid_spec() == bid && side_axis(p.declarer_spec())
            == side_axis(side) && p.doubling_spec() == Doubling::NoDouble,
{
    assert(axis_consistent(before.declarer_of(side_axis(side), bid.trump_spec()), side_axis(side)));
}

/// An accepted double comes from the defenders and doubles the contract; an
/// accepted redouble comes from the declaring partnership and redoubles it.
pub proof fn auction_doubling_by_the_right_partnership(
    before: AuctionStack,
    after: AuctionStack,
    side: Side,
    call: Call,
    r: Result<AuctionStatus, BiddingError>,
)
    requires
        before.wf(),
        before.call_effect(after, side, call, r),
        r is Ok,
        call is Double || call is Redouble,
    ensures
        before.contract() matches Some(p) && after.contract() matches Some(q)
            && q.declarer_spec() == p.declarer_spec() && q.bid_spec() == p.bid_spec()
            && (call is Double ==> p.doubling_spec() == Doubling::NoDouble && q.doubling_spec() == Doubling::Double
                && side_axis(side) != side_axis(p.declarer_spec()))
            && (call is Redouble ==> p.doubling_spec() == Doubling::Double && q.doubling_spec() == Doubling::Redouble
                && side_axis(side) == side_axis(p.declarer_spec())),
{
}

/// The auction is declared finished only on a pass that follows a contract
/// and at least two passes, so that it ends with three passes.
pub proof fn auction_finishes_after_three_passes(
    before: AuctionStack,
    after: AuctionStack,
    side: Side,
    call: Call,
    r: Result<AuctionStatus, BiddingError>,
)
    requires
        before.wf(),
        before.call_effect(after, side, call, r),
        r == Ok::<AuctionStatus, BiddingError>(AuctionStatus::Finished),
    ensures
        call is Pass,
        before.contract() is Some,
        trailing_passes(after.calls()) >= 3,
{
    assert(after.calls().drop_last() == before.calls());
}

/// While the auction runs, the next call belongs to the seat after the one
/// that just called; a refused call changes nothing.
pub proof fn auction_turn_order(
    before: AuctionStack,
    after: AuctionStack,
    side: Side,
    call: Call,
    r: Result<AuctionStatus, BiddingError>,
)
    requires
        before.wf(),
        before.call_effect(after, side, call, r),
    ensures
        r matches Ok(AuctionStatus::Running(s)) ==> s == next_side(side),
        r is Err ==> after == before,
        r is Ok ==> after.calls().len() == before.calls().len() + 1 && after.calls().last().side_spec() == side
            && after.calls().last().call_spec() == call,
{
}

/// Every call keeps the auction consistent.
pub proof fn auction_call_keeps_wf(
    before: AuctionStack,
    after: AuctionStack,
    side: Side,
    call: Call,
    r: Result<AuctionStatus, BiddingError>,
)
    requires
        before.wf(),
        before.call_effect(after, side, call, r),
    ensures
        after.wf(),
{
    assert forall|a: Axis, t: Trump| axis_consistent(#[trigger] after.declarer_of(a, t), a) by {
        assert(axis_consistent(before.declarer_of(a, t), a));
    }
}

} // verus!
