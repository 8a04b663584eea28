use vstd::prelude::*;
use crate::card_set::CardSet;
use crate::cards::Card;
use crate::contract::{Contract, ContractParametersGen, tricks_of_axis};
use crate::error::{BridgeCoreError, ContractError};
use crate::card_set::CardSetError;
use crate::player::{Side, SideMap, side_at, side_axis, side_distance, side_index};
use crate::state::action::{ContractAction, ContractStateUpdate};

verus! {

/// The same update sent to each of the four seats, North first.
pub open spec fn broadcast_spec(u: ContractStateUpdate) -> Seq<(Side, ContractStateUpdate)> {
    seq![(Side::North, u), (Side::East, u), (Side::South, u), (Side::West, u)]
}

/// An update with a given seat and action.
pub open spec fn update_of(u: ContractStateUpdate, side: Side, action: ContractAction) -> bool {
    u.agent_spec() == side && u.action_spec() == action
}

fn broadcast(u: ContractStateUpdate) -> (r: [(Side, ContractStateUpdate); 4])
    ensures
        r@ == broadcast_spec(u),
{
    [(Side::North, u), (Side::East, u), (Side::South, u), (Side::West, u)]
}

/// Seat on whose behalf a card offered by `side` is played: when it is the
/// dummy's turn, the declarer (the dummy's partner) plays the dummy's card.
pub open spec fn acting_side(contract: Contract, side: Side) -> Side {
    if contract.dummy_spec() == contract.current_side_spec() && side == side_at(
        side_index(contract.dummy_spec()) + 2,
    ) {
        contract.dummy_spec()
    } else {
        side
    }
}

pub(crate) fn acting_side_of(contract: &Contract, side: Side) -> (r: Side)
    requires
        contract.wf(),
    ensures
        r == acting_side(*contract, side),
{
    let dummy = contract.dummy();
    if dummy == contract.current_side() && side == dummy.partner() {
        dummy
    } else {
        side
    }
}

/// Why a card offered for `actual` from `hand` is refused, if it is: the card
/// is not in the hand, the hand does not follow the called suit though it
/// could, or the contract refuses the play.
pub open spec fn place_error(contract: Contract, hand: CardSet, actual: Side, card: Card) -> Option<
    BridgeCoreError,
> {
    if !hand.has(card) {
        Some(BridgeCoreError::Hand(CardSetError::CardNotInHand(card)))
    } else {
        match contract.current_spec().called_suit_spec() {
            Some(called) => if called != card.suit && hand.has_in_suit(called) {
                Some(BridgeCoreError::Contract(ContractError::IgnoredCalledSuit(actual, called)))
            } else {
                match contract.play_error(actual, card) {
                    Some(e) => Some(BridgeCoreError::Contract(e)),
                    None => None,
                }
            },
            None => match contract.play_error(actual, card) {
                Some(e) => Some(BridgeCoreError::Contract(e)),
                None => None,
            },
        }
    }
}

/// The environment's full view of the play: the four hands, the contract and
/// whether the dummy has shown its hand.
#[derive(Debug, Clone)]
pub struct ContractEnvStateComplete {
    dummy_hand: CardSet,
    declarer_hand: CardSet,
    whist_hand: CardSet,
    offside_hand: CardSet,
    contract: Contract,
    dummy_shown: bool,
}

impl ContractEnvStateComplete {
    pub closed spec fn contract_spec(self) -> Contract {
        self.contract
    }

    pub closed spec fn dummy_shown_spec(self) -> bool {
        self.dummy_shown
    }

    /// Hand of a seat, found by its position after the declarer.
    pub closed spec fn hand_spec(self, side: Side) -> CardSet {
        let d = side_distance(side, self.contract.declarer_spec());
        if d == 0 {
            self.declarer_hand
        } else if d == 1 {
            self.whist_hand
        } else if d == 2 {
            self.dummy_hand
        } else {
            self.offside_hand
        }
    }

    pub open spec fn wf(self) -> bool {
        self.contract_spec().wf()
    }

    /// No card is in two hands, and no card in a hand has been played.
    pub open spec fn cards_conserved(self) -> bool {
        &&& forall|c: Card, s: Side, t: Side| #[trigger] self.hand_spec(s).has(c) && #[trigger] self.hand_spec(t).has(c) ==> s == t
        &&& forall|c: Card, s: Side| #[trigger] self.hand_spec(s).has(c) ==> !self.contract_spec().used_spec().has(c)
    }

    /// Seat expected to act: none when the contract is over; the dummy while
    /// it has not shown its hand and it is its turn; the declarer for the
    /// dummy after that; otherwise the seat whose turn it is.
    pub open spec fn current_player_spec(self) -> Option<Side> {
        let c = self.contract_spec();
        if c.is_completed_spec() {
            None
        } else if c.dummy_spec() == c.current_side_spec() {
            if !self.dummy_shown_spec() {
                Some(c.current_side_spec())
            } else {
                Some(side_at(side_index(c.current_side_spec()) + 2))
            }
        } else {
            Some(c.current_side_spec())
        }
    }

    pub fn new(
        contract: Contract,
        declarer_hand: CardSet,
        whist_hand: CardSet,
        dummy_hand: CardSet,
        offside_hand: CardSet,
    ) -> (r: Self)
        ensures
            r.contract_spec() == contract,
            !r.dummy_shown_spec(),
            r.hand_spec(contract.declarer_spec()) == declarer_hand,
            r.hand_spec(side_at(side_index(contract.declarer_spec()) + 1)) == whist_hand,
            r.hand_spec(side_at(side_index(contract.declarer_spec()) + 2)) == dummy_hand,
            r.hand_spec(side_at(side_index(contract.declarer_spec()) + 3)) == offside_hand,
    {
        ContractEnvStateComplete {
            contract,
            declarer_hand,
            whist_hand,
            dummy_hand,
            offside_hand,
            dummy_shown: false,
        }
    }

    /// A fresh state for a contract with the given parameters and deal.
    pub fn from_deal(params: &ContractParametersGen, cards: &SideMap<CardSet>) -> (r: Self)
        ensures
            r.wf(),
            r.contract_spec().params_spec() == *params,
            r.contract_spec().tricks_spec().len() == 0,
            r.contract_spec().current_spec().cards_spec().len() == 0,
            !r.dummy_shown_spec(),
            forall|s: Side| #[trigger] r.hand_spec(s) == cards.at(s),
            (forall|c: Card, s: Side, t: Side| #[trigger] cards.at(s).has(c) && #[trigger] cards.at(t).has(c) ==> s
                == t) ==> r.cards_conserved(),
    {
        let declarer = params.declarer();
        let contract = Contract::new(*params);
        let r = Self::new(
            contract,
            *cards.get(declarer),
            *cards.get(declarer.next_i(1)),
            *cards.get(declarer.next_i(2)),
            *cards.get(declarer.next_i(3)),
        );
        proof {
            assert forall|s: Side| #[trigger] r.hand_spec(s) == cards.at(s) by {
                assert(s == side_at(side_index(declarer) + side_distance(s, declarer)));
            }
        }
        r
    }

    /// Starts again with the given parameters and deal.
    pub fn renew_from(&mut self, params: &ContractParametersGen, cards: &SideMap<CardSet>)
        ensures
            final(self).wf(),
            final(self).contract_spec().params_spec() == *params,
            final(self).contract_spec().tricks_spec().len() == 0,
            final(self).contract_spec().current_spec().cards_spec().len() == 0,
            !final(self).dummy_shown_spec(),
            forall|s: Side| #[trigger] final(self).hand_spec(s) == cards.at(s),
    {
        *self = Self::from_deal(params, cards);
    }

    /// Hand of a seat.
    pub fn hand(&self, side: Side) -> (r: CardSet)
        ensures
            r == self.hand_spec(side),
    {
        match side.distance_from(self.contract.declarer()) {
            0 => self.declarer_hand,
            1 => self.whist_hand,
            2 => self.dummy_hand,
            _ => self.offside_hand,
        }
    }

    /// Removes a card from the hand of `side`.
    fn remove_from_hand(&mut self, side: Side, card: &Card) -> (r: Result<(), CardSetError>)
        requires
            old(self).hand_spec(side).has(*card),
        ensures
            r is Ok,
            final(self).contract == old(self).contract,
            final(self).dummy_shown == old(self).dummy_shown,
            forall|s: Side, c: Card| #[trigger] final(self).hand_spec(s).has(c) == (old(self).hand_spec(s).has(c) && !(s == side && c == *card)),
    {
        let ghost d = side_distance(side, self.contract.declarer_spec());
        let r = match side.distance_from(self.contract.declarer()) {
            0 => self.declarer_hand.remove_card(card),
            1 => self.whist_hand.remove_card(card),
            2 => self.dummy_hand.remove_card(card),
            _ => self.offside_hand.remove_card(card),
        };
        proof {
            assert forall|s: Side, c: Card| #[trigger] self.hand_spec(s).has(c) == (old(self).hand_spec(s).has(c) && !(s == side && c == *card)) by {
                crate::player::lemma_distance_injective(s, side, self.contract.declarer_spec());
            }
        }
        r
    }

    pub fn contract_data(&self) -> (r: &Contract)
        ensures
            *r == self.contract_spec(),
    {
        &self.contract
    }

    /// The dummy's hand, which this state always knows.
    pub fn dummy_hand(&self) -> (r: Option<&CardSet>)
        ensures
            r == Some(&self.hand_spec(self.contract_spec().dummy_spec())),
    {
        proof {
            crate::player::lemma_seat_distance(self.contract.declarer_spec(), 2);
        }
        Some(&self.dummy_hand)
    }

    /// Whether the dummy has shown its hand.
    pub fn is_dummy_shown(&self) -> (r: bool)
        ensures
            r == self.dummy_shown_spec(),
    {
        self.dummy_shown
    }

    pub fn current_player(&self) -> (r: Option<Side>)
        requires
            self.wf(),
        ensures
            r == self.current_player_spec(),
    {
        if self.contract.is_completed() {
            None
        } else {
            let current = self.contract.current_side();
            if self.contract.dummy() == current {
                if !self.dummy_shown {
                    Some(current)
                } else {
                    Some(current.partner())
                }
            } else {
                Some(current)
            }
        }
    }

    pub fn is_finished(&self) -> (r: bool)
        requires
            self.wf(),
        ensures
            r == self.contract_spec().is_completed_spec(),
    {
        self.contract.is_completed()
    }

    /// Tricks taken so far by the partnership of `agent`.
    pub fn state_score_of_player(&self, agent: &Side) -> (r: i32)
        requires
            self.wf(),
        ensures
            r == tricks_of_axis(self.contract_spec().winners_spec(), side_axis(*agent)),
    {
        self.contract.total_tricks_taken_axis(agent.axis()) as i32
    }

    /// What applying the action of `side` does: `next` is the state after it
    /// and `r` what was returned.
    pub open spec fn forward_effect(
        self,
        next: Self,
        side: Side,
        action: ContractAction,
        r: Result<[(Side, ContractStateUpdate); 4], BridgeCoreError>,
    ) -> bool {
        match action {
            ContractAction::ShowHand(dhand) => if dhand == self.hand_spec(side) {
                &&& r matches Ok(u) && u@ == broadcast_spec(u@[0].1) && update_of(u@[0].1, side, action)
                &&& next.dummy_shown_spec()
                &&& next.contract_spec() == self.contract_spec()
                &&& forall|s: Side| #[trigger] next.hand_spec(s) == self.hand_spec(s)
            } else {
                &&& r == Err::<[(Side, ContractStateUpdate); 4], BridgeCoreError>(
                    BridgeCoreError::Contract(ContractError::DummyCardSetMissmatch),
                )
                &&& next == self
            },
            ContractAction::PlaceCard(card) => {
                let actual = acting_side(self.contract_spec(), side);
                match place_error(self.contract_spec(), self.hand_spec(actual), actual, card) {
                    Some(e) => r == Err::<[(Side, ContractStateUpdate); 4], BridgeCoreError>(e)
                        && next == self,
                    None => {
                        &&& r matches Ok(u) && u@ == broadcast_spec(u@[0].1) && update_of(u@[0].1, actual, action)
                        &&& self.contract_spec().after_play(next.contract_spec(), actual, card)
                        &&& next.dummy_shown_spec() == self.dummy_shown_spec()
                        &&& forall|s: Side, c: Card| #[trigger] next.hand_spec(s).has(c)
                            == (self.hand_spec(s).has(c) && !(s == actual && c == card))
                    },
                }
            },
        }
    }

    /// Applies the action of `side`. The dummy may show its hand, which must
    /// be the hand it holds. A placed card is played for the dummy when the
    /// declarer offers it on the dummy's turn; it must be in the hand of the
    /// seat it is played for, follow the called suit when that hand can, and
    /// be accepted by the contract. The accepted action is sent to every seat.
    #[verifier::rlimit(30)]
    pub fn forward(&mut self, side: Side, action: ContractAction) -> (r: Result<
        [(Side, ContractStateUpdate); 4],
        BridgeCoreError,
    >)
        requires
            old(self).wf(),
            action is ShowHand ==> side == old(self).contract_spec().dummy_spec(),
        ensures
            final(self).wf(),
            old(self).forward_effect(*final(self), side, action, r),
            old(self).cards_conserved() ==> final(self).cards_conserved(),
    {
        match action {
            ContractAction::ShowHand(dhand) => {
                proof {
                    crate::player::lemma_seat_distance(self.contract.declarer_spec(), 2);
                }
                if dhand == self.dummy_hand {
                    let update = ContractStateUpdate::new(self.contract.dummy(), ContractAction::ShowHand(dhand));
                    self.dummy_shown = true;
                    proof {
                        assert forall|x: Side| #[trigger] self.hand_spec(x) == old(self).hand_spec(x) by {}
                    }
                    Ok(broadcast(update))
                } else {
                    Err(BridgeCoreError::Contract(ContractError::DummyCardSetMissmatch))
                }
            },
            ContractAction::PlaceCard(card) => {
                let actual = acting_side_of(&self.contract, side);
                let hand = self.hand(actual);
                if !hand.contains(&card) {
                    return Err(BridgeCoreError::Hand(CardSetError::CardNotInHand(card)));
                }
                match self.contract.current_trick().called_suit() {
                    Some(called) => {
                        if called != card.suit() && hand.contains_in_suit(&called) {
                            return Err(
                                BridgeCoreError::Contract(ContractError::IgnoredCalledSuit(actual, called)),
                            );
                        }
                    },
                    None => {},
                }
                match self.contract.insert_card(actual, card) {
                    Ok(_) => {},
                    Err(e) => {
                        return Err(BridgeCoreError::Contract(e));
                    },
                }
                let _ = self.remove_from_hand(actual, &card);
                proof {
                    if old(self).cards_conserved() {
                        assert forall|c: Card, x: Side, y: Side| #[trigger] self.hand_spec(x).has(c) && #[trigger] self.hand_spec(y).has(c) implies x == y by {
                            assert(old(self).hand_spec(x).has(c) && old(self).hand_spec(y).has(c));
                        }
                        assert forall|c: Card, x: Side| #[trigger] self.hand_spec(x).has(c) implies !self.contract.used_spec().has(c) by {
                            assert(old(self).hand_spec(x).has(c));
                            if c == card {
                                assert(old(self).hand_spec(actual).has(card));
                            }
                        }
                    }
                }
                Ok(broadcast(ContractStateUpdate::new(actual, ContractAction::PlaceCard(card))))
            },
        }
    }
}

/// The environment's minimal view of the play: the contract and, once shown,
/// the dummy's hand.
#[derive(Debug, Clone)]
pub struct ContractEnvStateMin {
    dummy_hand: Option<CardSet>,
    contract: Contract,
}

impl ContractEnvStateMin {
    pub closed spec fn contract_spec(self) -> Contract {
        self.contract
    }

    pub closed spec fn dummy_hand_spec(self) -> Option<CardSet> {
        self.dummy_hand
    }

    pub open spec fn wf(self) -> bool {
        self.contract_spec().wf()
    }

    /// Seat expected to act: none when the contract is over; on the dummy's
    /// turn the dummy until its hand is shown, the declarer after that;
    /// otherwise the seat whose turn it is.
    pub open spec fn current_player_spec(self) -> Option<Side> {
        let c = self.contract_spec();
        if c.is_completed_spec() {
            None
        } else if c.dummy_spec() == c.current_side_spec() {
            match self.dummy_hand_spec() {
                None => Some(c.dummy_spec()),
                Some(_) => Some(side_at(side_index(c.dummy_spec()) + 2)),
            }
        } else {
            Some(c.current_side_spec())
        }
    }

    pub fn new(contract: Contract, dummy_hand: Option<CardSet>) -> (r: Self)
        ensures
            r.contract_spec() == contract,
            r.dummy_hand_spec() == dummy_hand,
    {
        ContractEnvStateMin { dummy_hand, contract }
    }

    /// A fresh state for a contract with the given parameters; the dummy's
    /// hand is not known yet.
    pub fn from_params(params: &ContractParametersGen) -> (r: Self)
        ensures
            r.wf(),
            r.contract_spec().params_spec() == *params,
            r.contract_spec().tricks_spec().len() == 0,
            r.contract_spec().current_spec().cards_spec().len() == 0,
            r.dummy_hand_spec() is None,
    {
        Self::new(Contract::new(*params), None)
    }

    pub fn dummy_hand(&self) -> (r: Option<&CardSet>)
        ensures
            r == match self.dummy_hand_spec() {
                Some(h) => Some(&h),
                None => None::<&CardSet>,
            },
    {
        match &self.dummy_hand {
            Some(h) => Some(h),
            None => None,
        }
    }

    pub fn contract(&self) -> (r: &Contract)
        ensures
            *r == self.contract_spec(),
    {
        &self.contract
    }

    pub fn replace_contract(&mut self, contract: Contract)
        ensures
            final(self).contract_spec() == contract,
            final(self).dummy_hand_spec() == old(self).dummy_hand_spec(),
    {
        self.contract = contract;
    }

    pub fn current_player(&self) -> (r: Option<Side>)
        requires
            self.wf(),
        ensures
            r == self.current_player_spec(),
    {
        if self.contract.is_completed() {
            None
        } else {
            let dummy = self.contract.dummy();
            if dummy == self.contract.current_side() {
                match self.dummy_hand {
                    None => Some(dummy),
                    Some(_) => Some(dummy.partner()),
                }
            } else {
                Some(self.contract.current_side())
            }
        }
    }

    pub fn is_finished(&self) -> (r: bool)
        requires
            self.wf(),
        ensures
            r == self.contract_spec().is_completed_spec(),
    {
        self.contract.is_completed()
    }

    /// Tricks taken so far by the partnership of `agent`.
    pub fn state_payoff_of_player(&self, agent: &Side) -> (r: i32)
        requires
            self.wf(),
        ensures
            r == tricks_of_axis(self.contract_spec().winners_spec(), side_axis(*agent)),
    {
        self.contract.total_tricks_taken_axis(agent.axis()) as i32
    }

    /// Applies the action of `side`. The dummy shows its hand once. A placed
    /// card goes to the contract, for the dummy when the declarer offers it on
    /// the dummy's turn; when the dummy itself offers it, it is also taken out
    /// of the known dummy's hand, which fails, after the contract took the
    /// card, when the hand does not hold it.
    pub fn forward(&mut self, side: Side, action: ContractAction) -> (r: Result<
        [(Side, ContractStateUpdate); 4],
        BridgeCoreError,
    >)
        requires
            old(self).wf(),
            action is ShowHand ==> side == old(self).contract_spec().dummy_spec()
                && old(self).dummy_hand_spec() is None,
        ensures
            final(self).wf(),
            match action {
                ContractAction::ShowHand(dhand) => {
                    &&& r matches Ok(u) && u@ == broadcast_spec(u@[0].1) && update_of(u@[0].1, side, action)
                    &&& final(self).dummy_hand_spec() == Some(dhand)
                    &&& final(self).contract_spec() == old(self).contract_spec()
                },
                ContractAction::PlaceCard(card) => {
                    let actual = acting_side(old(self).contract_spec(), side);
                    match old(self).contract_spec().play_error(actual, card) {
                        Some(e) => r == Err::<[(Side, ContractStateUpdate); 4], BridgeCoreError>(
                            BridgeCoreError::Contract(e),
                        ) && *final(self) == *old(self),
                        None => {
                            &&& old(self).contract_spec().after_play(final(self).contract_spec(), actual, card)
                            &&& if side == old(self).contract_spec().dummy_spec() && old(self).dummy_hand_spec() is Some {
                                let h = old(self).dummy_hand_spec()->0;
                                if h.has(card) {
                                    &&& r matches Ok(u) && u@ == broadcast_spec(u@[0].1) && update_of(u@[0].1, actual, action)
                                    &&& final(self).dummy_hand_spec() matches Some(h2) && forall|c: Card| #[trigger]
                                        h2.has(c) == (h.has(c) && c != card)
                                } else {
                                    &&& r == Err::<[(Side, ContractStateUpdate); 4], BridgeCoreError>(
                                        BridgeCoreError::Hand(CardSetError::CardNotInSet(card)),
                                    )
                                    &&& final(self).dummy_hand_spec() == old(self).dummy_hand_spec()
                                }
                            } else {
                                &&& r matches Ok(u) && u@ == broadcast_spec(u@[0].1) && update_of(u@[0].1, actual, action)
                                &&& final(self).dummy_hand_spec() == old(self).dummy_hand_spec()
                            }
                        },
                    }
                },
            },
    {
        match action {
            ContractAction::ShowHand(dhand) => {
                self.dummy_hand = Some(dhand);
                let update = ContractStateUpdate::new(self.contract.dummy(), ContractAction::ShowHand(dhand));
                Ok(broadcast(update))
            },
            ContractAction::PlaceCard(card) => {
                let actual = acting_side_of(&self.contract, side);
                match self.contract.insert_card(actual, card) {
                    Ok(_) => {},
                    Err(e) => {
                        return Err(BridgeCoreError::Contract(e));
                    },
                }
                if side == self.contract.dummy() {
                    match &mut self.dummy_hand {
                        Some(dh) => {
                            match dh.remove_card(&card) {
                                Ok(()) => {},
                                Err(e) => {
                                    return Err(BridgeCoreError::Hand(e));
                                },
                            }
                        },
                        None => {},
                    }
                }
                Ok(broadcast(ContractStateUpdate::new(actual, ContractAction::PlaceCard(card))))
            },
        }
    }
}

/// The environment of a contract game: the state of the table, a channel to
/// each seat (which the library only keeps), the penalties charged to seats
/// for illegal actions and the seat found breaking the rules, if any.
pub struct ContractEnv<C> {
    state: ContractEnvStateComplete,
    comm: SideMap<C>,
    penalties: SideMap<i32>,
    game_violator: Option<Side>,
}

impl<C> ContractEnv<C> {
    pub closed spec fn state_spec(self) -> ContractEnvStateComplete {
        self.state
    }

    pub closed spec fn penalties_spec(self) -> SideMap<i32> {
        self.penalties
    }

    pub closed spec fn violator_spec(self) -> Option<Side> {
        self.game_violator
    }

    pub closed spec fn comm_spec(self) -> SideMap<C> {
        self.comm
    }

    pub open spec fn wf(self) -> bool {
        self.state_spec().wf()
    }

    /// An environment with no penalty charged and no violator.
    pub fn new(state: ContractEnvStateComplete, comm: SideMap<C>) -> (r: Self)
        ensures
            r.state_spec() == state,
            r.comm_spec() == comm,
            forall|s: Side| #[trigger] r.penalties_spec().at(s) == 0,
            r.violator_spec() is None,
    {
        ContractEnv { state, comm, penalties: SideMap::new_symmetric(0), game_violator: None }
    }

    pub fn replace_state(&mut self, state: ContractEnvStateComplete)
        ensures
            final(self).state_spec() == state,
            final(self).comm_spec() == old(self).comm_spec(),
            final(self).penalties_spec() == old(self).penalties_spec(),
            final(self).violator_spec() == old(self).violator_spec(),
    {
        self.state = state;
    }

    pub fn comms_mut(&mut self) -> (r: &mut SideMap<C>)
        ensures
            *r == old(self).comm_spec(),
            final(self).comm_spec() == *final(r),
            final(self).state_spec() == old(self).state_spec(),
            final(self).penalties_spec() == old(self).penalties_spec(),
            final(self).violator_spec() == old(self).violator_spec(),
    {
        &mut self.comm
    }

    pub fn state(&self) -> (r: &ContractEnvStateComplete)
        ensures
            *r == self.state_spec(),
    {
        &self.state
    }

    /// The seats, North first.
    pub fn players(&self) -> (r: [Side; 4])
        ensures
            r@ == seq![Side::North, Side::East, Side::South, Side::West],
    {
        [Side::North, Side::East, Side::South, Side::West]
    }

    /// Applies the action of `agent` to the state of the table.
    pub fn process_action(&mut self, agent: &Side, action: &ContractAction) -> (r: Result<
        [(Side, ContractStateUpdate); 4],
        BridgeCoreError,
    >)
        requires
            old(self).wf(),
            *action is ShowHand ==> *agent == old(self).state_spec().contract_spec().dummy_spec(),
        ensures
            old(self).state_spec().cards_conserved() ==> final(self).state_spec().cards_conserved(),
            final(self).wf(),
            final(self).penalties_spec() == old(self).penalties_spec(),
            final(self).violator_spec() == old(self).violator_spec(),
            final(self).comm_spec() == old(self).comm_spec(),
            old(self).state_spec().forward_effect(final(self).state_spec(), *agent, *action, r),
    {
        self.state.forward(*agent, *action)
    }

    /// Applies the action of `agent`; when it is refused, `penalty_reward` is
    /// added to the penalty of `agent`.
    pub fn process_action_penalise_illegal(
        &mut self,
        agent: &Side,
        action: &ContractAction,
        penalty_reward: i32,
    ) -> (r: Result<[(Side, ContractStateUpdate); 4], BridgeCoreError>)
        requires
            old(self).wf(),
            *action is ShowHand ==> *agent == old(self).state_spec().contract_spec().dummy_spec(),
            i32::MIN <= old(self).penalties_spec().at(*agent) + penalty_reward <= i32::MAX,
        ensures
            old(self).state_spec().cards_conserved() ==> final(self).state_spec().cards_conserved(),
            final(self).wf(),
            final(self).violator_spec() == old(self).violator_spec(),
            final(self).comm_spec() == old(self).comm_spec(),
            old(self).state_spec().forward_effect(final(self).state_spec(), *agent, *action, r),
            r is Ok ==> final(self).penalties_spec() == old(self).penalties_spec(),
            r is Err ==> forall|s: Side| #[trigger] final(self).penalties_spec().at(s) == if s == *agent {
                old(self).penalties_spec().at(s) + penalty_reward
            } else {
                old(self).penalties_spec().at(s) as int
            },
    {
        let r = self.state.forward(*agent, *action);
        if r.is_err() {
            match *agent {
                Side::North => {
                    self.penalties.north = self.penalties.north + penalty_reward;
                },
                Side::East => {
                    self.penalties.east = self.penalties.east + penalty_reward;
                },
                Side::South => {
                    self.penalties.south = self.penalties.south + penalty_reward;
                },
                Side::West => {
                    self.penalties.west = self.penalties.west + penalty_reward;
                },
            }
        }
        r
    }

    pub fn game_violator(&self) -> (r: Option<&Side>)
        ensures
            r == match self.violator_spec() {
                Some(s) => Some(&s),
                None => None::<&Side>,
            },
    {
        match &self.game_violator {
            Some(s) => Some(s),
            None => None,
        }
    }

    pub fn set_game_violator(&mut self, game_violator: Option<Side>)
        ensures
            final(self).violator_spec() == game_violator,
            final(self).state_spec() == old(self).state_spec(),
            final(self).penalties_spec() == old(self).penalties_spec(),
            final(self).comm_spec() == old(self).comm_spec(),
    {
        self.game_violator = game_violator;
    }

    /// Tricks taken so far by the partnership of `agent`.
    pub fn actual_state_score_of_player(&self, agent: &Side) -> (r: i32)
        requires
            self.wf(),
        ensures
            r == tricks_of_axis(self.state_spec().contract_spec().winners_spec(), side_axis(*agent)),
    {
        self.state.state_score_of_player(agent)
    }

    /// Penalties charged to `agent` so far.
    pub fn actual_penalty_score_of_player(&self, agent: &Side) -> (r: i32)
        ensures
            r == self.penalties_spec().at(*agent),
    {
        *self.penalties.get(*agent)
    }

    /// Score of `agent`: the tricks taken by its partnership.
    pub fn actual_score_of_player(&self, agent: &Side) -> (r: i32)
        requires
            self.wf(),
        ensures
            r == tricks_of_axis(self.state_spec().contract_spec().winners_spec(), side_axis(*agent)),
    {
        self.state.state_score_of_player(agent)
    }
}


/// A card offered by a seat is played for that seat, except that on the
/// dummy's turn the declarer plays the dummy's card: a defender and the dummy
/// always play for themselves.
pub proof fn acting_side_is_own_seat_or_dummy_for_declarer(c: Contract, side: Side)
    ensures
        side_axis(side) != side_axis(c.declarer_spec()) ==> acting_side(c, side) == side,
        side == c.dummy_spec() ==> acting_side(c, side) == side,
        side == c.declarer_spec() ==> acting_side(c, side) == if c.current_side_spec() == c.dummy_spec() {
            c.dummy_spec()
        } else {
            side
        },
        acting_side(c, side) != side ==> side == c.declarer_spec() && c.current_side_spec() == c.dummy_spec()
            && acting_side(c, side) == c.dummy_spec(),
{
}

} // verus!
