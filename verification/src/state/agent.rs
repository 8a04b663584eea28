use vstd::prelude::*;
use crate::card_set::CardSet;
use crate::cards::{Card, Suit, card_at, card_index, lemma_card_at_index, lemma_card_index_bounds};
use crate::contract::{Contract, ContractParametersGen, tricks_of_axis};
use crate::card_set::CardSetError;
use crate::error::{BridgeCoreError, ContractError, Mismatch};
use crate::player::{Side, SideMap, side_at, side_axis, side_index};
use crate::state::action::{ContractAction, ContractStateUpdate};
use crate::state::env::acting_side;

verus! {

/// Reward of a seat that takes an illegal action.
pub const ILLEGAL_ACTION_PENALTY: i32 = -100;

/// Whether a hand may play `card` when `called` is the suit led in the
/// trick: the card is in the hand, and it follows the called suit unless the
/// hand has no card of that suit.
pub open spec fn legal_play(hand: CardSet, called: Option<Suit>, card: Card) -> bool {
    &&& hand.has(card)
    &&& match called {
        None => true,
        Some(s) => card.suit == s || !hand.has_in_suit(s),
    }
}

/// The card placements that `hand` may make, in deck order.
fn legal_plays(hand: &CardSet, called: Option<Suit>) -> (r: Vec<ContractAction>)
    ensures
        forall|a: ContractAction| #[trigger] r@.contains(a) <==> (a matches ContractAction::PlaceCard(c)
            && legal_play(*hand, called, c)),
        forall|i: int, j: int| 0 <= i < j < r.len() ==> card_index(r@[i]->PlaceCard_0) < card_index(
            r@[j]->PlaceCard_0,
        ),
{
    let must_follow: Option<Suit> = match called {
        Some(s) => if hand.contains_in_suit(&s) {
            Some(s)
        } else {
            None
        },
        None => None,
    };
    let mut v: Vec<ContractAction> = Vec::new();
    let mut i: u8 = 0;
    while i < 52
        invariant
            i <= 52,
            must_follow == match called {
                Some(s) => if hand.has_in_suit(s) {
                    Some(s)
                } else {
                    None
                },
                None => None,
            },
            forall|k: int| 0 <= k < v.len() ==> (#[trigger] v@[k] matches ContractAction::PlaceCard(c)
                && legal_play(*hand, called, c) && card_index(c) < i),
            forall|j: int|
                0 <= j < i && legal_play(*hand, called, card_at(j)) ==> v@.contains(
                    ContractAction::PlaceCard(#[trigger] card_at(j)),
                ),
            forall|a: int, b: int| 0 <= a < b < v.len() ==> card_index(v@[a]->PlaceCard_0) < card_index(
                v@[b]->PlaceCard_0,
            ),
        decreases 52 - i,
    {
        let c = Card::from_index(i).unwrap();
        proof {
            lemma_card_at_index(i as int);
        }
        let ghost prev = v@;
        let follows = match must_follow {
            Some(s) => c.suit() == s,
            None => true,
        };
        if hand.contains(&c) && follows {
            v.push(ContractAction::PlaceCard(c));
            proof {
                assert(v@[v.len() - 1] == ContractAction::PlaceCard(c));
                assert forall|j: int|
                    0 <= j < i && legal_play(*hand, called, card_at(j)) implies v@.contains(
                    ContractAction::PlaceCard(#[trigger] card_at(j)),
                ) by {
                    let k = choose|k: int| 0 <= k < prev.len() && prev[k] == ContractAction::PlaceCard(card_at(j));
                    assert(v@[k] == prev[k]);
                }
            }
        }
        i = i + 1;
    }
    proof {
        assert forall|a: ContractAction| #[trigger] v@.contains(a) <==> (a matches ContractAction::PlaceCard(c)
            && legal_play(*hand, called, c)) by {
            if let ContractAction::PlaceCard(c) = a {
                lemma_card_index_bounds(c);
                if legal_play(*hand, called, c) {
                    assert(v@.contains(ContractAction::PlaceCard(card_at(card_index(c)))));
                }
            }
        }
    }
    v
}

/// What the dummy knows: its hand and the contract. Its only action is to
/// show its hand when its turn comes.
#[derive(Debug, Clone)]
pub struct ContractDummyState {
    side: Side,
    hand: CardSet,
    contract: Contract,
}

impl ContractDummyState {
    pub closed spec fn side_spec(self) -> Side {
        self.side
    }

    pub closed spec fn hand_spec(self) -> CardSet {
        self.hand
    }

    pub closed spec fn contract_spec(self) -> Contract {
        self.contract
    }

    pub open spec fn wf(self) -> bool {
        self.contract_spec().wf()
    }

    pub fn new(side: Side, hand: CardSet, contract: Contract) -> (r: Self)
        ensures
            r.side_spec() == side,
            r.hand_spec() == hand,
            r.contract_spec() == contract,
    {
        ContractDummyState { side, hand, contract }
    }

    /// The state of `side` at the start of a contract with the given deal.
    pub fn from_deal(side: Side, params: &ContractParametersGen, cards: &SideMap<CardSet>) -> (r: Self)
        ensures
            r.wf(),
            r.side_spec() == side,
            r.hand_spec() == cards.at(side),
            r.contract_spec().params_spec() == *params,
            r.contract_spec().tricks_spec().len() == 0,
            r.contract_spec().current_spec().cards_spec().len() == 0,
    {
        Self::new(side, *cards.get(side), Contract::new(*params))
    }

    pub fn id(&self) -> (r: Side)
        ensures
            r == self.side_spec(),
    {
        self.side
    }

    pub fn agent_id(&self) -> (r: &Side)
        ensures
            *r == self.side_spec(),
    {
        &self.side
    }

    /// The dummy may only show its hand.
    pub fn is_action_valid(&self, action: &ContractAction) -> (r: bool)
        ensures
            r == (action is ShowHand),
    {
        match action {
            ContractAction::ShowHand(_) => true,
            ContractAction::PlaceCard(_) => false,
        }
    }

    /// Learns of an action: a placed card goes to the contract, and out of
    /// the dummy's hand when the dummy's seat played it.
    pub fn update(&mut self, update: ContractStateUpdate) -> (r: Result<(), BridgeCoreError>)
        requires
            old(self).wf(),
        ensures
            final(self).wf(),
            final(self).side_spec() == old(self).side_spec(),
            match update.action_spec() {
                ContractAction::ShowHand(_) => r is Ok && *final(self) == *old(self),
                ContractAction::PlaceCard(card) => {
                    let side = update.agent_spec();
                    match old(self).contract_spec().play_error(side, card) {
                        Some(e) => r == Err::<(), BridgeCoreError>(BridgeCoreError::Contract(e))
                            && *final(self) == *old(self),
                        None => {
                            &&& old(self).contract_spec().after_play(final(self).contract_spec(), side, card)
                            &&& side == old(self).side_spec() && !old(self).hand_spec().has(card) ==> r
                                == Err::<(), BridgeCoreError>(BridgeCoreError::Hand(
                                crate::card_set::CardSetError::CardNotInSet(card),
                            )) && final(self).hand_spec() == old(self).hand_spec()
                            &&& side == old(self).side_spec() && old(self).hand_spec().has(card) ==> r is Ok
                                && forall|c: Card| #[trigger] final(self).hand_spec().has(c) == (
                            old(self).hand_spec().has(c) && c != card)
                            &&& side != old(self).side_spec() ==> r is Ok && final(self).hand_spec()
                                == old(self).hand_spec()
                        },
                    }
                },
            },
    {
        let (side, action) = update.into_tuple();
        match action {
            ContractAction::ShowHand(_) => Ok(()),
            ContractAction::PlaceCard(card) => {
                match self.contract.insert_card(side, card) {
                    Ok(_) => {},
                    Err(e) => {
                        return Err(BridgeCoreError::Contract(e));
                    },
                }
                if side == self.side {
                    match self.hand.remove_card(&card) {
                        Ok(()) => {},
                        Err(e) => {
                            return Err(BridgeCoreError::Hand(e));
                        },
                    }
                }
                Ok(())
            },
        }
    }

    /// Showing the hand, when it is the dummy's turn; nothing otherwise.
    pub fn available_actions(&self) -> (r: Vec<ContractAction>)
        requires
            self.wf(),
        ensures
            self.contract_spec().current_side_spec() == self.side_spec() ==> r@ == seq![
                ContractAction::ShowHand(self.hand_spec()),
            ],
            self.contract_spec().current_side_spec() != self.side_spec() ==> r@.len() == 0,
    {
        if self.contract.current_side() == self.side {
            let mut v: Vec<ContractAction> = Vec::new();
            v.push(ContractAction::ShowHand(self.hand));
            v
        } else {
            Vec::new()
        }
    }

    /// Tricks taken so far by the dummy's partnership.
    pub fn current_subjective_score(&self) -> (r: i32)
        requires
            self.wf(),
        ensures
            r == tricks_of_axis(self.contract_spec().winners_spec(), side_axis(self.side_spec())),
    {
        self.contract.total_tricks_taken_axis(self.side.axis()) as i32
    }

    pub fn penalty_for_illegal(&self) -> (r: i32)
        ensures
            r == ILLEGAL_ACTION_PENALTY,
    {
        ILLEGAL_ACTION_PENALTY
    }
}

/// `after` is `before` without `card`.
pub open spec fn removed(before: CardSet, after: CardSet, card: Card) -> bool {
    forall|c: Card| #[trigger] after.has(c) == (before.has(c) && c != card)
}

/// Whether a seat holding `hand`, in a contract whose dummy is `dummy`, may
/// take `action`: showing the hand is for the dummy; a card must be a legal
/// play from `hand`.
pub open spec fn action_valid(side: Side, hand: CardSet, contract: Contract, action: ContractAction) -> bool {
    match action {
        ContractAction::ShowHand(_) => contract.dummy_spec() == side,
        ContractAction::PlaceCard(c) => legal_play(hand, contract.current_spec().called_suit_spec(), c),
    }
}

fn action_valid_exec(side: Side, hand: &CardSet, contract: &Contract, action: &ContractAction) -> (r: bool)
    ensures
        r == action_valid(side, *hand, *contract, *action),
{
    match action {
        ContractAction::ShowHand(_) => contract.dummy() == side,
        ContractAction::PlaceCard(c) => {
            if hand.contains(c) {
                match contract.current_trick().called_suit() {
                    None => true,
                    Some(s) => {
                        if s == c.suit() {
                            true
                        } else {
                            !hand.contains_in_suit(&s)
                        }
                    },
                }
            } else {
                false
            }
        },
    }
}

/// Flags of the card placements that a seat holding `hand` may validly make,
/// in deck order.
fn valid_play_mask(side: Side, hand: &CardSet, contract: &Contract) -> (r: Vec<bool>)
    ensures
        r.len() == 52,
        forall|i: int| 0 <= i < 52 ==> #[trigger] r@[i] == action_valid(side, *hand, *contract, ContractAction::PlaceCard(card_at(i))),
{
    let mut v: Vec<bool> = Vec::new();
    let mut i: u8 = 0;
    while i < 52
        invariant
            i <= 52,
            v.len() == i,
            forall|k: int| 0 <= k < i ==> #[trigger] v@[k] == action_valid(side, *hand, *contract, ContractAction::PlaceCard(card_at(k))),
        decreases 52 - i,
    {
        let c = Card::from_index(i).unwrap();
        v.push(action_valid_exec(side, hand, contract, &ContractAction::PlaceCard(c)));
        i = i + 1;
    }
    v
}

/// What a seat knows in the simple model: its own hand, the contract, and the
/// dummy's hand once shown.
#[derive(Debug, Clone)]
pub struct ContractAgentInfoSetSimple {
    side: Side,
    hand: CardSet,
    dummy_hand: Option<CardSet>,
    contract: Contract,
}

impl ContractAgentInfoSetSimple {
    pub closed spec fn side_spec(self) -> Side {
        self.side
    }

    pub closed spec fn hand_spec(self) -> CardSet {
        self.hand
    }

    pub closed spec fn dummy_hand_spec(self) -> Option<CardSet> {
        self.dummy_hand
    }

    pub closed spec fn contract_spec(self) -> Contract {
        self.contract
    }

    pub open spec fn wf(self) -> bool {
        self.contract_spec().wf()
    }

    /// Whether `side` may hold `card` as far as this seat knows.
    pub open spec fn possibly_has_card_spec(self, side: Side, card: Card) -> bool {
        &&& !self.contract_spec().used_spec().has(card)
        &&& !self.contract_spec().exhausted_spec().has(side, card.suit)
        &&& side == self.side_spec() ==> self.hand_spec().has(card)
        &&& side != self.side_spec() ==> !self.hand_spec().has(card)
        &&& self.dummy_hand_spec() matches Some(d) ==> {
            &&& side == self.contract_spec().dummy_spec() ==> d.has(card)
            &&& side != self.contract_spec().dummy_spec() ==> !d.has(card)
        }
    }

    /// Whether this seat knows that `side` holds `card`.
    pub open spec fn surely_has_card_spec(self, side: Side, card: Card) -> bool {
        ||| side == self.side_spec() && self.hand_spec().has(card)
        ||| self.dummy_hand_spec() matches Some(d) && side == self.contract_spec().dummy_spec() && d.has(card)
    }

    /// Whether `action` is offered to this seat: on its turn, its legal
    /// plays; on the dummy's turn, when it is the declarer and has seen the
    /// dummy's hand, the dummy's legal plays.
    pub open spec fn available_spec(self, action: ContractAction) -> bool {
        let c = self.contract_spec();
        let called = c.current_spec().called_suit_spec();
        if c.current_side_spec() == self.side_spec() {
            action matches ContractAction::PlaceCard(card) && legal_play(self.hand_spec(), called, card)
        } else if c.current_side_spec() == side_at(side_index(self.side_spec()) + 2)
            && c.current_side_spec() == c.dummy_spec() {
            match self.dummy_hand_spec() {
                Some(d) => action matches ContractAction::PlaceCard(card) && legal_play(d, called, card),
                None => false,
            }
        } else {
            false
        }
    }

    pub fn new(side: Side, hand: CardSet, contract: Contract, dummy_hand: Option<CardSet>) -> (r: Self)
        ensures
            r.side_spec() == side,
            r.hand_spec() == hand,
            r.contract_spec() == contract,
            r.dummy_hand_spec() == dummy_hand,
    {
        ContractAgentInfoSetSimple { side, hand, dummy_hand, contract }
    }

    pub fn create_new(side: Side, hand: CardSet, contract: Contract, dummy_hand: Option<CardSet>) -> (r: Self)
        ensures
            r.side_spec() == side,
            r.hand_spec() == hand,
            r.contract_spec() == contract,
            r.dummy_hand_spec() == dummy_hand,
    {
        Self::new(side, hand, contract, dummy_hand)
    }

    /// The state of `side` at the start of a contract with the given deal.
    pub fn from_deal(side: Side, params: &ContractParametersGen, cards: &SideMap<CardSet>) -> (r: Self)
        ensures
            r.wf(),
            r.side_spec() == side,
            r.hand_spec() == cards.at(side),
            r.dummy_hand_spec() is None,
            r.contract_spec().params_spec() == *params,
            r.contract_spec().tricks_spec().len() == 0,
            r.contract_spec().current_spec().cards_spec().len() == 0,
    {
        Self::new(side, *cards.get(side), Contract::new(*params), None)
    }

    /// Starts over as `side` with the given parameters and deal; the dummy's
    /// hand is not known yet.
    pub fn renew_from(&mut self, side: Side, params: &ContractParametersGen, cards: &SideMap<CardSet>)
        ensures
            final(self).wf(),
            final(self).side_spec() == side,
            final(self).hand_spec() == cards.at(side),
            final(self).dummy_hand_spec() is None,
            final(self).contract_spec().params_spec() == *params,
            final(self).contract_spec().tricks_spec().len() == 0,
            final(self).contract_spec().current_spec().cards_spec().len() == 0,
    {
        self.contract = Contract::new(*params);
        self.dummy_hand = None;
        self.side = side;
        self.hand = *cards.get(side);
    }

    /// Starts over with a new hand, contract and dummy's hand.
    pub fn renew(&mut self, hand: CardSet, contract: Contract, dummy_hand: Option<CardSet>)
        ensures
            final(self).side_spec() == old(self).side_spec(),
            final(self).hand_spec() == hand,
            final(self).contract_spec() == contract,
            final(self).dummy_hand_spec() == dummy_hand,
    {
        self.hand = hand;
        self.contract = contract;
        self.dummy_hand = dummy_hand;
    }

    pub fn id(&self) -> (r: Side)
        ensures
            r == self.side_spec(),
    {
        self.side
    }

    pub fn agent_id(&self) -> (r: &Side)
        ensures
            *r == self.side_spec(),
    {
        &self.side
    }

    pub fn hand(&self) -> (r: &CardSet)
        ensures
            *r == self.hand_spec(),
    {
        &self.hand
    }

    pub fn contract_data(&self) -> (r: &Contract)
        ensures
            *r == self.contract_spec(),
    {
        &self.contract
    }

    pub fn dummy_hand(&self) -> (r: Option<&CardSet>)
        ensures
            r == match self.dummy_hand_spec() {
                Some(h) => Some(&h),
                None => None::<&CardSet>,
            },
    {
        match &self.dummy_hand {
            Some(h) => Some(h),
            None => None,
        }
    }

    pub fn dummy_side(&self) -> (r: Side)
        ensures
            r == self.contract_spec().dummy_spec(),
    {
        self.contract.dummy()
    }

    pub fn possibly_has_card(&self, side: Side, card: &Card) -> (r: bool)
        ensures
            r == self.possibly_has_card_spec(side, *card),
    {
        if !self.contract.side_possibly_has_card(side, card) {
            return false;
        }
        if side == self.side && !self.hand.contains(card) {
            return false;
        }
        if side != self.side && self.hand.contains(card) {
            return false;
        }
        match self.dummy_hand {
            Some(d) => {
                if side == self.contract.dummy() && !d.contains(card) {
                    return false;
                }
                if side != self.contract.dummy() && d.contains(card) {
                    return false;
                }
            },
            None => {},
        }
        true
    }

    pub fn surely_has_card(&self, side: Side, card: &Card) -> (r: bool)
        ensures
            r == self.surely_has_card_spec(side, *card),
    {
        if side == self.side && self.hand.contains(card) {
            return true;
        }
        match self.dummy_hand {
            Some(d) => {
                if side == self.contract.dummy() && d.contains(card) {
                    return true;
                }
            },
            None => {},
        }
        false
    }

    /// Showing the hand is valid for the dummy; a card must be a legal play
    /// from this seat's own hand.
    pub fn is_action_valid(&self, action: &ContractAction) -> (r: bool)
        ensures
            r == action_valid(self.side_spec(), self.hand_spec(), self.contract_spec(), *action),
    {
        action_valid_exec(self.side, &self.hand, &self.contract, action)
    }

    /// For each card of the deck, whether placing it is a valid action.
    pub fn try_build_mask(&self) -> (r: Vec<bool>)
        ensures
            r.len() == 52,
            forall|i: int| 0 <= i < 52 ==> #[trigger] r@[i] == action_valid(
                self.side_spec(),
                self.hand_spec(),
                self.contract_spec(),
                ContractAction::PlaceCard(card_at(i)),
            ),
    {
        valid_play_mask(self.side, &self.hand, &self.contract)
    }

    /// Share of the chance that `side` holds `card`, as the number of seats
    /// that may hold it: 0 when it cannot, 1 when it surely does, 2 when the
    /// card is shared with the other unseen hand, 3 before the dummy's hand
    /// is shown.
    pub open spec fn hint_share_spec(self, side: Side, card: Card) -> u8 {
        let c = self.contract_spec();
        if c.used_spec().has(card) || c.exhausted_spec().has(side, card.suit) {
            0
        } else if side == self.side_spec() {
            if self.hand_spec().has(card) {
                1
            } else {
                0
            }
        } else if self.hand_spec().has(card) {
            0
        } else {
            match self.dummy_hand_spec() {
                Some(d) => if side == c.dummy_spec() {
                    if d.has(card) {
                        1
                    } else {
                        0
                    }
                } else if d.has(card) {
                    0
                } else {
                    2
                },
                None => 3,
            }
        }
    }

    /// How many seats may hold `card` when `side` is one of them, as seen by
    /// this seat (see `hint_share_spec`); the probability hint is one over it.
    pub fn hint_card_share_for_player(&self, side: Side, card: &Card) -> (r: u8)
        ensures
            r == self.hint_share_spec(side, *card),
    {
        if self.contract.card_used(card) {
            return 0;
        }
        if self.contract.suits_exhausted().is_registered(&(side, card.suit())) {
            return 0;
        }
        if self.side == side {
            return if self.hand.contains(card) {
                1
            } else {
                0
            };
        }
        if self.hand.contains(card) {
            return 0;
        }
        match self.dummy_hand {
            Some(d) => {
                if side == self.contract.dummy() {
                    if d.contains(card) {
                        1
                    } else {
                        0
                    }
                } else if d.contains(card) {
                    0
                } else {
                    2
                }
            },
            None => 3,
        }
    }

    /// What learning of `update` does: `next` is the state after it and `r`
    /// what was returned.
    pub open spec fn update_effect(self, next: Self, update: ContractStateUpdate, r: Result<(), BridgeCoreError>) -> bool {
        match update.action_spec() {
            ContractAction::ShowHand(dhand) => {
                &&& r is Ok
                &&& next.dummy_hand_spec() == Some(dhand)
                &&& next.hand_spec() == self.hand_spec()
                &&& next.contract_spec() == self.contract_spec()
            },
            ContractAction::PlaceCard(card) => {
                let actual = acting_side(self.contract_spec(), update.agent_spec());
                let dummy = self.contract_spec().dummy_spec();
                match self.contract_spec().play_error(actual, card) {
                    Some(e) => r == Err::<(), BridgeCoreError>(BridgeCoreError::Contract(e))
                        && next == self,
                    None => {
                        &&& self.contract_spec().after_play(next.contract_spec(), actual, card)
                        &&& if actual == self.side_spec() && !self.hand_spec().has(card) {
                            &&& r == Err::<(), BridgeCoreError>(BridgeCoreError::Hand(
                                crate::card_set::CardSetError::CardNotInSet(card),
                            ))
                            &&& next.hand_spec() == self.hand_spec()
                            &&& next.dummy_hand_spec() == self.dummy_hand_spec()
                        } else {
                            &&& actual == self.side_spec() ==> removed(
                                self.hand_spec(),
                                next.hand_spec(),
                                card,
                            )
                            &&& actual != self.side_spec() ==> next.hand_spec()
                                == self.hand_spec()
                            &&& if actual == dummy && self.dummy_hand_spec() is Some {
                                let d = self.dummy_hand_spec()->0;
                                if d.has(card) {
                                    r is Ok && (next.dummy_hand_spec() matches Some(d2) && removed(d, d2, card))
                                } else {
                                    r == Err::<(), BridgeCoreError>(BridgeCoreError::Hand(
                                        crate::card_set::CardSetError::CardNotInSet(card),
                                    )) && next.dummy_hand_spec() == self.dummy_hand_spec()
                                }
                            } else {
                                r is Ok && next.dummy_hand_spec() == self.dummy_hand_spec()
                            }
                        }
                    },
                }
            },
        }
    }

    /// Learns of an action. The dummy's shown hand is recorded. A placed card
    /// goes to the contract, for the dummy when the declarer offers it on the
    /// dummy's turn, and then out of the hand it came from when this seat
    /// knows that hand; a card missing from such a hand is reported after the
    /// contract took it.
    pub fn update(&mut self, update: ContractStateUpdate) -> (r: Result<(), BridgeCoreError>)
        requires
            old(self).wf(),
            update.action_spec() is ShowHand ==> update.agent_spec() == old(self).contract_spec().dummy_spec()
                && old(self).dummy_hand_spec() is None,
        ensures
            final(self).wf(),
            final(self).side_spec() == old(self).side_spec(),
            old(self).update_effect(*final(self), update, r),
    {
        let (side, action) = update.into_tuple();
        match action {
            ContractAction::ShowHand(dhand) => {
                self.dummy_hand = Some(dhand);
                Ok(())
            },
            ContractAction::PlaceCard(card) => {
                let actual = crate::state::env::acting_side_of(&self.contract, side);
                match self.contract.insert_card(actual, card) {
                    Ok(_) => {},
                    Err(e) => {
                        return Err(BridgeCoreError::Contract(e));
                    },
                }
                if actual == self.side {
                    match self.hand.remove_card(&card) {
                        Ok(()) => {},
                        Err(e) => {
                            return Err(BridgeCoreError::Hand(e));
                        },
                    }
                }
                if actual == self.contract.dummy() {
                    match &mut self.dummy_hand {
                        Some(dh) => {
                            match dh.remove_card(&card) {
                                Ok(()) => {},
                                Err(e) => {
                                    return Err(BridgeCoreError::Hand(e));
                                },
                            }
                        },
                        None => {},
                    }
                }
                Ok(())
            },
        }
    }

    /// The actions offered to this seat, in deck order.
    pub fn available_actions(&self) -> (r: Vec<ContractAction>)
        requires
            self.wf(),
        ensures
            forall|a: ContractAction| #[trigger] r@.contains(a) <==> self.available_spec(a),
            forall|i: int, j: int| 0 <= i < j < r.len() ==> card_index(r@[i]->PlaceCard_0) < card_index(
                r@[j]->PlaceCard_0,
            ),
    {
        let current = self.contract.current_side();
        let called = self.contract.current_trick().called_suit();
        if current == self.side {
            legal_plays(&self.hand, called)
        } else if current == self.side.partner() && current == self.contract.dummy() {
            match &self.dummy_hand {
                Some(dh) => legal_plays(dh, called),
                None => Vec::new(),
            }
        } else {
            Vec::new()
        }
    }

    /// Tricks taken so far by this seat's partnership.
    pub fn current_subjective_score(&self) -> (r: i32)
        requires
            self.wf(),
        ensures
            r == tricks_of_axis(self.contract_spec().winners_spec(), side_axis(self.side_spec())),
    {
        self.contract.total_tricks_taken_axis(self.side.axis()) as i32
    }

    pub fn penalty_for_illegal(&self) -> (r: i32)
        ensures
            r == ILLEGAL_ACTION_PENALTY,
    {
        ILLEGAL_ACTION_PENALTY
    }
}

/// On its own turn a seat is offered exactly the card placements that it may
/// validly make.
pub proof fn offered_actions_are_the_valid_plays(info: ContractAgentInfoSetSimple, action: ContractAction)
    requires
        info.contract_spec().current_side_spec() == info.side_spec(),
    ensures
        info.available_spec(action) <==> (action is PlaceCard && action_valid(
            info.side_spec(),
            info.hand_spec(),
            info.contract_spec(),
            action,
        )),
{
}

/// What a seat knows when it sees every hand: the deal as it stands, the deal
/// at the start and the contract.
#[derive(Debug, Clone)]
pub struct ContractAgentInfoSetAllKnowing {
    side: Side,
    deal: SideMap<CardSet>,
    initial_deal: SideMap<CardSet>,
    contract: Contract,
}

impl ContractAgentInfoSetAllKnowing {
    pub closed spec fn side_spec(self) -> Side {
        self.side
    }

    pub closed spec fn deal_spec(self) -> SideMap<CardSet> {
        self.deal
    }

    pub closed spec fn initial_deal_spec(self) -> SideMap<CardSet> {
        self.initial_deal
    }

    pub closed spec fn contract_spec(self) -> Contract {
        self.contract
    }

    pub open spec fn wf(self) -> bool {
        self.contract_spec().wf()
    }

    /// Whether `action` is offered to this seat: on its turn, its legal
    /// plays; on the dummy's turn, when it is the declarer, the dummy's.
    pub open spec fn available_spec(self, action: ContractAction) -> bool {
        let c = self.contract_spec();
        let called = c.current_spec().called_suit_spec();
        if c.current_side_spec() == self.side_spec() {
            action matches ContractAction::PlaceCard(card) && legal_play(
                self.deal_spec().at(self.side_spec()),
                called,
                card,
            )
        } else if c.current_side_spec() == side_at(side_index(self.side_spec()) + 2)
            && c.current_side_spec() == c.dummy_spec() {
            action matches ContractAction::PlaceCard(card) && legal_play(
                self.deal_spec().at(c.dummy_spec()),
                called,
                card,
            )
        } else {
            false
        }
    }

    pub fn new(side: Side, deal: SideMap<CardSet>, contract: Contract) -> (r: Self)
        ensures
            r.side_spec() == side,
            r.deal_spec() == deal,
            r.initial_deal_spec() == deal,
            r.contract_spec() == contract,
    {
        ContractAgentInfoSetAllKnowing { side, deal, contract, initial_deal: deal }
    }

    /// The state of `side` at the start of a contract with the given deal.
    pub fn from_deal(side: Side, params: &ContractParametersGen, cards: &SideMap<CardSet>) -> (r: Self)
        ensures
            r.wf(),
            r.side_spec() == side,
            r.deal_spec() == *cards,
            r.initial_deal_spec() == *cards,
            r.contract_spec().params_spec() == *params,
            r.contract_spec().tricks_spec().len() == 0,
            r.contract_spec().current_spec().cards_spec().len() == 0,
    {
        Self::new(side, *cards, Contract::new(*params))
    }

    /// Starts over as `side` with the given parameters and deal.
    pub fn renew_from(&mut self, side: Side, params: &ContractParametersGen, cards: &SideMap<CardSet>)
        ensures
            final(self).wf(),
            final(self).side_spec() == side,
            final(self).deal_spec() == *cards,
            final(self).initial_deal_spec() == *cards,
            final(self).contract_spec().params_spec() == *params,
            final(self).contract_spec().tricks_spec().len() == 0,
            final(self).contract_spec().current_spec().cards_spec().len() == 0,
    {
        self.contract = Contract::new(*params);
        self.side = side;
        self.initial_deal = *cards;
        self.deal = *cards;
    }

    pub fn side(&self) -> (r: &Side)
        ensures
            *r == self.side_spec(),
    {
        &self.side
    }

    pub fn id(&self) -> (r: Side)
        ensures
            r == self.side_spec(),
    {
        self.side
    }

    pub fn agent_id(&self) -> (r: &Side)
        ensures
            *r == self.side_spec(),
    {
        &self.side
    }

    pub fn contract(&self) -> (r: &Contract)
        ensures
            *r == self.contract_spec(),
    {
        &self.contract
    }

    pub fn hand(&self) -> (r: &CardSet)
        ensures
            *r == self.deal_spec().at(self.side_spec()),
    {
        self.deal.get(self.side)
    }

    /// The dummy's hand, which this seat always sees.
    pub fn dummy_hand(&self) -> (r: Option<&CardSet>)
        ensures
            r == Some(&self.deal_spec().at(self.contract_spec().dummy_spec())),
    {
        Some(self.deal.get(self.contract.dummy()))
    }

    pub fn initial_deal(&self) -> (r: &SideMap<CardSet>)
        ensures
            *r == self.initial_deal_spec(),
    {
        &self.initial_deal
    }

    /// Showing the hand is valid for the dummy; a card must be a legal play
    /// from this seat's hand.
    pub fn is_action_valid(&self, action: &ContractAction) -> (r: bool)
        ensures
            r == action_valid(self.side_spec(), self.deal_spec().at(self.side_spec()), self.contract_spec(), *action),
    {
        action_valid_exec(self.side, self.deal.get(self.side), &self.contract, action)
    }

    /// For each card of the deck, whether placing it is a valid action.
    pub fn try_build_mask(&self) -> (r: Vec<bool>)
        ensures
            r.len() == 52,
            forall|i: int| 0 <= i < 52 ==> #[trigger] r@[i] == action_valid(
                self.side_spec(),
                self.deal_spec().at(self.side_spec()),
                self.contract_spec(),
                ContractAction::PlaceCard(card_at(i)),
            ),
    {
        valid_play_mask(self.side, self.deal.get(self.side), &self.contract)
    }

    /// What learning of `update` does: `next` is the state after it and `r`
    /// what was returned.
    pub open spec fn update_effect(self, next: Self, update: ContractStateUpdate, r: Result<(), BridgeCoreError>) -> bool {
        match update.action_spec() {
            ContractAction::ShowHand(dhand) => {
                let known = self.deal_spec().at(self.contract_spec().dummy_spec());
                &&& next == self
                &&& known == dhand ==> r is Ok
                &&& known != dhand ==> r == Err::<(), BridgeCoreError>(BridgeCoreError::Hand(
                    CardSetError::ExpectedEqualCardSets(Mismatch { expected: known, found: dhand }),
                ))
            },
            ContractAction::PlaceCard(card) => {
                let actual = acting_side(self.contract_spec(), update.agent_spec());
                if !self.deal_spec().at(actual).has(card) {
                    r == Err::<(), BridgeCoreError>(BridgeCoreError::Contract(
                        ContractError::CardNotInHand(actual, card),
                    )) && next == self
                } else {
                    match self.contract_spec().play_error(actual, card) {
                        Some(e) => r == Err::<(), BridgeCoreError>(BridgeCoreError::Contract(e))
                            && next == self,
                        None => {
                            &&& r is Ok
                            &&& self.contract_spec().after_play(next.contract_spec(), actual, card)
                            &&& removed(self.deal_spec().at(actual), next.deal_spec().at(actual), card)
                            &&& forall|s: Side| s != actual ==> #[trigger] next.deal_spec().at(s)
                                == self.deal_spec().at(s)
                        },
                    }
                }
            },
        }
    }

    /// Learns of an action. A shown hand must be the dummy's hand as dealt so
    /// far. A placed card must be in the hand of the seat it is played for
    /// (the dummy, when the declarer offers it on the dummy's turn); it goes
    /// to the contract and leaves that hand.
    pub fn update(&mut self, update: ContractStateUpdate) -> (r: Result<(), BridgeCoreError>)
        requires
            old(self).wf(),
        ensures
            final(self).wf(),
            final(self).side_spec() == old(self).side_spec(),
            final(self).initial_deal_spec() == old(self).initial_deal_spec(),
            old(self).update_effect(*final(self), update, r),
    {
        let (side, action) = update.into_tuple();
        match action {
            ContractAction::ShowHand(dhand) => {
                let local = *self.deal.get(self.contract.dummy());
                if local != dhand {
                    return Err(
                        BridgeCoreError::Hand(
                            CardSetError::ExpectedEqualCardSets(Mismatch { expected: local, found: dhand }),
                        ),
                    );
                }
                Ok(())
            },
            ContractAction::PlaceCard(card) => {
                let actual = crate::state::env::acting_side_of(&self.contract, side);
                if !self.deal.get(actual).contains(&card) {
                    return Err(BridgeCoreError::Contract(ContractError::CardNotInHand(actual, card)));
                }
                match self.contract.insert_card(actual, card) {
                    Ok(_) => {},
                    Err(e) => {
                        return Err(BridgeCoreError::Contract(e));
                    },
                }
                let r = match actual {
                    Side::North => self.deal.north.remove_card(&card),
                    Side::East => self.deal.east.remove_card(&card),
                    Side::South => self.deal.south.remove_card(&card),
                    Side::West => self.deal.west.remove_card(&card),
                };
                match r {
                    Ok(()) => Ok(()),
                    Err(e) => Err(BridgeCoreError::Hand(e)),
                }
            },
        }
    }

    /// The actions offered to this seat, in deck order.
    pub fn available_actions(&self) -> (r: Vec<ContractAction>)
        requires
            self.wf(),
        ensures
            forall|a: ContractAction| #[trigger] r@.contains(a) <==> self.available_spec(a),
            forall|i: int, j: int| 0 <= i < j < r.len() ==> card_index(r@[i]->PlaceCard_0) < card_index(
                r@[j]->PlaceCard_0,
            ),
    {
        let current = self.contract.current_side();
        let called = self.contract.current_trick().called_suit();
        if current == self.side {
            legal_plays(self.deal.get(self.side), called)
        } else if current == self.side.partner() && current == self.contract.dummy() {
            legal_plays(self.deal.get(current), called)
        } else {
            Vec::new()
        }
    }

    /// Tricks taken so far by this seat's partnership.
    pub fn current_assessment(&self) -> (r: i32)
        requires
            self.wf(),
        ensures
            r == tricks_of_axis(self.contract_spec().winners_spec(), side_axis(self.side_spec())),
    {
        self.contract.total_tricks_taken_axis(self.side.axis()) as i32
    }

    pub fn penalty_for_illegal(&self) -> (r: i32)
        ensures
            r == ILLEGAL_ACTION_PENALTY,
    {
        ILLEGAL_ACTION_PENALTY
    }
}

/// The information set of a seat, in one of its models.
#[derive(Debug, Clone)]
pub enum ContractInformationSet {
    Simple(ContractAgentInfoSetSimple),
    AllKnowing(ContractAgentInfoSetAllKnowing),
}

impl ContractInformationSet {
    pub open spec fn wf(self) -> bool {
        match self {
            ContractInformationSet::Simple(a) => a.wf(),
            ContractInformationSet::AllKnowing(a) => a.wf(),
        }
    }

    pub open spec fn side_spec(self) -> Side {
        match self {
            ContractInformationSet::Simple(a) => a.side_spec(),
            ContractInformationSet::AllKnowing(a) => a.side_spec(),
        }
    }

    /// Whether the model accepts `update` (the simple model takes the
    /// dummy's hand once, from the dummy).
    pub open spec fn accepts(self, update: ContractStateUpdate) -> bool {
        match self {
            ContractInformationSet::Simple(a) => update.action_spec() is ShowHand ==> update.agent_spec()
                == a.contract_spec().dummy_spec() && a.dummy_hand_spec() is None,
            ContractInformationSet::AllKnowing(_) => true,
        }
    }

    pub fn agent_id(&self) -> (r: &Side)
        ensures
            *r == self.side_spec(),
    {
        match self {
            ContractInformationSet::Simple(a) => a.agent_id(),
            ContractInformationSet::AllKnowing(a) => a.agent_id(),
        }
    }

    pub fn is_action_valid(&self, action: &ContractAction) -> (r: bool)
        ensures
            r == match self {
                ContractInformationSet::Simple(a) => action_valid(a.side_spec(), a.hand_spec(), a.contract_spec(), *action),
                ContractInformationSet::AllKnowing(a) => action_valid(
                    a.side_spec(),
                    a.deal_spec().at(a.side_spec()),
                    a.contract_spec(),
                    *action,
                ),
            },
    {
        match self {
            ContractInformationSet::Simple(a) => a.is_action_valid(action),
            ContractInformationSet::AllKnowing(a) => a.is_action_valid(action),
        }
    }

    /// Passes the update to the model; see the models' `update`.
    pub fn update(&mut self, update: ContractStateUpdate) -> (r: Result<(), BridgeCoreError>)
        requires
            old(self).wf(),
            old(self).accepts(update),
        ensures
            final(self).wf(),
            final(self).side_spec() == old(self).side_spec(),
            match (*old(self), *final(self)) {
                (ContractInformationSet::Simple(a), ContractInformationSet::Simple(b)) => a.update_effect(b, update, r),
                (ContractInformationSet::AllKnowing(a), ContractInformationSet::AllKnowing(b)) => a.update_effect(
                    b,
                    update,
                    r,
                ),
                _ => false,
            },
    {
        match self {
            ContractInformationSet::Simple(a) => a.update(update),
            ContractInformationSet::AllKnowing(a) => a.update(update),
        }
    }

    /// Starts the model over as `side` with the given parameters and deal.
    pub fn renew_from(&mut self, side: Side, params: &ContractParametersGen, cards: &SideMap<CardSet>)
        ensures
            final(self).wf(),
            final(self).side_spec() == side,
            match (*old(self), *final(self)) {
                (ContractInformationSet::Simple(_), ContractInformationSet::Simple(b)) => {
                    &&& b.hand_spec() == cards.at(side)
                    &&& b.dummy_hand_spec() is None
                    &&& b.contract_spec().params_spec() == *params
                    &&& b.contract_spec().tricks_spec().len() == 0
                    &&& b.contract_spec().current_spec().cards_spec().len() == 0
                },
                (ContractInformationSet::AllKnowing(_), ContractInformationSet::AllKnowing(b)) => {
                    &&& b.deal_spec() == *cards
                    &&& b.initial_deal_spec() == *cards
                    &&& b.contract_spec().params_spec() == *params
                    &&& b.contract_spec().tricks_spec().len() == 0
                    &&& b.contract_spec().current_spec().cards_spec().len() == 0
                },
                _ => false,
            },
    {
        match self {
            ContractInformationSet::Simple(a) => a.renew_from(side, params, cards),
            ContractInformationSet::AllKnowing(a) => a.renew_from(side, params, cards),
        }
    }

    pub fn try_build_mask(&self) -> (r: Vec<bool>)
        ensures
            r.len() == 52,
            forall|i: int| 0 <= i < 52 ==> #[trigger] r@[i] == match self {
                ContractInformationSet::Simple(a) => action_valid(
                    a.side_spec(),
                    a.hand_spec(),
                    a.contract_spec(),
                    ContractAction::PlaceCard(card_at(i)),
                ),
                ContractInformationSet::AllKnowing(a) => action_valid(
                    a.side_spec(),
                    a.deal_spec().at(a.side_spec()),
                    a.contract_spec(),
                    ContractAction::PlaceCard(card_at(i)),
                ),
            },
    {
        match self {
            ContractInformationSet::Simple(a) => a.try_build_mask(),
            ContractInformationSet::AllKnowing(a) => a.try_build_mask(),
        }
    }
}


/// A card this seat sees in a hand (its own, or the dummy's once shown) can
/// be held by no other seat: its share there is 0.  A played card, or one of a
/// suit that the seat is known to lack, has share 0; a share of 1 is given
/// only to the seat seen holding the card.
pub proof fn hint_share_respects_seen_cards(a: ContractAgentInfoSetSimple, side: Side, card: Card)
    ensures
        a.hand_spec().has(card) && side != a.side_spec() ==> a.hint_share_spec(side, card) == 0,
        (a.dummy_hand_spec() matches Some(d) && d.has(card)) && side != a.contract_spec().dummy_spec()
            && !(side == a.side_spec() && a.hand_spec().has(card)) ==> a.hint_share_spec(side, card) == 0,
        a.contract_spec().used_spec().has(card) || a.contract_spec().exhausted_spec().has(side, card.suit)
            ==> a.hint_share_spec(side, card) == 0,
        a.hint_share_spec(side, card) == 1 ==> (side == a.side_spec() && a.hand_spec().has(card)) || (
        a.dummy_hand_spec() matches Some(d) && side == a.contract_spec().dummy_spec() && d.has(card)),
{
}

/// Shares of a card that is neither played nor of a suit that `side` is known
/// to lack: 1 for the seat seen holding it; 0 for the owner when it does not
/// hold it, and for the dummy, once shown, when it does not; an unseen card is
/// shared by the three other seats before the dummy shows its hand, and by the
/// two seats whose hands stay unseen after that.
pub proof fn hint_share_of_a_live_card(a: ContractAgentInfoSetSimple, side: Side, card: Card)
    requires
        !a.contract_spec().used_spec().has(card),
        !a.contract_spec().exhausted_spec().has(side, card.suit),
    ensures
        side == a.side_spec() ==> a.hint_share_spec(side, card) == if a.hand_spec().has(card) { 1u8 } else { 0u8 },
        side != a.side_spec() && !a.hand_spec().has(card) && a.dummy_hand_spec() is None
            ==> a.hint_share_spec(side, card) == 3,
        match a.dummy_hand_spec() {
            Some(d) => side == a.contract_spec().dummy_spec() && side != a.side_spec() && !a.hand_spec().has(card)
                ==> a.hint_share_spec(side, card) == if d.has(card) { 1u8 } else { 0u8 },
            None => true,
        },
        (a.dummy_hand_spec() matches Some(d) && !d.has(card)) && side != a.contract_spec().dummy_spec()
            && side != a.side_spec() && !a.hand_spec().has(card) ==> a.hint_share_spec(side, card) == 2,
{
}

} // verus!
