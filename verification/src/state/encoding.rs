use vstd::prelude::*;
use crate::bidding::Doubling;
use crate::card_set::CardSet;
use crate::cards::{Card, DECK_SIZE, Trump, card_at, figure_index, suit_index};
use crate::contract::Contract;
use crate::contract::suit_exhaust::SuitExhaust;
use crate::player::{Side, side_at, side_distance, side_index};
use crate::state::agent::ContractAgentInfoSetSimple;

verus! {

/// Weight of a card that a seat surely holds.
pub const SURE: u8 = 120;
/// Weight of a card that one of two seats holds.
pub const ONE_IN_TWO: u8 = 60;
/// Weight of a card that one of three seats holds.
pub const ONE_IN_THREE: u8 = 40;

/// Position of the seat that starts the play, relative to the owner.
pub const TRICK_STARTER: usize = DECK_SIZE * 4;
/// Position of the number of cards in the current trick.
pub const TRICK_COMPLETION: usize = TRICK_STARTER + 1;
/// Positions set aside for the owner's card in the current trick; they
/// always hold 0 (see `ContractAgentInfoSetSimple::to_bytes`).
pub const OWN_CARD: usize = TRICK_COMPLETION + 1;
/// Positions of the card of the seat after the owner.
pub const LEFT_CARD: usize = OWN_CARD + 2;
/// Positions of the partner's card.
pub const PARTNER_CARD: usize = LEFT_CARD + 2;
/// Positions of the card of the seat before the owner.
pub const RIGHT_CARD: usize = PARTNER_CARD + 2;
/// Positions of the trump, the number and the doubling of the contract.
pub const BID_OFFSET: usize = RIGHT_CARD + 2;
/// Position of the flag telling that the dummy is to play.
pub const PLAY_AS_DUMMY: usize = BID_OFFSET + 3;
/// Length of the byte encoding of a simple information set.
pub const SIMPLE_INFO_SET_LENGTH: usize = PLAY_AS_DUMMY + 1;

/// First of the two seats whose hands `side` does not see, clockwise from it.
pub open spec fn first_unknown(side: Side, dummy: Side) -> Side {
    if dummy == side_at(side_index(side) + 1) {
        side_at(side_index(side) + 2)
    } else {
        side_at(side_index(side) + 1)
    }
}

/// Second of the two seats whose hands `side` does not see, clockwise from it.
pub open spec fn second_unknown(side: Side, dummy: Side) -> Side {
    if dummy == side_at(side_index(side) + 3) {
        side_at(side_index(side) + 2)
    } else {
        side_at(side_index(side) + 3)
    }
}

/// Weight of `card` in the hand of the seat `k` steps after `side`, as the
/// owner `side` sees it: its own cards are sure; a played card is nowhere;
/// before the dummy shows its hand, an unseen card is shared by the other
/// three seats; after that, a dummy's card is sure for the dummy, and any
/// other card is shared by the two unseen hands unless one of them is known
/// to lack its suit.
pub open spec fn hint_weight(
    side: Side,
    hand: CardSet,
    dummy_hand: Option<CardSet>,
    contract: Contract,
    k: int,
    card: Card,
) -> u8 {
    let dummy = contract.dummy_spec();
    let u1 = first_unknown(side, dummy);
    let u2 = second_unknown(side, dummy);
    if hand.has(card) {
        if k == 0 {
            SURE
        } else {
            0
        }
    } else if contract.used_spec().has(card) {
        0
    } else {
        match dummy_hand {
            None => if 1 <= k <= 3 {
                ONE_IN_THREE
            } else {
                0
            },
            Some(d) => if d.has(card) {
                if k == side_distance(dummy, side) {
                    SURE
                } else {
                    0
                }
            } else if contract.exhausted_spec().has(u1, card.suit) {
                if k == side_distance(u2, side) {
                    SURE
                } else {
                    0
                }
            } else if contract.exhausted_spec().has(u2, card.suit) {
                if k == side_distance(u1, side) {
                    SURE
                } else {
                    0
                }
            } else if k == side_distance(u1, side) || k == side_distance(u2, side) {
                ONE_IN_TWO
            } else {
                0
            },
        }
    }
}

/// Suit and figure positions of a card, each plus one; zeros for no card.
pub open spec fn card_pair(c: Option<Card>) -> (u8, u8) {
    match c {
        Some(c) => ((suit_index(c.suit) + 1) as u8, (figure_index(c.figure) + 1) as u8),
        None => (0, 0),
    }
}

/// Trump of a bid as a byte: the suit position plus one, zero for no trump.
pub open spec fn trump_byte(t: Trump) -> u8 {
    match t {
        Trump::Colored(s) => (suit_index(s) + 1) as u8,
        Trump::NoTrump => 0,
    }
}

/// Doubling as a byte: 0, 1 or 2.
pub open spec fn doubling_byte(d: Doubling) -> u8 {
    match d {
        Doubling::NoDouble => 0,
        Doubling::Double => 1,
        Doubling::Redouble => 2,
    }
}

/// The trick and contract section of the encoding of what `side` knows:
/// the declarer's seat counted from `side`, the size of the current trick,
/// two unused bytes, the cards put in the trick by the seats after `side`
/// (next, partner, previous), the trump, number and doubling of the
/// contract, and whether the dummy is to play.
pub open spec fn tail_seq(side: Side, contract: Contract) -> Seq<u8> {
    let trick = contract.current_spec();
    let params = contract.params_spec();
    let left = card_pair(trick.card_of(side_at(side_index(side) + 1)));
    let partner = card_pair(trick.card_of(side_at(side_index(side) + 2)));
    let right = card_pair(trick.card_of(side_at(side_index(side) + 3)));
    seq![
        side_distance(contract.declarer_spec(), side) as u8,
        trick.cards_spec().len() as u8,
        0u8,
        0u8,
        left.0,
        left.1,
        partner.0,
        partner.1,
        right.0,
        right.1,
        trump_byte(params.bid_spec().trump_spec()),
        params.bid_spec().number_spec(),
        doubling_byte(params.doubling_spec()),
        if contract.current_side_spec() == contract.dummy_spec() {
            1u8
        } else {
            0u8
        },
    ]
}

/// Byte at position `i` of the encoding of what `side` knows.
pub open spec fn simple_byte(
    side: Side,
    hand: CardSet,
    dummy_hand: Option<CardSet>,
    contract: Contract,
    i: int,
) -> u8 {
    if i < TRICK_STARTER {
        hint_weight(side, hand, dummy_hand, contract, i / 52, card_at(i % 52))
    } else {
        tail_seq(side, contract)[i - TRICK_STARTER]
    }
}

fn first_unknown_side(side: Side, dummy: Side) -> (r: Side)
    ensures
        r == first_unknown(side, dummy),
{
    if dummy == side.next() {
        side.partner()
    } else {
        side.next()
    }
}

fn second_unknown_side(side: Side, dummy: Side) -> (r: Side)
    ensures
        r == second_unknown(side, dummy),
{
    if dummy == side.prev() {
        side.partner()
    } else {
        side.prev()
    }
}

fn hint_weight_of(
    side: Side,
    hand: &CardSet,
    dummy_hand: Option<&CardSet>,
    contract: &Contract,
    k: u8,
    card: &Card,
) -> (r: u8)
    requires
        k < 4,
    ensures
        r == hint_weight(
            side,
            *hand,
            match dummy_hand {
                Some(d) => Some(*d),
                None => None,
            },
            *contract,
            k as int,
            *card,
        ),
{
    if hand.contains(card) {
        return if k == 0 {
            SURE
        } else {
            0
        };
    }
    if contract.card_used(card) {
        return 0;
    }
    let dummy = contract.dummy();
    match dummy_hand {
        None => if 1 <= k && k <= 3 {
            ONE_IN_THREE
        } else {
            0
        },
        Some(d) => {
            let u1 = first_unknown_side(side, dummy);
            let u2 = second_unknown_side(side, dummy);
            let exhausted: SuitExhaust = contract.suits_exhausted();
            if d.contains(card) {
                if k == dummy.distance_from(side) {
                    SURE
                } else {
                    0
                }
            } else if exhausted.is_registered(&(u1, card.suit())) {
                if k == u2.distance_from(side) {
                    SURE
                } else {
                    0
                }
            } else if exhausted.is_registered(&(u2, card.suit())) {
                if k == u1.distance_from(side) {
                    SURE
                } else {
                    0
                }
            } else if k == u1.distance_from(side) || k == u2.distance_from(side) {
                ONE_IN_TWO
            } else {
                0
            }
        },
    }
}

fn card_pair_of(c: Option<Card>) -> (r: (u8, u8))
    ensures
        r == card_pair(c),
{
    match c {
        Some(c) => (c.suit().index() + 1, c.figure().index() + 1),
        None => (0, 0),
    }
}

fn tail_bytes(side: Side, contract: &Contract) -> (r: Vec<u8>)
    requires
        contract.wf(),
    ensures
        r@ == tail_seq(side, *contract),
{
    let trick = contract.current_trick();
    let params = contract.contract_spec();
    let starter = contract.declarer().distance_from(side);
    let count = trick.count_cards();
    let left = card_pair_of(trick.card_of_side(side.next()));
    let partner = card_pair_of(trick.card_of_side(side.partner()));
    let right = card_pair_of(trick.card_of_side(side.prev()));
    let trump = trump_byte_of(params.bid().trump());
    let number = params.bid().number();
    let doubling = doubling_byte_of(params.doubling());
    let as_dummy: u8 = if contract.current_side() == contract.dummy() {
        1
    } else {
        0
    };
    let v = vec![
        starter,
        count,
        0u8,
        0u8,
        left.0,
        left.1,
        partner.0,
        partner.1,
        right.0,
        right.1,
        trump,
        number,
        doubling,
        as_dummy,
    ];
    assert(v@ =~= tail_seq(side, *contract));
    v
}

fn trump_byte_of(t: Trump) -> (r: u8)
    ensures
        r == trump_byte(t),
{
    match t {
        Trump::Colored(s) => s.index() + 1,
        Trump::NoTrump => 0,
    }
}

fn doubling_byte_of(d: Doubling) -> (r: u8)
    ensures
        r == doubling_byte(d),
{
    match d {
        Doubling::NoDouble => 0,
        Doubling::Double => 1,
        Doubling::Redouble => 2,
    }
}

impl ContractAgentInfoSetSimple {
    /// What this seat knows, as bytes: for each seat, counted clockwise from
    /// this one, a weight per card of the deck telling how likely that seat
    /// holds it; then the seat of the declarer, the size of the current trick,
    /// the cards the other seats put in it, the contract and whether the dummy
    /// is to play.
    ///
    /// The two bytes at `OWN_CARD` stay 0 even when this seat has already put
    /// a card in the trick: the encoding writes that card into the slot at
    /// `LEFT_CARD`, where the card of the next seat (or 0 when it has none)
    /// then takes its place.  That is the layout of this encoding.
    pub fn to_bytes(&self) -> (r: Vec<u8>)
        requires
            self.wf(),
        ensures
            r.len() == SIMPLE_INFO_SET_LENGTH,
            forall|i: int|
                0 <= i < SIMPLE_INFO_SET_LENGTH ==> #[trigger] r@[i] == simple_byte(
                    self.side_spec(),
                    self.hand_spec(),
                    self.dummy_hand_spec(),
                    self.contract_spec(),
                    i,
                ),
    {
        let side = self.id();
        let hand = self.hand();
        let dummy_hand = self.dummy_hand();
        let contract = self.contract_data();
        let ghost dh = self.dummy_hand_spec();
        let mut v: Vec<u8> = Vec::new();
        let mut pos: usize = 0;
        while pos < TRICK_STARTER
            invariant
                pos <= TRICK_STARTER,
                v.len() == pos,
                dh == match dummy_hand {
                    Some(d) => Some(*d),
                    None => None,
                },
                forall|i: int|
                    0 <= i < pos ==> #[trigger] v@[i] == simple_byte(side, *hand, dh, *contract, i),
            decreases TRICK_STARTER - pos,
        {
            let card = Card::from_index((pos % 52) as u8).unwrap();
            let k = (pos / 52) as u8;
            let b = hint_weight_of(side, hand, dummy_hand, contract, k, &card);
            v.push(b);
            pos = pos + 1;
        }
        let mut tail = tail_bytes(side, contract);
        let ghost tl = tail@;
        v.append(&mut tail);
        proof {
            assert forall|i: int| 0 <= i < SIMPLE_INFO_SET_LENGTH implies #[trigger] v@[i] == simple_byte(side, *hand, dh, *contract, i) by {
                if i >= TRICK_STARTER {
                    assert(v@[i] == tl[i - TRICK_STARTER]);
                }
            }
        }
        v
    }
}


/// Once the dummy has shown its hand, a card that is neither this seat's,
/// nor the dummy's, nor played lies in one of the two hands this seat does
/// not see.  When one of them is known to lack the card's suit and the other
/// is not, the other surely holds it and the lacking one gets 0; when neither
/// is, they share it.
pub proof fn hint_weight_follows_known_voids(
    side: Side,
    hand: CardSet,
    d: CardSet,
    contract: Contract,
    x: Side,
    y: Side,
    card: Card,
)
    requires
        side != contract.dummy_spec(),
        x != side,
        x != contract.dummy_spec(),
        y != side,
        y != contract.dummy_spec(),
        x != y,
        !hand.has(card),
        !d.has(card),
        !contract.used_spec().has(card),
    ensures
        contract.exhausted_spec().has(x, card.suit) && !contract.exhausted_spec().has(y, card.suit) ==> {
            &&& hint_weight(side, hand, Some(d), contract, side_distance(x, side) as int, card) == 0
            &&& hint_weight(side, hand, Some(d), contract, side_distance(y, side) as int, card) == SURE
        },
        !contract.exhausted_spec().has(x, card.suit) && !contract.exhausted_spec().has(y, card.suit) ==> {
            &&& hint_weight(side, hand, Some(d), contract, side_distance(x, side) as int, card) == ONE_IN_TWO
            &&& hint_weight(side, hand, Some(d), contract, side_distance(y, side) as int, card) == ONE_IN_TWO
        },
        hint_weight(side, hand, Some(d), contract, 0, card) == 0,
        hint_weight(side, hand, Some(d), contract, side_distance(contract.dummy_spec(), side) as int, card) == 0,
{
}

/// Weights of a card in the four hands (`k` steps after `side`): a card of
/// this seat is sure in its own hand and nowhere else; a played card is
/// nowhere; before the dummy shows its hand, any other card is shared by the
/// three other seats; after that, a card of the dummy is sure in the dummy's
/// hand and nowhere else.
pub proof fn hint_weight_of_seen_cards(
    side: Side,
    hand: CardSet,
    dummy_hand: Option<CardSet>,
    contract: Contract,
    k: int,
    card: Card,
)
    requires
        0 <= k < 4,
    ensures
        hand.has(card) ==> hint_weight(side, hand, dummy_hand, contract, k, card) == if k == 0 { SURE } else { 0 },
        !hand.has(card) && contract.used_spec().has(card) ==> hint_weight(side, hand, dummy_hand, contract, k, card) == 0,
        !hand.has(card) && !contract.used_spec().has(card) && dummy_hand is None
            ==> hint_weight(side, hand, dummy_hand, contract, k, card) == if k == 0 { 0 } else { ONE_IN_THREE },
        (dummy_hand matches Some(d) && d.has(card)) && !hand.has(card) && !contract.used_spec().has(card)
            ==> hint_weight(side, hand, dummy_hand, contract, k, card) == if side_at(side_index(side) + k) == contract.dummy_spec() {
            SURE
        } else {
            0
        },
{
}

} // verus!
