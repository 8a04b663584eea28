use vstd::prelude::*;
use crate::card_set::CardSet;
use crate::cards::{Card, DECK_SIZE, Trump, card_at, card_index, suit_index};
use crate::contract::Contract;
use crate::player::{Side, side_at, side_index};
use crate::state::agent::ContractAgentInfoSetSimple;

verus! {

/// Length of a row of the history encoding: a value per card and a flag.
pub const HISTORY_ROW: usize = DECK_SIZE + 1;

/// Value `i` of a row marking one card: 1 at the card's position and at the
/// final flag, 0 elsewhere; all 0 when there is no card.
pub open spec fn card_mask_at(c: Option<Card>, i: int) -> u8 {
    match c {
        Some(c) => if i == card_index(c) || i == DECK_SIZE {
            1
        } else {
            0
        },
        None => 0,
    }
}

/// Value `i` of a row of the cards of a hand: 1 for a held card, 0 for any
/// other, and 1 at the final flag.
pub open spec fn hand_row_at(hand: CardSet, i: int) -> u8 {
    if i == DECK_SIZE {
        1
    } else if hand.has(card_at(i)) {
        1
    } else {
        0
    }
}

/// Value `i` of the contract row: the number, a flag for a trump suit, the
/// trump suit's position, zeros after.
pub open spec fn contract_row_at(contract: Contract, i: int) -> u8 {
    let bid = contract.params_spec().bid_spec();
    if i == 0 {
        bid.number_spec()
    } else if i == 1 {
        match bid.trump_spec() {
            Trump::Colored(_) => 1,
            Trump::NoTrump => 0,
        }
    } else if i == 2 {
        match bid.trump_spec() {
            Trump::Colored(s) => suit_index(s) as u8,
            Trump::NoTrump => 0,
        }
    } else {
        0
    }
}

/// Card put by the seat `relative_side` steps after `side` in trick
/// `trick_number`: the current trick when no more tricks were completed, a
/// completed trick when there is one, no card for tricks to come.
pub open spec fn trick_card(contract: Contract, side: Side, trick_number: int, relative_side: int) -> Option<Card> {
    let seat = side_at(side_index(side) + relative_side);
    if contract.tricks_spec().len() < trick_number {
        None
    } else if contract.tricks_spec().len() == trick_number {
        contract.current_spec().card_of(seat)
    } else {
        contract.tricks_spec()[trick_number].card_of(seat)
    }
}

fn mask_row(c: Option<Card>) -> (r: Vec<u8>)
    ensures
        r.len() == HISTORY_ROW,
        forall|i: int| 0 <= i < HISTORY_ROW ==> #[trigger] r@[i] == card_mask_at(c, i),
{
    let mut v: Vec<u8> = Vec::new();
    let pos: Option<usize> = match c {
        Some(card) => Some(card.index() as usize),
        None => None,
    };
    let mut i: usize = 0;
    while i < HISTORY_ROW
        invariant
            i <= HISTORY_ROW,
            v.len() == i,
            pos == match c {
                Some(card) => Some(card_index(card) as usize),
                None => None::<usize>,
            },
            forall|k: int| 0 <= k < i ==> #[trigger] v@[k] == card_mask_at(c, k),
        decreases HISTORY_ROW - i,
    {
        let value: u8 = match pos {
            Some(p) => if i == p || i == DECK_SIZE {
                1
            } else {
                0
            },
            None => 0,
        };
        v.push(value);
        i = i + 1;
    }
    v
}

fn hand_row(hand: &CardSet) -> (r: Vec<u8>)
    ensures
        r.len() == HISTORY_ROW,
        forall|i: int| 0 <= i < HISTORY_ROW ==> #[trigger] r@[i] == hand_row_at(*hand, i),
{
    let mut v: Vec<u8> = Vec::new();
    let mut i: u8 = 0;
    while i < 52
        invariant
            i <= 52,
            v.len() == i,
            forall|k: int| 0 <= k < i ==> #[trigger] v@[k] == hand_row_at(*hand, k),
        decreases 52 - i,
    {
        let c = Card::from_index(i).unwrap();
        v.push(if hand.contains(&c) {
            1
        } else {
            0
        });
        i = i + 1;
    }
    v.push(1);
    v
}

impl ContractAgentInfoSetSimple {
    /// Row of the contract: number, trump flag and trump suit.
    pub fn contract_params(&self) -> (r: Vec<u8>)
        ensures
            r.len() == HISTORY_ROW,
            forall|i: int| 0 <= i < HISTORY_ROW ==> #[trigger] r@[i] == contract_row_at(self.contract_spec(), i),
    {
        let bid = self.contract_data().contract_spec().bid();
        let mut v: Vec<u8> = Vec::new();
        v.push(bid.number());
        match bid.trump() {
            Trump::Colored(s) => {
                v.push(1);
                v.push(s.index());
            },
            Trump::NoTrump => {
                v.push(0);
                v.push(0);
            },
        }
        let mut i: usize = 3;
        while i < HISTORY_ROW
            invariant
                3 <= i <= HISTORY_ROW,
                v.len() == i,
                *bid == self.contract_spec().params_spec().bid_spec(),
                forall|k: int| 0 <= k < i ==> #[trigger] v@[k] == contract_row_at(self.contract_spec(), k),
            decreases HISTORY_ROW - i,
        {
            v.push(0);
            i = i + 1;
        }
        v
    }

    /// Row of this seat's cards.
    pub fn actual_cards(&self) -> (r: Vec<u8>)
        ensures
            r.len() == HISTORY_ROW,
            forall|i: int| 0 <= i < HISTORY_ROW ==> #[trigger] r@[i] == hand_row_at(self.hand_spec(), i),
    {
        hand_row(self.hand())
    }

    /// Row of the dummy's cards; all zeros before the dummy shows its hand.
    pub fn actual_dummy_cards(&self) -> (r: Vec<u8>)
        ensures
            r.len() == HISTORY_ROW,
            forall|i: int|
                0 <= i < HISTORY_ROW ==> #[trigger] r@[i] == match self.dummy_hand_spec() {
                    Some(d) => hand_row_at(d, i),
                    None => 0,
                },
    {
        match self.dummy_hand() {
            Some(d) => hand_row(d),
            None => mask_row(None),
        }
    }

    /// Row of the card put by the seat `relative_side` steps after this one
    /// in trick `trick_number`.
    pub fn trick_cards(&self, trick_number: usize, relative_side: u8) -> (r: Vec<u8>)
        requires
            self.wf(),
        ensures
            r.len() == HISTORY_ROW,
            forall|i: int| 0 <= i < HISTORY_ROW ==> #[trigger] r@[i] == card_mask_at(
                trick_card(self.contract_spec(), self.side_spec(), trick_number as int, relative_side as int),
                i,
            ),
    {
        let contract = self.contract_data();
        let seat = self.id().next_i(relative_side);
        let done = contract.count_completed_tricks();
        if done < trick_number {
            mask_row(None)
        } else if done == trick_number {
            mask_row(contract.current_trick().card_of_side(seat))
        } else {
            mask_row(contract.completed_tricks()[trick_number].card_of_side(seat))
        }
    }
}

} // verus!
