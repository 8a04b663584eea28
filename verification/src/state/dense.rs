use vstd::prelude::*;
use crate::bidding::Doubling;
use crate::card_set::CardSet;
use crate::cards::{Card, card_at, figure_index, suit_index, trump_index};
use crate::contract::{Contract, Trick};
use crate::player::{Side, side_at, side_distance, side_index};
use crate::state::contract_state_converter_common::{TRICK_NUMBER, TRICK_REPRESENTATION_SIZE};

verus! {

/// Number of values in the trick section of the dense encoding: the called
/// suit, the current trick and the thirteen tricks.
pub const DENSE_TRICKS_LENGTH: usize = 1 + TRICK_REPRESENTATION_SIZE * (TRICK_NUMBER + 1);

/// Suit and figure positions of a card; -1 for a missing card.
pub open spec fn card_code(c: Option<Card>) -> (i8, i8) {
    match c {
        Some(c) => (suit_index(c.suit) as i8, figure_index(c.figure) as i8),
        None => (-1i8, -1i8),
    }
}

/// Value `j` (in `0..8`) of the encoding of a trick: suit and figure of the
/// cards of declarer, whist, dummy and offside in turn.
pub open spec fn trick_code_at(t: Trick, declarer: Side, j: int) -> i8 {
    let code = card_code(t.card_of(side_at(side_index(declarer) + j / 2)));
    if j % 2 == 0 {
        code.0
    } else {
        code.1
    }
}

/// Value `i` of the trick section of the dense encoding: the called suit
/// (-1 for none), the current trick, then each of the thirteen tricks, with
/// -1 for the ones not played yet.
pub open spec fn dense_trick_value(contract: Contract, i: int) -> i8 {
    let declarer = contract.declarer_spec();
    if i == 0 {
        match contract.current_spec().called_suit_spec() {
            Some(s) => suit_index(s) as i8,
            None => -1i8,
        }
    } else if i < 1 + TRICK_REPRESENTATION_SIZE {
        trick_code_at(contract.current_spec(), declarer, i - 1)
    } else {
        let t = (i - 1 - TRICK_REPRESENTATION_SIZE) / (TRICK_REPRESENTATION_SIZE as int);
        let j = (i - 1 - TRICK_REPRESENTATION_SIZE) % (TRICK_REPRESENTATION_SIZE as int);
        if t < contract.tricks_spec().len() {
            trick_code_at(contract.tricks_spec()[t], declarer, j)
        } else {
            -1i8
        }
    }
}

/// The contract section of the dense encoding for `side`: its role (0 for
/// declarer to 3 for offside), the trump (0 for clubs to 4 for no trump),
/// the number and the doubling (0, 1, 2).
pub open spec fn dense_params(side: Side, contract: Contract) -> Seq<u8> {
    let p = contract.params_spec();
    seq![
        side_distance(side, p.declarer_spec()) as u8,
        trump_index(p.bid_spec().trump_spec()) as u8,
        p.bid_spec().number_spec(),
        match p.doubling_spec() {
            Doubling::NoDouble => 0u8,
            Doubling::Double => 1u8,
            Doubling::Redouble => 2u8,
        },
    ]
}

/// A flag per card of the deck telling whether `hand` holds it; all -1 when
/// the hand is unknown.
pub open spec fn dense_card_flag(hand: Option<CardSet>, i: int) -> i8 {
    match hand {
        Some(h) => if h.has(card_at(i)) {
            1
        } else {
            0
        },
        None => -1i8,
    }
}

fn card_code_of(c: Option<Card>) -> (r: (i8, i8))
    ensures
        r == card_code(c),
{
    match c {
        Some(c) => (c.suit().index() as i8, c.figure().index() as i8),
        None => (-1, -1),
    }
}

fn trick_code(t: &Trick, declarer: Side, j: usize) -> (r: i8)
    requires
        j < 8,
    ensures
        r == trick_code_at(*t, declarer, j as int),
{
    let code = card_code_of(t.card_of_side(declarer.next_i((j / 2) as u8)));
    if j % 2 == 0 {
        code.0
    } else {
        code.1
    }
}

/// The contract section of the dense encoding for `side`.
pub fn dense_contract_params(side: Side, contract: &Contract) -> (r: [u8; 4])
    ensures
        r@ == dense_params(side, *contract),
{
    let p = contract.contract_spec();
    let doubling: u8 = match p.doubling() {
        Doubling::NoDouble => 0,
        Doubling::Double => 1,
        Doubling::Redouble => 2,
    };
    let r = [side.distance_from(p.declarer()), p.bid().trump().index(), p.bid().number(), doubling];
    assert(r@ =~= dense_params(side, *contract));
    r
}

/// Flags of the cards a hand holds, in deck order; all -1 for an unknown hand.
pub fn dense_card_flags(hand: Option<&CardSet>) -> (r: Vec<i8>)
    ensures
        r.len() == 52,
        forall|i: int| 0 <= i < 52 ==> #[trigger] r@[i] == dense_card_flag(
            match hand {
                Some(h) => Some(*h),
                None => None,
            },
            i,
        ),
{
    let ghost h = match hand {
        Some(h) => Some(*h),
        None => None,
    };
    let mut v: Vec<i8> = Vec::new();
    let mut i: u8 = 0;
    while i < 52
        invariant
            i <= 52,
            v.len() == i,
            h == match hand {
                Some(h) => Some(*h),
                None => None,
            },
            forall|k: int| 0 <= k < i ==> #[trigger] v@[k] == dense_card_flag(h, k),
        decreases 52 - i,
    {
        let flag: i8 = match hand {
            Some(set) => {
                let c = Card::from_index(i).unwrap();
                if set.contains(&c) {
                    1
                } else {
                    0
                }
            },
            None => -1,
        };
        v.push(flag);
        i = i + 1;
    }
    v
}

/// The trick section of the dense encoding: the called suit, the current
/// trick and the thirteen tricks, seats in the order declarer, whist, dummy,
/// offside.
pub fn dense_tricks(contract: &Contract) -> (r: Vec<i8>)
    requires
        contract.wf(),
    ensures
        r.len() == DENSE_TRICKS_LENGTH,
        forall|i: int| 0 <= i < DENSE_TRICKS_LENGTH ==> #[trigger] r@[i] == dense_trick_value(*contract, i),
{
    let declarer = contract.declarer();
    let done = contract.count_completed_tricks();
    let tricks = contract.completed_tricks();
    let current = contract.current_trick();
    let mut v: Vec<i8> = Vec::new();
    let mut i: usize = 0;
    while i < DENSE_TRICKS_LENGTH
        invariant
            i <= DENSE_TRICKS_LENGTH,
            v.len() == i,
            declarer == contract.declarer_spec(),
            done == contract.tricks_spec().len(),
            tricks@ == contract.tricks_spec(),
            *current == contract.current_spec(),
            forall|k: int| 0 <= k < i ==> #[trigger] v@[k] == dense_trick_value(*contract, k),
        decreases DENSE_TRICKS_LENGTH - i,
    {
        let value: i8 = if i == 0 {
            match current.called_suit() {
                Some(s) => s.index() as i8,
                None => -1,
            }
        } else if i < 1 + TRICK_REPRESENTATION_SIZE {
            trick_code(current, declarer, i - 1)
        } else {
            let t = (i - 1 - TRICK_REPRESENTATION_SIZE) / TRICK_REPRESENTATION_SIZE;
            let j = (i - 1 - TRICK_REPRESENTATION_SIZE) % TRICK_REPRESENTATION_SIZE;
            if t < done {
                trick_code(&tricks[t], declarer, j)
            } else {
                -1
            }
        };
        v.push(value);
        i = i + 1;
    }
    v
}

/// Number of values in the trick section of the normalised dense encoding.
pub const DENSE_TRICKS_N_LENGTH: usize = TRICK_REPRESENTATION_SIZE * TRICK_NUMBER;

/// Suit and figure positions of a card, each plus one; -1 for a missing card.
pub open spec fn card_code_n(c: Option<Card>) -> (i8, i8) {
    match c {
        Some(c) => ((suit_index(c.suit) + 1) as i8, (figure_index(c.figure) + 1) as i8),
        None => (-1i8, -1i8),
    }
}

/// Value `j` (in `0..8`) of the normalised encoding of a trick.
pub open spec fn trick_code_n_at(t: Trick, declarer: Side, j: int) -> i8 {
    let code = card_code_n(t.card_of(side_at(side_index(declarer) + j / 2)));
    if j % 2 == 0 {
        code.0
    } else {
        code.1
    }
}

/// Value `i` of the trick section of the normalised dense encoding: the
/// completed tricks, then the current trick in the next slot, then -1 for the
/// tricks to come.
pub open spec fn dense_trick_n_value(contract: Contract, i: int) -> i8 {
    let declarer = contract.declarer_spec();
    let t = i / (TRICK_REPRESENTATION_SIZE as int);
    let j = i % (TRICK_REPRESENTATION_SIZE as int);
    if t < contract.tricks_spec().len() {
        trick_code_n_at(contract.tricks_spec()[t], declarer, j)
    } else if t == contract.tricks_spec().len() {
        trick_code_n_at(contract.current_spec(), declarer, j)
    } else {
        -1i8
    }
}

fn card_code_n_of(c: Option<Card>) -> (r: (i8, i8))
    ensures
        r == card_code_n(c),
{
    match c {
        Some(c) => ((c.suit().index() + 1) as i8, (c.figure().index() + 1) as i8),
        None => (-1, -1),
    }
}

fn trick_code_n(t: &Trick, declarer: Side, j: usize) -> (r: i8)
    requires
        j < 8,
    ensures
        r == trick_code_n_at(*t, declarer, j as int),
{
    let code = card_code_n_of(t.card_of_side(declarer.next_i((j / 2) as u8)));
    if j % 2 == 0 {
        code.0
    } else {
        code.1
    }
}

/// The trick section of the normalised dense encoding, seats in the order
/// declarer, whist, dummy, offside. The current trick takes the slot after
/// the completed ones, so a contract with all tricks played has no room for
/// it.
pub fn dense_tricks_n(contract: &Contract) -> (r: Vec<i8>)
    requires
        contract.wf(),
        !contract.is_completed_spec(),
    ensures
        r.len() == DENSE_TRICKS_N_LENGTH,
        forall|i: int| 0 <= i < DENSE_TRICKS_N_LENGTH ==> #[trigger] r@[i] == dense_trick_n_value(*contract, i),
{
    let declarer = contract.declarer();
    let done = contract.count_completed_tricks();
    let tricks = contract.completed_tricks();
    let current = contract.current_trick();
    let mut v: Vec<i8> = Vec::new();
    let mut i: usize = 0;
    while i < DENSE_TRICKS_N_LENGTH
        invariant
            i <= DENSE_TRICKS_N_LENGTH,
            v.len() == i,
            declarer == contract.declarer_spec(),
            done == contract.tricks_spec().len(),
            tricks@ == contract.tricks_spec(),
            *current == contract.current_spec(),
            forall|k: int| 0 <= k < i ==> #[trigger] v@[k] == dense_trick_n_value(*contract, k),
        decreases DENSE_TRICKS_N_LENGTH - i,
    {
        let t = i / TRICK_REPRESENTATION_SIZE;
        let j = i % TRICK_REPRESENTATION_SIZE;
        let value: i8 = if t < done {
            trick_code_n(&tricks[t], declarer, j)
        } else if t == done {
            trick_code_n(current, declarer, j)
        } else {
            -1
        };
        v.push(value);
        i = i + 1;
    }
    v
}

} // verus!
