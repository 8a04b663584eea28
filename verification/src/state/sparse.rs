use vstd::prelude::*;
use crate::cards::{Card, card_index, suit_index, trump_index};
use crate::contract::Contract;
use crate::player::{Side, side_at, side_distance, side_index};
use crate::state::contract_state_sparse_convert_with_init_assumption::{
    CALLED_SUIT_OFFSET, CONTRACT_ROLE_OFFSET, CONTRACT_TRUMP_OFFSET, OWN_CARD_PLACED_OFFSET,
    SPARSE_DECK_SIZE, TRICK_STARTING_SIDE_OFFSET,
};
use crate::state::contract_state_sparse_with_history::CONTRACT_HISTORY_OFFSET;

verus! {

/// Position of the flag of a card placed by the seat `i` steps after the
/// owner, when that seat has placed one.
pub open spec fn placed_flag(c: Option<Card>, i: int) -> Seq<usize> {
    match c {
        Some(c) => seq![(OWN_CARD_PLACED_OFFSET + i * SPARSE_DECK_SIZE + card_index(c)) as usize],
        None => Seq::empty(),
    }
}

/// Flags of the contract and the start of the current trick: the owner's
/// role, the trump, the called suit when a card has been led, and the seat
/// that led, counted from the owner.
pub open spec fn sparse_prefix(side: Side, contract: Contract) -> Seq<usize> {
    let p = contract.params_spec();
    let trick = contract.current_spec();
    let called = match trick.called_suit_spec() {
        Some(s) => seq![(CALLED_SUIT_OFFSET + suit_index(s)) as usize],
        None => Seq::empty(),
    };
    seq![
        (CONTRACT_ROLE_OFFSET + side_distance(side, p.declarer_spec())) as usize,
        (CONTRACT_TRUMP_OFFSET + trump_index(p.bid_spec().trump_spec())) as usize,
    ] + called + seq![(TRICK_STARTING_SIDE_OFFSET + side_distance(trick.first_spec(), side)) as usize]
}

/// Flags of the cards placed in the current trick by the owner and the
/// seats after it.
pub open spec fn sparse_placed(side: Side, contract: Contract) -> Seq<usize> {
    let trick = contract.current_spec();
    placed_flag(trick.card_of(side), 0) + placed_flag(trick.card_of(side_at(side_index(side) + 1)), 1)
        + placed_flag(trick.card_of(side_at(side_index(side) + 2)), 2) + placed_flag(
        trick.card_of(side_at(side_index(side) + 3)),
        3,
    )
}

/// Positions set to one in the sparse encoding of what `side` knows, in
/// writing order.
pub open spec fn sparse_flags_spec(side: Side, contract: Contract) -> Seq<usize> {
    sparse_prefix(side, contract) + sparse_placed(side, contract)
}

/// Positions set to one in the history section: for completed trick `t` and
/// the seat `p` steps after the owner, the flag of the card that seat played.
pub open spec fn history_flag(side: Side, contract: Contract, k: int) -> usize {
    let t = k / 4;
    let p = k % 4;
    let c = contract.tricks_spec()[t].card_of(side_at(side_index(side) + p))->0;
    (CONTRACT_HISTORY_OFFSET + k * SPARSE_DECK_SIZE + card_index(c)) as usize
}

fn push_placed(v: &mut Vec<usize>, c: Option<Card>, i: usize)
    requires
        i < 4,
    ensures
        final(v)@ == old(v)@ + placed_flag(c, i as int),
{
    match c {
        Some(c) => {
            v.push(OWN_CARD_PLACED_OFFSET + i * SPARSE_DECK_SIZE + c.index() as usize);
            assert(final(v)@ =~= old(v)@ + placed_flag(Some(c), i as int));
        },
        None => {
            assert(v@ =~= old(v)@ + placed_flag(None, i as int));
        },
    }
}

fn prefix_flags(side: Side, contract: &Contract) -> (r: Vec<usize>)
    requires
        contract.wf(),
    ensures
        r@ == sparse_prefix(side, *contract),
{
    let p = contract.contract_spec();
    let trick = contract.current_trick();
    let mut v: Vec<usize> = Vec::new();
    v.push(CONTRACT_ROLE_OFFSET + side.distance_from(p.declarer()) as usize);
    v.push(CONTRACT_TRUMP_OFFSET + p.bid().trump().index() as usize);
    match trick.called_suit() {
        Some(s) => {
            v.push(CALLED_SUIT_OFFSET + s.index() as usize);
        },
        None => {},
    }
    v.push(TRICK_STARTING_SIDE_OFFSET + trick.first_player_side().distance_from(side) as usize);
    assert(v@ =~= sparse_prefix(side, *contract));
    v
}

fn placed_flags(side: Side, contract: &Contract) -> (r: Vec<usize>)
    ensures
        r@ == sparse_placed(side, *contract),
{
    let trick = contract.current_trick();
    let ghost t = contract.current_spec();
    let mut v: Vec<usize> = Vec::new();
    push_placed(&mut v, trick.card_of_side(side), 0);
    assert(v@ =~= placed_flag(t.card_of(side), 0));
    push_placed(&mut v, trick.card_of_side(side.next()), 1);
    push_placed(&mut v, trick.card_of_side(side.partner()), 2);
    push_placed(&mut v, trick.card_of_side(side.prev()), 3);
    v
}

/// Positions of the flags of the sparse encoding of what `side` knows (the
/// contract value, the doubling and the card weights are not flags).
pub fn sparse_flags(side: Side, contract: &Contract) -> (r: Vec<usize>)
    requires
        contract.wf(),
    ensures
        r@ == sparse_flags_spec(side, *contract),
{
    let mut v = prefix_flags(side, contract);
    let mut placed = placed_flags(side, contract);
    v.append(&mut placed);
    v
}

/// Positions of the flags of the history section of the sparse encoding.
pub fn sparse_history_flags(side: Side, contract: &Contract) -> (r: Vec<usize>)
    requires
        contract.wf(),
    ensures
        r.len() == 4 * contract.tricks_spec().len(),
        forall|k: int| 0 <= k < r.len() ==> #[trigger] r@[k] == history_flag(side, *contract, k),
{
    let tricks = contract.completed_tricks();
    let mut v: Vec<usize> = Vec::new();
    let mut k: usize = 0;
    while k < 4 * tricks.len()
        invariant
            k <= 4 * tricks.len(),
            tricks@ == contract.tricks_spec(),
            contract.wf(),
            v.len() == k,
            forall|j: int| 0 <= j < k ==> #[trigger] v@[j] == history_flag(side, *contract, j),
        decreases 4 * tricks.len() - k,
    {
        let t = k / 4;
        let p = k % 4;
        let trick = &tricks[t];
        assert(trick.wf() && trick.cards_spec().len() == 4);
        proof {
            crate::player::lemma_seat_distance(trick.first_spec(), 0);
            assert(side_distance(side_at(side_index(side) + p as int), trick.first_spec()) < 4);
        }
        let c = match trick.card_of_side(side.next_i(p as u8)) {
            Some(c) => c,
            None => {
                proof {
                    assert(false);
                }
                Card::new(crate::cards::Figure::Two, crate::cards::Suit::Clubs)
            },
        };
        v.push(CONTRACT_HISTORY_OFFSET + k * SPARSE_DECK_SIZE + c.index() as usize);
        k = k + 1;
    }
    v
}

} // verus!
