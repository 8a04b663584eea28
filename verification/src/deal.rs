use vstd::prelude::*;
use rand::seq::SliceRandom;
use rand::rngs::StdRng;
use crate::card_set::CardSet;
use crate::cards::{Card, Figure, Suit, figure_at, figure_index, suit_at, suit_index};
use crate::player::{Side, SideMap, side_at, side_distance, side_index};
use crate::bidding::Bid;
use crate::cards::Trump;
use crate::contract::ContractParametersGen;

verus! {

broadcast use vstd::seq_lib::group_to_multiset_ensures;

/// Marker for the hand-distribution procedures of this module.
pub struct HandDistribution {}

/// Card at position `k` of the standard deck order: figures ascending, and
/// within a figure the suits in bridge order (two of clubs first).
pub open spec fn standard_deck_card(k: int) -> Card {
    Card { figure: figure_at(k / 4), suit: suit_at(k % 4) }
}

/// Number of cards of a hand of `side` when `n` cards are dealt starting from
/// `first`: a quarter of the cards each, and the seats just before `first`
/// (counting backwards from it) take the remaining cards one each.
pub open spec fn partial_hand_size(n: nat, first: Side, side: Side) -> nat {
    let rest = n % 4;
    if rest > 0 && side_distance(side, first) >= 4 - rest {
        n / 4 + 1
    } else {
        n / 4
    }
}

/// Position of the bounds of the cards popped for each hand when the hands
/// are filled from the end of the cards: north first, then south, east, west.
pub open spec fn pop_bounds(len: int, sizes: SideMap<usize>, side: Side) -> (int, int) {
    match side {
        Side::North => (len - sizes.north, len),
        Side::South => (len - sizes.north - sizes.south, len - sizes.north),
        Side::East => (sizes.west as int, sizes.west + sizes.east),
        Side::West => (0, sizes.west as int),
    }
}

/// Whether some seat holds `c`.
pub open spec fn held_by_some(hands: SideMap<CardSet>, c: Card) -> bool {
    exists|s: Side| #[trigger] hands.at(s).has(c)
}

/// Every card of `cards` lies in exactly one hand, and the hands hold no other card.
pub open spec fn partitions(hands: SideMap<CardSet>, cards: Seq<Card>) -> bool {
    &&& forall|c: Card, s: Side| #[trigger] hands.at(s).has(c) ==> cards.contains(c)
    &&& forall|c: Card| #[trigger] cards.contains(c) ==> held_by_some(hands, c)
    &&& forall|c: Card, s: Side, t: Side| #[trigger] hands.at(s).has(c) && #[trigger] hands.at(t).has(c) ==> s == t
}

/// The 52 cards of the standard deck in standard order.
pub fn standard_deck() -> (r: Vec<Card>)
    ensures
        r@.len() == 52,
        forall|k: int| 0 <= k < 52 ==> #[trigger] r@[k] == standard_deck_card(k),
        r@.no_duplicates(),
        forall|c: Card| r@.contains(c),
{
    let mut v: Vec<Card> = Vec::new();
    let mut i: u8 = 0;
    while i < 52
        invariant
            i <= 52,
            v@.len() == i,
            forall|k: int| 0 <= k < i ==> #[trigger] v@[k] == standard_deck_card(k),
        decreases 52 - i,
    {
        let f = Figure::from_index(i / 4).unwrap();
        let s = Suit::from_index(i % 4).unwrap();
        v.push(Card { figure: f, suit: s });
        i = i + 1;
    }
    proof {
        assert forall|a: int, b: int| 0 <= a < v@.len() && 0 <= b < v@.len() && a != b implies v@[a] != v@[b] by {
            assert(figure_index(figure_at(a / 4)) == a / 4);
            assert(figure_index(figure_at(b / 4)) == b / 4);
            assert(suit_index(suit_at(a % 4)) == a % 4);
            assert(suit_index(suit_at(b % 4)) == b % 4);
        }
        assert forall|c: Card| v@.contains(c) by {
            let k = figure_index(c.figure) * 4 + suit_index(c.suit);
            assert(k / 4 == figure_index(c.figure));
            assert(k % 4 == suit_index(c.suit));
            assert(v@[k] == c);
        }
    }
    v
}

/// Calls `rand::seq::SliceRandom::shuffle` with the thread-local generator
/// `rand::rng()`.  Which order comes out is left open; the contract states
/// only that the cards are rearranged: the same cards, each as often as before.
#[verifier::external_body]
pub(crate) fn shuffle_cards(cards: &mut Vec<Card>)
    ensures
        final(cards)@.to_multiset() == old(cards)@.to_multiset(),
{
    cards.shuffle(&mut rand::rng());
}

/// The seedable generator of `rand`; a caller that seeds it the same way
/// gets the same deals.
#[verifier::external_type_specification]
#[verifier::external_body]
pub struct ExStdRng(rand::rngs::StdRng);

/// Calls `rand::seq::SliceRandom::shuffle` with the caller's generator `rng`,
/// which it advances.  Which order comes out depends on the state of `rng`,
/// which Verus does not see; the contract states only that the cards are
/// rearranged: the same cards, each as often as before.
#[verifier::external_body]
pub(crate) fn shuffle_cards_with(cards: &mut Vec<Card>, rng: &mut StdRng)
    ensures
        final(cards)@.to_multiset() == old(cards)@.to_multiset(),
{
    cards.shuffle(rng);
}

proof fn lemma_shuffle_keeps(old_cards: Seq<Card>, new_cards: Seq<Card>)
    requires
        new_cards.to_multiset() == old_cards.to_multiset(),
        old_cards.no_duplicates(),
    ensures
        new_cards.no_duplicates(),
        new_cards.len() == old_cards.len(),
        forall|c: Card| new_cards.contains(c) == old_cards.contains(c),
{
    broadcast use vstd::seq_lib::group_to_multiset_ensures;
    old_cards.lemma_multiset_has_no_duplicates();
    new_cards.lemma_multiset_has_no_duplicates_conv();
    assert(new_cards.to_multiset().len() == new_cards.len());
    assert(old_cards.to_multiset().len() == old_cards.len());
    new_cards.to_multiset_ensures();
    old_cards.to_multiset_ensures();
    assert forall|c: Card| new_cards.contains(c) == old_cards.contains(c) by {
        let m1 = new_cards.to_multiset();
        let m2 = old_cards.to_multiset();
        assert(m1.count(c) == m2.count(c));
        assert(new_cards.contains(c) <==> m1.count(c) > 0);
        assert(old_cards.contains(c) <==> m2.count(c) > 0);
    }
}

/// Pops `count` cards from the end of `v` into a new card set.
fn take_from_end(v: &mut Vec<Card>, count: usize) -> (r: CardSet)
    requires
        old(v)@.no_duplicates(),
        count <= old(v)@.len(),
    ensures
        final(v)@ == old(v)@.subrange(0, old(v)@.len() - count),
        forall|c: Card| #[trigger] r.has(c) == old(v)@.subrange(old(v)@.len() - count, old(v)@.len() as int).contains(c),
        r.size() == count,
{
    let ghost orig = v@;
    let len = v.len();
    let mut set = CardSet::empty();
    let mut taken: usize = 0;
    proof {
        assert(v@ =~= orig.subrange(0, len as int));
    }
    while taken < count
        invariant
            orig.no_duplicates(),
            len == orig.len(),
            count <= len,
            taken <= count,
            v@ == orig.subrange(0, len - taken),
            forall|c: Card| #[trigger] set.has(c) == orig.subrange(len - taken, len as int).contains(c),
            set.size() == taken,
        decreases count - taken,
    {
        let ghost m = len - taken;
        let c = v.pop().unwrap();
        proof {
            assert(c == orig[m - 1]);
            assert(!orig.subrange(m, len as int).contains(c)) by {
                if orig.subrange(m, len as int).contains(c) {
                    let k = choose|k: int| 0 <= k < len - m && orig.subrange(m, len as int)[k] == c;
                    assert(orig[m + k] == orig[m - 1]);
                }
            }
        }
        let ghost before = set;
        let _ = set.insert_card(c);
        taken = taken + 1;
        proof {
            assert(v@ =~= orig.subrange(0, len - taken));
            assert forall|x: Card| #[trigger] set.has(x) == orig.subrange(len - taken, len as int).contains(x) by {
                let sub = orig.subrange(len - taken, len as int);
                let sub_old = orig.subrange(m, len as int);
                assert(sub[0] == c);
                if sub_old.contains(x) {
                    let k = choose|k: int| 0 <= k < sub_old.len() && sub_old[k] == x;
                    assert(sub[k + 1] == x);
                }
                if sub.contains(x) {
                    let k = choose|k: int| 0 <= k < sub.len() && sub[k] == x;
                    if k > 0 {
                        assert(sub_old[k - 1] == x);
                    }
                }
            }
        }
    }
    set
}

/// Fills the hands by popping cards from the end of `cards`: `sizes.north`
/// cards for north, then south, east and west.
pub fn deal_by_sizes(cards: Vec<Card>, sizes: SideMap<usize>) -> (r: SideMap<CardSet>)
    requires
        cards@.no_duplicates(),
        sizes.north + sizes.south + sizes.east + sizes.west == cards@.len(),
    ensures
        forall|s: Side, c: Card| #[trigger] r.at(s).has(c) == cards@.subrange(
            pop_bounds(cards@.len() as int, sizes, s).0,
            pop_bounds(cards@.len() as int, sizes, s).1,
        ).contains(c),
        forall|s: Side| #[trigger] r.at(s).size() == sizes.at(s),
{
    let ghost orig = cards@;
    let ghost len = orig.len() as int;
    let mut v = cards;
    let north = take_from_end(&mut v, sizes.north);
    proof {
        assert forall|a: int, b: int| 0 <= a < b < v@.len() implies v@[a] != v@[b] by {
            assert(v@[a] == orig[a] && v@[b] == orig[b]);
        }
    }
    let ghost v1 = v@;
    let south = take_from_end(&mut v, sizes.south);
    proof {
        assert forall|a: int, b: int| 0 <= a < b < v@.len() implies v@[a] != v@[b] by {
            assert(v@[a] == orig[a] && v@[b] == orig[b]);
        }
    }
    let ghost v2 = v@;
    let east = take_from_end(&mut v, sizes.east);
    proof {
        assert forall|a: int, b: int| 0 <= a < b < v@.len() implies v@[a] != v@[b] by {
            assert(v@[a] == orig[a] && v@[b] == orig[b]);
        }
    }
    let ghost v3 = v@;
    let west = take_from_end(&mut v, sizes.west);
    let r = SideMap { north, east, south, west };
    proof {
        assert(v1.subrange(v1.len() - sizes.south, v1.len() as int) =~= orig.subrange(len - sizes.north - sizes.south, len - sizes.north));
        assert(v2.subrange(v2.len() - sizes.east, v2.len() as int) =~= orig.subrange(sizes.west as int, sizes.west + sizes.east));
        assert(v3.subrange(v3.len() - sizes.west, v3.len() as int) =~= orig.subrange(0, sizes.west as int));
        assert forall|s: Side, c: Card| #[trigger] r.at(s).has(c) == orig.subrange(
            pop_bounds(len, sizes, s).0,
            pop_bounds(len, sizes, s).1,
        ).contains(c) by {
        }
    }
    r
}

/// A hand of each seat holds exactly the cards of its segment, so the hands
/// split the cards among the seats.
proof fn lemma_segments_partition(cards: Seq<Card>, sizes: SideMap<usize>, hands: SideMap<CardSet>)
    requires
        cards.no_duplicates(),
        sizes.north + sizes.south + sizes.east + sizes.west == cards.len(),
        forall|s: Side, c: Card| #[trigger] hands.at(s).has(c) == cards.subrange(
            pop_bounds(cards.len() as int, sizes, s).0,
            pop_bounds(cards.len() as int, sizes, s).1,
        ).contains(c),
    ensures
        partitions(hands, cards),
{
    let len = cards.len() as int;
    assert forall|c: Card, s: Side| #[trigger] hands.at(s).has(c) implies cards.contains(c) by {
        let (lo, hi) = pop_bounds(len, sizes, s);
        let k = choose|k: int| 0 <= k < hi - lo && cards.subrange(lo, hi)[k] == c;
        assert(cards[lo + k] == c);
    }
    assert forall|c: Card| #[trigger] cards.contains(c) implies held_by_some(hands, c) by {
        let k = choose|k: int| 0 <= k < len && cards[k] == c;
        let s = if k >= len - sizes.north {
            Side::North
        } else if k >= len - sizes.north - sizes.south {
            Side::South
        } else if k >= sizes.west {
            Side::East
        } else {
            Side::West
        };
        let (lo, hi) = pop_bounds(len, sizes, s);
        assert(cards.subrange(lo, hi)[k - lo] == c);
        assert(hands.at(s).has(c));
    }
    assert forall|c: Card, s: Side, t: Side| #[trigger] hands.at(s).has(c) && #[trigger] hands.at(t).has(c) implies s == t by {
        let (lo1, hi1) = pop_bounds(len, sizes, s);
        let (lo2, hi2) = pop_bounds(len, sizes, t);
        let k1 = choose|k: int| 0 <= k < hi1 - lo1 && cards.subrange(lo1, hi1)[k] == c;
        let k2 = choose|k: int| 0 <= k < hi2 - lo2 && cards.subrange(lo2, hi2)[k] == c;
        assert(cards[lo1 + k1] == cards[lo2 + k2]);
    }
}

/// Number of cards each seat gets when `n` cards are dealt starting from
/// `first_side`.
pub fn partial_hand_sizes(n: usize, first_side: Side) -> (r: SideMap<usize>)
    ensures
        forall|s: Side| #[trigger] r.at(s) == partial_hand_size(n as nat, first_side, s),
        r.north + r.south + r.east + r.west == n,
{
    let min_hands = n / 4;
    let rest = n - 4 * min_hands;
    let mut tmp = SideMap::new(min_hands, min_hands, min_hands, min_hands);
    let mut i: usize = 0;
    while i < rest
        invariant
            rest == n % 4,
            min_hands == n / 4,
            i <= rest,
            rest < 4,
            tmp.north + tmp.south + tmp.east + tmp.west == 4 * min_hands + i,
            forall|s: Side| #[trigger] tmp.at(s) == if side_distance(s, first_side) >= 4 - i && i > 0 {
                min_hands + 1
            } else {
                min_hands as int
            },
        decreases rest - i,
    {
        let side = first_side.next_i((3 - i) as u8);
        let ghost prev = tmp;
        proof {
            crate::player::lemma_seat_distance(first_side, 3 - i);
            assert(tmp.at(side) == min_hands);
        }
        match side {
            Side::North => tmp.north = tmp.north + 1,
            Side::East => tmp.east = tmp.east + 1,
            Side::South => tmp.south = tmp.south + 1,
            Side::West => tmp.west = tmp.west + 1,
        }
        i = i + 1;
        proof {
            assert forall|s: Side| #[trigger] tmp.at(s) == if side_distance(s, first_side) >= 4 - i && i > 0 {
                min_hands + 1
            } else {
                min_hands as int
            } by {
                crate::player::lemma_distance_injective(s, side, first_side);
                if s != side {
                    assert(tmp.at(s) == prev.at(s));
                }
            }
        }
    }
    tmp
}

/// Deals `card_supply` at random: each seat gets a quarter of the cards, and
/// the seats counted backwards from `first_side` take the remaining ones.
pub fn fair_bridge_partial_deal(card_supply: Vec<Card>, first_side: Side) -> (r: SideMap<CardSet>)
    requires
        card_supply@.no_duplicates(),
    ensures
        forall|s: Side| #[trigger] r.at(s).size() == partial_hand_size(card_supply@.len(), first_side, s),
        partitions(r, card_supply@),
{
    let sizes = partial_hand_sizes(card_supply.len(), first_side);
    let ghost before = card_supply@;
    let mut cards = card_supply;
    shuffle_cards(&mut cards);
    proof {
        lemma_shuffle_keeps(before, cards@);
    }
    let r = deal_by_sizes(cards, sizes);
    proof {
        lemma_segments_partition(cards@, sizes, r);
        assert forall|c: Card| cards@.contains(c) == before.contains(c) by {}
    }
    r
}

/// Deals the whole deck at random, thirteen cards to each seat.
pub fn fair_bridge_deal() -> (r: SideMap<CardSet>)
    ensures
        forall|s: Side| #[trigger] r.at(s).size() == 13,
        forall|c: Card| #[trigger] held_by_some(r, c),
        forall|c: Card, s: Side, t: Side| #[trigger] r.at(s).has(c) && #[trigger] r.at(t).has(c) ==> s == t,
{
    let mut cards = standard_deck();
    let ghost before = cards@;
    shuffle_cards(&mut cards);
    proof {
        lemma_shuffle_keeps(before, cards@);
    }
    let sizes = SideMap::new_symmetric(13usize);
    assert(sizes.at(Side::North) == 13 && sizes.at(Side::East) == 13 && sizes.at(Side::South) == 13
        && sizes.at(Side::West) == 13);
    let r = deal_by_sizes(cards, sizes);
    proof {
        lemma_segments_partition(cards@, sizes, r);
        assert forall|c: Card| #[trigger] held_by_some(r, c) by {
            assert(cards@.contains(c));
        }
    }
    r
}

/// Deals `cards` in rotation: the `k`-th card goes to north, east, south or
/// west as `k % 4` is 0, 1, 2 or 3.
pub fn deal_in_rotation(cards: &Vec<Card>) -> (r: SideMap<CardSet>)
    requires
        cards@.len() == 52,
        cards@.no_duplicates(),
    ensures
        forall|s: Side, c: Card| #[trigger] r.at(s).has(c) == exists|i: int| 0 <= i < 13 && #[trigger] cards@[4 * i + crate::player::side_index(s)] == c,
        forall|s: Side| #[trigger] r.at(s).size() == 13,
{
    let mut result = SideMap::new_symmetric(CardSet::empty());
    let mut i: usize = 0;
    while i < 13
        invariant
            i <= 13,
            cards@.len() == 52,
            cards@.no_duplicates(),
            forall|s: Side, c: Card| #[trigger] result.at(s).has(c) == exists|j: int| 0 <= j < i && #[trigger] cards@[4 * j + crate::player::side_index(s)] == c,
            forall|s: Side| #[trigger] result.at(s).size() == i,
        decreases 13 - i,
    {
        let ghost prev = result;
        proof {
            assert forall|s: Side| !(#[trigger] prev.at(s)).has(cards@[4 * i + crate::player::side_index(s)]) by {
                let c = cards@[4 * i + crate::player::side_index(s)];
                if prev.at(s).has(c) {
                    let j = choose|j: int| 0 <= j < i && #[trigger] cards@[4 * j + crate::player::side_index(s)] == c;
                }
            }
        }
        assert(!prev.at(Side::North).has(cards@[4 * i + 0]));
        assert(!prev.at(Side::East).has(cards@[4 * i + 1]));
        assert(!prev.at(Side::South).has(cards@[4 * i + 2]));
        assert(!prev.at(Side::West).has(cards@[4 * i + 3]));
        let _ = result.north.insert_card(cards[i * 4]);
        let _ = result.east.insert_card(cards[i * 4 + 1]);
        let _ = result.south.insert_card(cards[i * 4 + 2]);
        let _ = result.west.insert_card(cards[i * 4 + 3]);
        i = i + 1;
        proof {
            assert forall|s: Side, c: Card| #[trigger] result.at(s).has(c) == exists|j: int| 0 <= j < i && #[trigger] cards@[4 * j + crate::player::side_index(s)] == c by {
                if result.at(s).has(c) && !prev.at(s).has(c) {
                    assert(cards@[4 * (i - 1) + crate::player::side_index(s)] == c);
                }
                if exists|j: int| 0 <= j < i && #[trigger] cards@[4 * j + crate::player::side_index(s)] == c {
                    let j = choose|j: int| 0 <= j < i && #[trigger] cards@[4 * j + crate::player::side_index(s)] == c;
                    if j < i - 1 {
                        assert(prev.at(s).has(c));
                    }
                }
            }
        }
    }
    result
}

/// Shuffles the standard deck with `rng` and deals it in rotation, North
/// first: thirteen cards to each seat, every card to exactly one seat.
pub fn distribute_standard_deck_on_4(rng: &mut StdRng) -> (r: SideMap<CardSet>)
    ensures
        forall|s: Side| #[trigger] r.at(s).size() == 13,
        forall|c: Card| #[trigger] held_by_some(r, c),
        forall|c: Card, s: Side, t: Side| #[trigger] r.at(s).has(c) && #[trigger] r.at(t).has(c) ==> s == t,
{
    let mut cards = standard_deck();
    let ghost before = cards@;
    shuffle_cards_with(&mut cards, rng);
    proof {
        lemma_shuffle_keeps(before, cards@);
    }
    let r = deal_in_rotation(&cards);
    proof {
        assert forall|c: Card| #[trigger] held_by_some(r, c) by {
            assert(cards@.contains(c));
            let k = choose|k: int| 0 <= k < 52 && cards@[k] == c;
            let s = crate::player::side_at(k % 4);
            assert(4 * (k / 4) + crate::player::side_index(s) == k);
            assert(r.at(s).has(c));
        }
        assert forall|c: Card, s: Side, t: Side| #[trigger] r.at(s).has(c) && #[trigger] r.at(t).has(c) implies s == t by {
            let i = choose|i: int| 0 <= i < 13 && #[trigger] cards@[4 * i + crate::player::side_index(s)] == c;
            let j = choose|j: int| 0 <= j < 13 && #[trigger] cards@[4 * j + crate::player::side_index(t)] == c;
        }
    }
    r
}

/// A game to play: the contract parameters and the hands dealt.
#[derive(Debug, Clone, Copy)]
pub struct ContractGameDescription {
    parameters: ContractParametersGen,
    cards: SideMap<CardSet>,
}

impl ContractGameDescription {
    pub closed spec fn parameters_spec(self) -> ContractParametersGen {
        self.parameters
    }

    pub closed spec fn cards_spec(self) -> SideMap<CardSet> {
        self.cards
    }

    pub fn new(parameters: ContractParametersGen, cards: SideMap<CardSet>) -> (r: Self)
        ensures
            r.parameters_spec() == parameters,
            r.cards_spec() == cards,
    {
        ContractGameDescription { parameters, cards }
    }

    pub fn cards(&self) -> (r: &SideMap<CardSet>)
        ensures
            *r == self.cards_spec(),
    {
        &self.cards
    }

    pub fn parameters(&self) -> (r: &ContractParametersGen)
        ensures
            *r == self.parameters_spec(),
    {
        &self.parameters
    }

    /// One no trump declared by North, with a fair random deal.
    pub fn new_fair_random() -> (r: Self)
        ensures
            r.parameters_spec().declarer_spec() == Side::North,
            r.parameters_spec().bid_spec().trump_spec() == Trump::NoTrump,
            r.parameters_spec().bid_spec().number_spec() == 1,
            r.parameters_spec().doubling_spec() == crate::bidding::Doubling::NoDouble,
            forall|s: Side| #[trigger] r.cards_spec().at(s).size() == 13,
            forall|c: Card| #[trigger] held_by_some(r.cards_spec(), c),
            forall|c: Card, s: Side, t: Side| #[trigger] r.cards_spec().at(s).has(c) && #[trigger] r.cards_spec().at(
                t,
            ).has(c) ==> s == t,
    {
        let bid = Bid::init(Trump::NoTrump, 1).unwrap();
        let parameters = ContractParametersGen::new(Side::North, bid);
        let cards = fair_bridge_deal();
        ContractGameDescription { parameters, cards }
    }
}


/// When `n` cards are dealt from `first`, every seat gets a quarter of them
/// and the cards left over go one each to the seat just before `first`, then
/// to the one before that, then to the one before that; `first` itself never
/// gets one more.  So the sizes turn with the first seat.
pub proof fn partial_hand_sizes_follow_first_seat(n: nat, first: Side)
    ensures
        partial_hand_size(n, first, first) == n / 4,
        partial_hand_size(n, first, side_at(side_index(first) + 3)) == n / 4 + if n % 4 >= 1 { 1nat } else { 0nat },
        partial_hand_size(n, first, side_at(side_index(first) + 2)) == n / 4 + if n % 4 >= 2 { 1nat } else { 0nat },
        partial_hand_size(n, first, side_at(side_index(first) + 1)) == n / 4 + if n % 4 >= 3 { 1nat } else { 0nat },
        forall|s: Side| #[trigger] partial_hand_size(n, first, s) == partial_hand_size(
            n,
            Side::North,
            side_at(side_index(s) - side_index(first) + 4),
        ),
{
}

} // verus!
