use vstd::prelude::*;
use crate::error::Mismatch;
use crate::cards::{Card, Figure, Suit, card_at, card_index, figure_at, figure_index, lemma_card_at_index, lemma_card_index_bounds, lemma_card_index_injective};

verus! {

/// A set of cards of the standard deck, one bit per card position.
#[derive(Debug, Clone, Copy, PartialEq, Eq, Structural, Hash)]
pub struct CardSet {
    cards: u64,
}

/// Whether bit `i` of `x` is set.
pub open spec fn bit_set(x: u64, i: u64) -> bool {
    (x >> i) & 1u64 == 1u64
}

proof fn lemma_bit_or(x: u64, i: u64, j: u64) by (bit_vector)
    requires
        i < 64,
        j < 64,
    ensures
        bit_set(x | (1u64 << i), j) <==> (bit_set(x, j) || i == j),
{
}

proof fn lemma_bit_clear(x: u64, i: u64, j: u64) by (bit_vector)
    requires
        i < 64,
        j < 64,
    ensures
        bit_set(x & !(1u64 << i), j) <==> (bit_set(x, j) && i != j),
{
}

proof fn lemma_bit_test(x: u64, i: u64) by (bit_vector)
    requires
        i < 64,
    ensures
        (x & (1u64 << i) != 0u64) <==> bit_set(x, i),
{
}

proof fn lemma_bit_zero(j: u64) by (bit_vector)
    requires
        j < 64,
    ensures
        !bit_set(0u64, j),
{
}

proof fn lemma_bit_and(x: u64, y: u64, j: u64) by (bit_vector)
    requires
        j < 64,
    ensures
        bit_set(x & y, j) <==> (bit_set(x, j) && bit_set(y, j)),
        bit_set(x | y, j) <==> (bit_set(x, j) || bit_set(y, j)),
{
}

/// Number of cards of `s` among the deck positions below `n`.
pub open spec fn count_below(s: CardSet, n: int) -> nat
    decreases n,
{
    if n <= 0 {
        0
    } else {
        count_below(s, n - 1) + if s.has(card_at(n - 1)) { 1nat } else { 0nat }
    }
}


/// Counting the cards of a set that gained one new card.
proof fn lemma_count_below_insert(s: CardSet, s2: CardSet, c: Card, n: int)
    requires
        !s.has(c),
        forall|x: Card| #[trigger] s2.has(x) == (s.has(x) || x == c),
        n <= 52,
    ensures
        count_below(s2, n) == count_below(s, n) + if 0 <= card_index(c) < n { 1nat } else { 0nat },
    decreases n,
{
    if n > 0 {
        lemma_count_below_insert(s, s2, c, n - 1);
        lemma_card_index_bounds(c);
        lemma_card_at_index(n - 1);
    }
}

/// A set that gained one new card has one card more.
pub proof fn lemma_size_insert(s: CardSet, s2: CardSet, c: Card)
    requires
        !s.has(c),
        forall|x: Card| #[trigger] s2.has(x) == (s.has(x) || x == c),
    ensures
        s2.size() == s.size() + 1,
{
    lemma_count_below_insert(s, s2, c, 52);
    lemma_card_index_bounds(c);
}

proof fn lemma_count_below_empty(s: CardSet, n: int)
    requires
        forall|x: Card| !s.has(x),
    ensures
        count_below(s, n) == 0,
    decreases n,
{
    if n > 0 {
        lemma_count_below_empty(s, n - 1);
    }
}

/// A set without cards has size zero.
pub proof fn lemma_size_empty(s: CardSet)
    requires
        forall|x: Card| !s.has(x),
    ensures
        s.size() == 0,
{
    lemma_count_below_empty(s, 52);
}

impl CardSet {
    /// Whether the set holds `c`.
    pub closed spec fn has(self, c: Card) -> bool {
        bit_set(self.cards, card_index(c) as u64)
    }

    /// Whether the set holds a card of suit `s`.
    pub open spec fn has_in_suit(self, s: Suit) -> bool {
        exists|c: Card| c.suit == s && #[trigger] self.has(c)
    }

    /// Number of cards in the set.
    pub open spec fn size(self) -> nat {
        count_below(self, 52)
    }

    pub fn empty() -> (r: CardSet)
        ensures
            forall|c: Card| !r.has(c),
            r.size() == 0,
    {
        proof {
            assert forall|c: Card| !(CardSet { cards: 0 }).has(c) by {
                lemma_card_index_bounds(c);
                lemma_bit_zero(card_index(c) as u64);
            }
            lemma_size_empty(CardSet { cards: 0 });
        }
        CardSet { cards: 0 }
    }

    pub fn contains(&self, card: &Card) -> (r: bool)
        ensures
            r == self.has(*card),
    {
        let i = card.index();
        proof {
            lemma_bit_test(self.cards, i as u64);
        }
        self.cards & (1u64 << i) != 0
    }

    /// Adds a card; fails when the card is already in the set.
    pub fn insert_card(&mut self, card: Card) -> (r: Result<(), CardSetError>)
        ensures
            old(self).has(card) ==> r == Err::<(), CardSetError>(CardSetError::CardDuplicated(card))
                && *final(self) == *old(self),
            !old(self).has(card) ==> r is Ok && forall|c: Card|
                #[trigger] final(self).has(c) == (old(self).has(c) || c == card),
            !old(self).has(card) ==> final(self).size() == old(self).size() + 1,
    {
        if self.contains(&card) {
            return Err(CardSetError::CardDuplicated(card));
        }
        let i = card.index();
        let ghost before = *self;
        self.cards = self.cards | (1u64 << i);
        proof {
            assert forall|c: Card| #[trigger] self.has(c) == (before.has(c) || c == card) by {
                lemma_card_index_bounds(c);
                lemma_card_index_injective(c, card);
                lemma_bit_or(before.cards, i as u64, card_index(c) as u64);
            }
            lemma_size_insert(before, *self, card);
        }
        Ok(())
    }

    /// Removes a card; fails when the card is not in the set.
    pub fn remove_card(&mut self, card: &Card) -> (r: Result<(), CardSetError>)
        ensures
            !old(self).has(*card) ==> r == Err::<(), CardSetError>(CardSetError::CardNotInSet(*card))
                && *final(self) == *old(self),
            old(self).has(*card) ==> r is Ok && forall|c: Card|
                #[trigger] final(self).has(c) == (old(self).has(c) && c != *card),
    {
        if !self.contains(card) {
            return Err(CardSetError::CardNotInSet(*card));
        }
        let i = card.index();
        let ghost before = *self;
        self.cards = self.cards & !(1u64 << i);
        proof {
            assert forall|c: Card| #[trigger] self.has(c) == (before.has(c) && c != *card) by {
                lemma_card_index_bounds(c);
                lemma_card_index_injective(c, *card);
                lemma_bit_clear(before.cards, i as u64, card_index(c) as u64);
            }
        }
        Ok(())
    }

    pub fn union(&self, other: &CardSet) -> (r: CardSet)
        ensures
            forall|c: Card| #[trigger] r.has(c) == (self.has(c) || other.has(c)),
    {
        let r = CardSet { cards: self.cards | other.cards };
        proof {
            assert forall|c: Card| #[trigger] r.has(c) == (self.has(c) || other.has(c)) by {
                lemma_card_index_bounds(c);
                lemma_bit_and(self.cards, other.cards, card_index(c) as u64);
            }
        }
        r
    }

    pub fn intersection(&self, other: &CardSet) -> (r: CardSet)
        ensures
            forall|c: Card| #[trigger] r.has(c) == (self.has(c) && other.has(c)),
    {
        let r = CardSet { cards: self.cards & other.cards };
        proof {
            assert forall|c: Card| #[trigger] r.has(c) == (self.has(c) && other.has(c)) by {
                lemma_card_index_bounds(c);
                lemma_bit_and(self.cards, other.cards, card_index(c) as u64);
            }
        }
        r
    }

    /// Whether the set holds some card of `suit`.
    pub fn contains_in_suit(&self, suit: &Suit) -> (r: bool)
        ensures
            r == self.has_in_suit(*suit),
    {
        let mut f: u8 = 0;
        while f < 13
            invariant
                f <= 13,
                forall|g: int| 0 <= g < f ==> !#[trigger] self.has(Card { suit: *suit, figure: figure_at(g) }),
            decreases 13 - f,
        {
            let c = Card { suit: *suit, figure: Figure::from_index(f).unwrap() };
            if self.contains(&c) {
                return true;
            }
            f = f + 1;
        }
        proof {
            assert forall|c: Card| c.suit == *suit implies !#[trigger] self.has(c) by {
                let g = figure_index(c.figure);
                assert(Card { suit: *suit, figure: figure_at(g) } == c);
            }
        }
        false
    }

    /// Number of cards in the set.
    pub fn len(&self) -> (r: usize)
        ensures
            r == self.size(),
            r <= 52,
    {
        let mut count: usize = 0;
        let mut i: u8 = 0;
        while i < 52
            invariant
                i <= 52,
                count == count_below(*self, i as int),
                count <= i,
            decreases 52 - i,
        {
            let c = Card::from_index(i).unwrap();
            if self.contains(&c) {
                count = count + 1;
            }
            i = i + 1;
        }
        count
    }

    /// The cards of the set in deck order.
    pub fn to_vec(&self) -> (r: Vec<Card>)
        ensures
            forall|k: int| 0 <= k < r.len() ==> self.has(#[trigger] r@[k]),
            forall|c: Card| self.has(c) ==> r@.contains(c),
            forall|a: int, b: int| 0 <= a < b < r.len() ==> card_index(r@[a]) < card_index(r@[b]),
    {
        let mut v: Vec<Card> = Vec::new();
        let mut i: u8 = 0;
        while i < 52
            invariant
                i <= 52,
                forall|k: int| 0 <= k < v.len() ==> self.has(#[trigger] v@[k]),
                forall|k: int| 0 <= k < v.len() ==> card_index(#[trigger] v@[k]) < i,
                forall|j: int| 0 <= j < i && self.has(card_at(j)) ==> v@.contains(card_at(j)),
                forall|a: int, b: int| 0 <= a < b < v.len() ==> card_index(v@[a]) < card_index(v@[b]),
            decreases 52 - i,
        {
            let c = Card::from_index(i).unwrap();
            proof { lemma_card_at_index(i as int); }
            let ghost prev = v@;
            if self.contains(&c) {
                v.push(c);
                proof {
                    assert(v@[v.len() - 1] == c);
                    assert forall|j: int| 0 <= j < i && self.has(card_at(j)) implies v@.contains(card_at(j)) by {
                        let k = choose|k: int| 0 <= k < prev.len() && prev[k] == card_at(j);
                        assert(v@[k] == prev[k]);
                    }
                }
            }
            i = i + 1;
        }
        proof {
            assert forall|c: Card| self.has(c) implies v@.contains(c) by {
                lemma_card_index_bounds(c);
            }
        }
        v
    }
}

/// Errors of card-set operations.
#[derive(Debug, Clone, Copy, PartialEq, Eq)]
pub enum CardSetError {
    /// The card was not in the set.
    CardNotInSet(Card),
    /// The card was already in the set.
    CardDuplicated(Card),
    /// The card is not in the hand it was played from.
    CardNotInHand(Card),
    /// Two card sets were expected to be equal.
    ExpectedEqualCardSets(Mismatch<CardSet>),
}

} // verus!
