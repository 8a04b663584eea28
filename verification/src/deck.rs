use vstd::prelude::*;
use crate::cards::{Card, Figure, Suit, figure_at, suit_at};
use crate::deal::shuffle_cards;

verus! {

/// Card at position `k` of a deck sorted by suits: spades, hearts, diamonds,
/// clubs, each from the ace down.
pub open spec fn suit_sorted_card(k: int) -> Card {
    Card { suit: suit_at(3 - k / 13), figure: figure_at(12 - k % 13) }
}

/// Card at position `k` of a deck sorted by figures: aces, kings, and so on,
/// each figure in the suit order spades, hearts, diamonds, clubs.
pub open spec fn figure_sorted_card(k: int) -> Card {
    Card { figure: figure_at(12 - k / 4), suit: suit_at(3 - k % 4) }
}

/// An ordered deck of the 52 cards.
#[derive(Debug, Clone)]
pub struct Deck {
    cards: Vec<Card>,
}

impl Deck {
    pub closed spec fn cards_spec(self) -> Seq<Card> {
        self.cards@
    }

    /// Spades first, then hearts, diamonds and clubs; within a suit from the ace down.
    pub fn new_sorted_by_suits() -> (r: Deck)
        ensures
            r.cards_spec().len() == 52,
            forall|k: int| 0 <= k < 52 ==> #[trigger] r.cards_spec()[k] == suit_sorted_card(k),
    {
        let mut v: Vec<Card> = Vec::new();
        let mut s: u8 = 0;
        while s < 4
            invariant
                s <= 4,
                v@.len() == 13 * s,
                forall|k: int| 0 <= k < v@.len() ==> #[trigger] v@[k] == suit_sorted_card(k),
            decreases 4 - s,
        {
            let suit = Suit::from_index(3 - s).unwrap();
            let mut f: u8 = 0;
            while f < 13
                invariant
                    s < 4,
                    f <= 13,
                    suit == suit_at(3 - s),
                    v@.len() == 13 * s + f,
                    forall|k: int| 0 <= k < v@.len() ==> #[trigger] v@[k] == suit_sorted_card(k),
                decreases 13 - f,
            {
                let figure = Figure::from_index(12 - f).unwrap();
                proof {
                    let k = 13 * s + f;
                    assert(k / 13 == s);
                    assert(k % 13 == f);
                }
                v.push(Card { suit, figure });
                f = f + 1;
            }
            s = s + 1;
        }
        Deck { cards: v }
    }

    /// Aces first, then kings and so on down to twos; within a figure spades,
    /// hearts, diamonds, clubs.
    pub fn new_sorted_by_figures() -> (r: Deck)
        ensures
            r.cards_spec().len() == 52,
            forall|k: int| 0 <= k < 52 ==> #[trigger] r.cards_spec()[k] == figure_sorted_card(k),
    {
        let mut v: Vec<Card> = Vec::new();
        let mut f: u8 = 0;
        while f < 13
            invariant
                f <= 13,
                v@.len() == 4 * f,
                forall|k: int| 0 <= k < v@.len() ==> #[trigger] v@[k] == figure_sorted_card(k),
            decreases 13 - f,
        {
            let figure = Figure::from_index(12 - f).unwrap();
            let mut s: u8 = 0;
            while s < 4
                invariant
                    f < 13,
                    s <= 4,
                    figure == figure_at(12 - f),
                    v@.len() == 4 * f + s,
                    forall|k: int| 0 <= k < v@.len() ==> #[trigger] v@[k] == figure_sorted_card(k),
                decreases 4 - s,
            {
                let suit = Suit::from_index(3 - s).unwrap();
                proof {
                    let k = 4 * f + s;
                    assert(k / 4 == f);
                    assert(k % 4 == s);
                }
                v.push(Card { suit, figure });
                s = s + 1;
            }
            f = f + 1;
        }
        Deck { cards: v }
    }

    /// The card at `index`.
    pub fn at(&self, index: usize) -> (r: &Card)
        requires
            index < self.cards_spec().len(),
        ensures
            *r == self.cards_spec()[index as int],
    {
        &self.cards[index]
    }

    /// Puts the cards in a random order.
    pub fn shuffle(&mut self)
        ensures
            final(self).cards_spec().to_multiset() == old(self).cards_spec().to_multiset(),
    {
        shuffle_cards(&mut self.cards);
    }

    pub fn cards(&self) -> (r: &Vec<Card>)
        ensures
            r@ == self.cards_spec(),
    {
        &self.cards
    }
}

} // verus!
