use vstd::prelude::*;
use crate::cards::{Card, Suit, figure_index};
use crate::error::Mismatch;
use crate::player::{Side, side_at, side_distance, side_index};

verus! {

/// Errors of trick handling.
#[derive(Debug, Clone, Copy, PartialEq, Eq)]
pub enum TrickError {
    /// The trick is not complete; the given seat has not played yet.
    MissingCard(Side),
    /// A card was offered by a seat whose turn it is not.
    ViolatedOrder(Mismatch<Side>),
    /// The card is already in the trick.
    CardDuplicated(Card),
    /// The trick already holds four cards.
    TrickFull,
    /// The trick holds no card.
    TrickEmpty,
}

/// A trick: the seat that leads it and the cards played so far, in playing
/// order (the `k`-th card belongs to the seat `k` steps after the leader).
#[derive(Debug, Clone)]
pub struct Trick {
    first_player: Side,
    cards: Vec<Card>,
}

/// Seat that played the `k`-th card of a trick led by `first`.
pub open spec fn seat_of(first: Side, k: int) -> Side {
    side_at(side_index(first) + k)
}

/// Position of the highest card of `suit` among `cards`, if there is one.
pub open spec fn best_in_suit(cards: Seq<Card>, suit: Suit) -> Option<int>
    decreases cards.len(),
{
    if cards.len() == 0 {
        None
    } else {
        let n = cards.len() - 1;
        let prev = best_in_suit(cards.drop_last(), suit);
        if cards[n].suit == suit && (prev is None || figure_index(cards[n].figure) > figure_index(
            cards[prev->0].figure,
        )) {
            Some(n as int)
        } else {
            prev
        }
    }
}

pub proof fn lemma_best_in_suit(cards: Seq<Card>, suit: Suit)
    ensures
        best_in_suit(cards, suit) matches Some(k) ==> 0 <= k < cards.len() && cards[k].suit == suit
            && forall|j: int| 0 <= j < cards.len() && cards[j].suit == suit ==> figure_index(
            #[trigger] cards[j].figure) <= figure_index(cards[k].figure),
        best_in_suit(cards, suit) is None ==> forall|j: int| 0 <= j < cards.len() ==> (
        #[trigger] cards[j]).suit != suit,
    decreases cards.len(),
{
    if cards.len() > 0 {
        lemma_best_in_suit(cards.drop_last(), suit);
        let prev = best_in_suit(cards.drop_last(), suit);
        assert forall|j: int| 0 <= j < cards.len() - 1 implies cards.drop_last()[j] == #[trigger] cards[j] by {
        }
    }
}

impl Trick {
    pub closed spec fn first_spec(self) -> Side {
        self.first_player
    }

    pub closed spec fn cards_spec(self) -> Seq<Card> {
        self.cards@
    }

    /// At most four cards, all different.
    pub open spec fn wf(self) -> bool {
        &&& self.cards_spec().len() <= 4
        &&& forall|i: int, j: int| 0 <= i < j < self.cards_spec().len() ==> self.cards_spec()[i] != self.cards_spec()[j]
    }

    /// Card played by `side`, if it has played.
    pub open spec fn card_of(self, side: Side) -> Option<Card> {
        let k = side_distance(side, self.first_spec()) as int;
        if k < self.cards_spec().len() {
            Some(self.cards_spec()[k])
        } else {
            None
        }
    }

    /// Suit of the first card, if any.
    pub open spec fn called_suit_spec(self) -> Option<Suit> {
        if self.cards_spec().len() > 0 {
            Some(self.cards_spec()[0].suit)
        } else {
            None
        }
    }

    /// Seat holding the highest card of `suit` in the trick, if any.
    pub open spec fn leader_in_suit_spec(self, suit: Suit) -> Option<Side> {
        match best_in_suit(self.cards_spec(), suit) {
            Some(k) => Some(seat_of(self.first_spec(), k)),
            None => None,
        }
    }

    /// The seat whose turn it is (meaningful while the trick is not full).
    pub open spec fn next_seat(self) -> Side {
        seat_of(self.first_spec(), self.cards_spec().len() as int)
    }

    /// An empty trick led by `first_player`.
    pub fn new(first_player: Side) -> (r: Self)
        ensures
            r.wf(),
            r.first_spec() == first_player,
            r.cards_spec().len() == 0,
    {
        Trick { first_player, cards: Vec::new() }
    }

    pub fn first_player_side(&self) -> (r: Side)
        ensures
            r == self.first_spec(),
    {
        self.first_player
    }

    pub fn count_cards(&self) -> (r: u8)
        requires
            self.wf(),
        ensures
            r == self.cards_spec().len(),
    {
        self.cards.len() as u8
    }

    pub fn is_complete(&self) -> (r: bool)
        requires
            self.wf(),
        ensures
            r == (self.cards_spec().len() == 4),
    {
        self.cards.len() == 4
    }

    /// Card played by `side`, if any.
    pub fn card_of_side(&self, side: Side) -> (r: Option<Card>)
        ensures
            r == self.card_of(side),
    {
        let k = side.distance_from(self.first_player) as usize;
        if k < self.cards.len() {
            Some(self.cards[k])
        } else {
            None
        }
    }

    /// Suit of the leading card, if any card was played.
    pub fn called_suit(&self) -> (r: Option<Suit>)
        ensures
            r == self.called_suit_spec(),
    {
        if self.cards.len() > 0 {
            Some(self.cards[0].suit())
        } else {
            None
        }
    }

    /// Whether the trick holds `card`.
    pub fn contains(&self, card: &Card) -> (r: bool)
        ensures
            r == self.cards_spec().contains(*card),
    {
        let mut i: usize = 0;
        while i < self.cards.len()
            invariant
                i <= self.cards.len(),
                forall|j: int| 0 <= j < i ==> self.cards@[j] != *card,
            decreases self.cards.len() - i,
        {
            if self.cards[i] == *card {
                return true;
            }
            i = i + 1;
        }
        false
    }

    /// Adds the card of `side`: it must be that seat's turn, the trick must not
    /// be full, and the card must not already lie in the trick.
    pub fn insert_card(&mut self, side: Side, card: Card) -> (r: Result<Side, TrickError>)
        requires
            old(self).wf(),
        ensures
            final(self).wf(),
            final(self).first_spec() == old(self).first_spec(),
            old(self).cards_spec().len() == 4 ==> r == Err::<Side, TrickError>(TrickError::TrickFull),
            old(self).cards_spec().len() < 4 && side != old(self).next_seat() ==> r == Err::<Side, TrickError>(
                TrickError::ViolatedOrder(Mismatch { expected: old(self).next_seat(), found: side }),
            ),
            old(self).cards_spec().len() < 4 && side == old(self).next_seat() && old(self).cards_spec().contains(card)
                ==> r == Err::<Side, TrickError>(TrickError::CardDuplicated(card)),
            old(self).cards_spec().len() < 4 && side == old(self).next_seat() && !old(self).cards_spec().contains(card)
                ==> r == Ok::<Side, TrickError>(side_at(side_index(side) + 1)) && final(self).cards_spec() == old(self).cards_spec().push(card),
            r is Err ==> final(self).cards_spec() == old(self).cards_spec(),
    {
        if self.cards.len() == 4 {
            return Err(TrickError::TrickFull);
        }
        let expected = self.first_player.next_i(self.cards.len() as u8);
        if side != expected {
            return Err(TrickError::ViolatedOrder(Mismatch { expected, found: side }));
        }
        if self.contains(&card) {
            return Err(TrickError::CardDuplicated(card));
        }
        self.cards.push(card);
        Ok(side.next())
    }

    /// Takes back the last card played.
    pub fn undo(&mut self) -> (r: Result<Card, TrickError>)
        requires
            old(self).wf(),
        ensures
            final(self).wf(),
            final(self).first_spec() == old(self).first_spec(),
            old(self).cards_spec().len() == 0 ==> r == Err::<Card, TrickError>(TrickError::TrickEmpty)
                && final(self).cards_spec() == old(self).cards_spec(),
            old(self).cards_spec().len() > 0 ==> r == Ok::<Card, TrickError>(old(self).cards_spec().last())
                && final(self).cards_spec() == old(self).cards_spec().drop_last(),
    {
        match self.cards.pop() {
            Some(c) => Ok(c),
            None => Err(TrickError::TrickEmpty),
        }
    }

    /// Position and card of the highest card of `suit`, if any.
    fn best_position(&self, suit: &Suit) -> (r: Option<usize>)
        ensures
            match r {
                Some(k) => best_in_suit(self.cards_spec(), *suit) == Some(k as int) && k < self.cards_spec().len(),
                None => best_in_suit(self.cards_spec(), *suit) is None,
            },
    {
        let mut best: Option<usize> = None;
        let mut i: usize = 0;
        while i < self.cards.len()
            invariant
                i <= self.cards.len(),
                match best {
                    Some(k) => best_in_suit(self.cards@.subrange(0, i as int), *suit) == Some(k as int),
                    None => best_in_suit(self.cards@.subrange(0, i as int), *suit) is None,
                },
            decreases self.cards.len() - i,
        {
            proof {
                assert(self.cards@.subrange(0, i + 1).drop_last() =~= self.cards@.subrange(0, i as int));
                lemma_best_in_suit(self.cards@.subrange(0, i as int), *suit);
            }
            let c = self.cards[i];
            if c.suit() == *suit {
                match best {
                    None => {
                        best = Some(i);
                    },
                    Some(k) => {
                        if c.figure().index() > self.cards[k].figure().index() {
                            best = Some(i);
                        }
                    },
                }
            }
            i = i + 1;
        }
        proof {
            assert(self.cards@.subrange(0, self.cards.len() as int) =~= self.cards@);
            lemma_best_in_suit(self.cards@, *suit);
        }
        best
    }

    /// Seat holding the highest card of `suit`, if any card of it was played.
    pub fn leader_in_suit(&self, suit: &Suit) -> (r: Option<Side>)
        requires
            self.wf(),
        ensures
            r == self.leader_in_suit_spec(*suit),
    {
        match self.best_position(suit) {
            Some(k) => Some(self.first_player.next_i(k as u8)),
            None => None,
        }
    }

    /// Seat and card of the highest card of `suit`, if any.
    pub fn leader_in_suit_with_card(&self, suit: &Suit) -> (r: Option<(Side, Card)>)
        requires
            self.wf(),
        ensures
            match best_in_suit(self.cards_spec(), *suit) {
                Some(k) => r == Some((seat_of(self.first_spec(), k), self.cards_spec()[k])),
                None => r is None,
            },
    {
        match self.best_position(suit) {
            Some(k) => Some((self.first_player.next_i(k as u8), self.cards[k])),
            None => None,
        }
    }

    /// Seat and card of the highest card of the called suit, if any.
    pub fn leader_in_called_suit_with_card(&self) -> (r: Option<(Side, Card)>)
        requires
            self.wf(),
        ensures
            match self.called_suit_spec() {
                Some(s) => match best_in_suit(self.cards_spec(), s) {
                    Some(k) => r == Some((seat_of(self.first_spec(), k), self.cards_spec()[k])),
                    None => r is None,
                },
                None => r is None,
            },
    {
        match self.called_suit() {
            Some(s) => self.leader_in_suit_with_card(&s),
            None => None,
        }
    }
}

/// Taking back a card right after adding it gives back the trick as it was,
/// and the card taken back is the one added.
pub proof fn trick_undo_restores(before: Trick, added: Trick, undone: Trick, card: Card)
    requires
        added.first_spec() == before.first_spec(),
        added.cards_spec() == before.cards_spec().push(card),
        undone.first_spec() == added.first_spec(),
        undone.cards_spec() == added.cards_spec().drop_last(),
    ensures
        undone.first_spec() == before.first_spec(),
        undone.cards_spec() == before.cards_spec(),
        added.cards_spec().last() == card,
{
    assert(before.cards_spec().push(card).drop_last() =~= before.cards_spec());
}

} // verus!
