use vstd::prelude::*;
use crate::cards::{Card, Suit, Trump, figure_index};
use crate::contract::{Trick, TrickError, best_in_suit};
use crate::player::Side;

verus! {

/// Leader of a trick played with `trump` as trump suit: the highest trump if
/// any was played, otherwise the highest card of the called suit.
pub open spec fn trump_leader(t: Trick, trump: Suit) -> Option<Side> {
    match t.leader_in_suit_spec(trump) {
        Some(s) => Some(s),
        None => match t.called_suit_spec() {
            Some(c) => t.leader_in_suit_spec(c),
            None => None,
        },
    }
}

/// Leader of a trick without trump: the highest card of the called suit.
pub open spec fn no_trump_leader(t: Trick) -> Option<Side> {
    match t.called_suit_spec() {
        Some(c) => t.leader_in_suit_spec(c),
        None => None,
    }
}

/// Highest card of `suit` in the trick, if any.
pub open spec fn best_card(t: Trick, suit: Suit) -> Option<Card> {
    match best_in_suit(t.cards_spec(), suit) {
        Some(k) => Some(t.cards_spec()[k]),
        None => None,
    }
}

/// Whether `card` played now would take the lead of a trick with `trump`.
pub open spec fn trump_beats(t: Trick, trump: Suit, card: Card) -> bool {
    match best_card(t, trump) {
        None => card.suit == trump || match t.called_suit_spec() {
            Some(s) => match best_card(t, s) {
                None => true,
                Some(c) => c.suit == card.suit && figure_index(card.figure) > figure_index(c.figure),
            },
            None => true,
        },
        Some(c) => card.suit == c.suit && figure_index(card.figure) > figure_index(c.figure),
    }
}

/// Whether `card` played now would take the lead of a trick without trump.
pub open spec fn no_trump_beats(t: Trick, card: Card) -> bool {
    match t.called_suit_spec() {
        Some(s) => match best_card(t, s) {
            None => true,
            Some(c) => c.suit == card.suit && figure_index(c.figure) < figure_index(card.figure),
        },
        None => true,
    }
}

/// Result of asking for the winner of a trick whose leader is `leader`.
pub open spec fn winner_result(t: Trick, leader: Option<Side>) -> Result<Side, TrickError> {
    if t.cards_spec().len() < 4 {
        Err(TrickError::MissingCard(t.next_seat()))
    } else {
        match leader {
            Some(s) => Ok(s),
            None => Err(TrickError::TrickEmpty),
        }
    }
}

/// Resolves tricks of a contract with a trump suit.
#[derive(Debug, Clone, Copy, PartialEq, Eq)]
pub struct TrumpTrickSolver {
    trump_suit: Suit,
}

/// Resolves tricks of a no-trump contract.
#[derive(Debug, Clone, Copy, PartialEq, Eq, Default)]
pub struct NoTrumpTrickSolver {}

/// Trick resolution chosen from the trump of the contract.
#[derive(Debug, Clone, Copy, PartialEq, Eq)]
pub enum SmartTrickSolver {
    Trump(TrumpTrickSolver),
    NoTrump(NoTrumpTrickSolver),
}

impl TrumpTrickSolver {
    pub closed spec fn trump_spec(self) -> Suit {
        self.trump_suit
    }

    pub fn new(trump_suit: Suit) -> (r: Self)
        ensures
            r.trump_spec() == trump_suit,
    {
        TrumpTrickSolver { trump_suit }
    }

    /// Winner of a complete trick; for an incomplete one, the seat to play next.
    pub fn winner(&self, trick: &Trick) -> (r: Result<Side, TrickError>)
        requires
            trick.wf(),
        ensures
            r == winner_result(*trick, trump_leader(*trick, self.trump_spec())),
            trick.cards_spec().len() == 4 ==> r is Ok,
    {
        if !trick.is_complete() {
            return Err(TrickError::MissingCard(trick.first_player_side().next_i(trick.count_cards())));
        }
        match self.leader(trick) {
            Some(s) => Ok(s),
            None => {
                proof {
                    crate::contract::lemma_best_in_suit(trick.cards_spec(), trick.cards_spec()[0].suit);
                    assert(trick.cards_spec()[0].suit == trick.cards_spec()[0].suit);
                }
                Err(TrickError::TrickEmpty)
            },
        }
    }

    /// Seat currently taking the trick, if any card was played.
    pub fn leader(&self, trick: &Trick) -> (r: Option<Side>)
        requires
            trick.wf(),
        ensures
            r == trump_leader(*trick, self.trump_spec()),
    {
        match trick.leader_in_suit(&self.trump_suit) {
            Some(s) => Some(s),
            None => match trick.called_suit() {
                Some(c) => trick.leader_in_suit(&c),
                None => None,
            },
        }
    }

    /// Whether `card` would take the lead if played now.
    pub fn does_beat_leader(&self, trick: &Trick, card: &Card) -> (r: bool)
        requires
            trick.wf(),
        ensures
            r == trump_beats(*trick, self.trump_spec(), *card),
    {
        match trick.leader_in_suit_with_card(&self.trump_suit) {
            None => card.suit() == self.trump_suit || match trick.leader_in_called_suit_with_card() {
                None => true,
                Some((_s, c)) => c.suit() == card.suit() && card.figure().index() > c.figure().index(),
            },
            Some((_s, c)) => card.suit() == c.suit() && card.figure().index() > c.figure().index(),
        }
    }
}

impl NoTrumpTrickSolver {
    pub fn new() -> (r: Self) {
        NoTrumpTrickSolver {}
    }

    /// Winner of a complete trick; for an incomplete one, the seat to play next.
    pub fn winner(&self, trick: &Trick) -> (r: Result<Side, TrickError>)
        requires
            trick.wf(),
        ensures
            r == winner_result(*trick, no_trump_leader(*trick)),
            trick.cards_spec().len() == 4 ==> r is Ok,
    {
        if !trick.is_complete() {
            return Err(TrickError::MissingCard(trick.first_player_side().next_i(trick.count_cards())));
        }
        match self.leader(trick) {
            Some(s) => Ok(s),
            None => {
                proof {
                    crate::contract::lemma_best_in_suit(trick.cards_spec(), trick.cards_spec()[0].suit);
                }
                Err(TrickError::TrickEmpty)
            },
        }
    }

    /// Seat currently taking the trick, if any card was played.
    pub fn leader(&self, trick: &Trick) -> (r: Option<Side>)
        requires
            trick.wf(),
        ensures
            r == no_trump_leader(*trick),
    {
        match trick.called_suit() {
            Some(s) => trick.leader_in_suit(&s),
            None => None,
        }
    }

    /// Whether `card` would take the lead if played now.
    pub fn does_beat_leader(&self, trick: &Trick, card: &Card) -> (r: bool)
        requires
            trick.wf(),
        ensures
            r == no_trump_beats(*trick, *card),
    {
        match trick.leader_in_called_suit_with_card() {
            None => true,
            Some((_s, c)) => c.suit() == card.suit() && c.figure().index() < card.figure().index(),
        }
    }
}

/// Leader of a trick under `trump`.
pub open spec fn leader_under(t: Trick, trump: Trump) -> Option<Side> {
    match trump {
        Trump::Colored(s) => trump_leader(t, s),
        Trump::NoTrump => no_trump_leader(t),
    }
}

/// Whether `card` would take the lead under `trump`.
pub open spec fn beats_under(t: Trick, trump: Trump, card: Card) -> bool {
    match trump {
        Trump::Colored(s) => trump_beats(t, s, card),
        Trump::NoTrump => no_trump_beats(t, card),
    }
}

impl SmartTrickSolver {
    /// Trump of the contract this solver resolves.
    pub open spec fn trump_of(self) -> Trump {
        match self {
            SmartTrickSolver::Trump(t) => Trump::Colored(t.trump_spec()),
            SmartTrickSolver::NoTrump(_) => Trump::NoTrump,
        }
    }

    pub fn new(trump: Trump) -> (r: Self)
        ensures
            r.trump_of() == trump,
    {
        match trump {
            Trump::Colored(s) => SmartTrickSolver::Trump(TrumpTrickSolver::new(s)),
            Trump::NoTrump => SmartTrickSolver::NoTrump(NoTrumpTrickSolver::new()),
        }
    }

    pub fn winner(&self, trick: &Trick) -> (r: Result<Side, TrickError>)
        requires
            trick.wf(),
        ensures
            r == winner_result(*trick, leader_under(*trick, self.trump_of())),
            trick.cards_spec().len() == 4 ==> r is Ok,
    {
        match self {
            SmartTrickSolver::Trump(t) => t.winner(trick),
            SmartTrickSolver::NoTrump(nt) => nt.winner(trick),
        }
    }

    pub fn leader(&self, trick: &Trick) -> (r: Option<Side>)
        requires
            trick.wf(),
        ensures
            r == leader_under(*trick, self.trump_of()),
    {
        match self {
            SmartTrickSolver::Trump(t) => t.leader(trick),
            SmartTrickSolver::NoTrump(nt) => nt.leader(trick),
        }
    }

    pub fn does_beat_leader(&self, trick: &Trick, card: &Card) -> (r: bool)
        requires
            trick.wf(),
        ensures
            r == beats_under(*trick, self.trump_of(), *card),
    {
        match self {
            SmartTrickSolver::Trump(t) => t.does_beat_leader(trick, card),
            SmartTrickSolver::NoTrump(nt) => nt.does_beat_leader(trick, card),
        }
    }
}


proof fn lemma_best_after_push(cards: Seq<Card>, card: Card, suit: Suit)
    ensures
        best_in_suit(cards.push(card), suit) == if card.suit == suit && (best_in_suit(cards, suit) is None
            || figure_index(card.figure) > figure_index(cards[best_in_suit(cards, suit)->0].figure)) {
            Some(cards.len() as int)
        } else {
            best_in_suit(cards, suit)
        },
{
    assert(cards.push(card).drop_last() =~= cards);
    crate::contract::lemma_best_in_suit(cards, suit);
}

/// Playing a card that beats the current leader makes its player the leader
/// of the trick; playing any other card leaves the leader unchanged.
pub proof fn trick_leader_after_play(t: Trick, t2: Trick, trump: Trump, card: Card)
    requires
        t.wf(),
        t.cards_spec().len() < 4,
        t2.first_spec() == t.first_spec(),
        t2.cards_spec() == t.cards_spec().push(card),
    ensures
        beats_under(t, trump, card) ==> leader_under(t2, trump) == Some(t.next_seat()),
        !beats_under(t, trump, card) ==> leader_under(t2, trump) == leader_under(t, trump),
{
    let cards = t.cards_spec();
    crate::contract::lemma_best_in_suit(cards, card.suit);
    assert(t2.cards_spec()[cards.len() as int] == card);
    if cards.len() > 0 {
        assert(t2.cards_spec()[0] == cards[0]);
        assert(t2.called_suit_spec() == t.called_suit_spec());
        lemma_best_after_push(cards, card, cards[0].suit);
        crate::contract::lemma_best_in_suit(cards, cards[0].suit);
        let k = best_in_suit(cards, cards[0].suit);
        if k is Some {
            assert(t2.cards_spec()[k->0] == cards[k->0]);
        }
    } else {
        assert(t2.called_suit_spec() == Some(card.suit));
        lemma_best_after_push(cards, card, card.suit);
    }
    match trump {
        Trump::Colored(ts) => {
            lemma_best_after_push(cards, card, ts);
            crate::contract::lemma_best_in_suit(cards, ts);
            let k = best_in_suit(cards, ts);
            if k is Some {
                assert(t2.cards_spec()[k->0] == cards[k->0]);
            }
        },
        Trump::NoTrump => {},
    }
}


/// The winner of a complete trick played with trump `trump` holds the highest
/// trump if a trump was played, and otherwise the highest card of the called
/// suit.
pub proof fn trick_winner_holds_best_card(t: Trick, trump: Suit)
    requires
        t.wf(),
        t.cards_spec().len() == 4,
    ensures
        winner_result(t, trump_leader(t, trump)) matches Ok(w) && t.card_of(w) matches Some(c) && (
        if exists|j: int| 0 <= j < 4 && (#[trigger] t.cards_spec()[j]).suit == trump {
            c.suit == trump && forall|j: int| 0 <= j < 4 && (#[trigger] t.cards_spec()[j]).suit == trump
                ==> figure_index(t.cards_spec()[j].figure) <= figure_index(c.figure)
        } else {
            c.suit == t.cards_spec()[0].suit && forall|j: int| 0 <= j < 4 && (#[trigger] t.cards_spec()[j]).suit
                == t.cards_spec()[0].suit ==> figure_index(t.cards_spec()[j].figure) <= figure_index(c.figure)
        }),
{
    let cards = t.cards_spec();
    crate::contract::lemma_best_in_suit(cards, trump);
    crate::contract::lemma_best_in_suit(cards, cards[0].suit);
    let kt = best_in_suit(cards, trump);
    let kc = best_in_suit(cards, cards[0].suit);
    if kt is Some {
        crate::player::lemma_seat_distance(t.first_spec(), kt->0);
    } else {
        assert(cards[0].suit == cards[0].suit);
        crate::player::lemma_seat_distance(t.first_spec(), kc->0);
    }
}

} // verus!
