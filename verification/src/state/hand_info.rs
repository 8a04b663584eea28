use vstd::prelude::*;
use crate::card_set::CardSet;

verus! {

/// Something that knows the cards of its owner.
pub trait HandInfo {
    fn own_cards(&self) -> CardSet;
}

/// The cards of a seat, and nothing more.
#[derive(Debug, Clone, Copy)]
pub struct HandInfoSimple {
    own_cards: CardSet,
}

impl HandInfoSimple {
    pub closed spec fn cards_spec(self) -> CardSet {
        self.own_cards
    }

    pub fn new(cards: CardSet) -> (r: Self)
        ensures
            r.cards_spec() == cards,
    {
        HandInfoSimple { own_cards: cards }
    }
}

impl HandInfo for HandInfoSimple {
    fn own_cards(&self) -> (r: CardSet)
        ensures
            r == self.cards_spec(),
    {
        self.own_cards
    }
}

} // verus!
