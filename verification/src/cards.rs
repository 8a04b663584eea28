use vstd::prelude::*;

verus! {

/// A card suit.  In bridge order Clubs < Diamonds < Hearts < Spades, which is
/// also the order of their indices (Clubs 0 up to Spades 3).
#[derive(Debug, Clone, Copy, PartialEq, Eq, Structural, Hash, PartialOrd, Ord)]
pub enum Suit {
    Clubs,
    Diamonds,
    Hearts,
    Spades,
}

/// A card figure, from Two (index 0) up to Ace (index 12).
#[derive(Debug, Clone, Copy, PartialEq, Eq, Structural, Hash, PartialOrd, Ord)]
pub enum Figure {
    Two,
    Three,
    Four,
    Five,
    Six,
    Seven,
    Eight,
    Nine,
    Ten,
    Jack,
    Queen,
    King,
    Ace,
}

/// A card of the standard 52-card deck.
#[derive(Debug, Clone, Copy, PartialEq, Eq, Structural, Hash)]
pub struct Card {
    pub suit: Suit,
    pub figure: Figure,
}

/// Trump of a contract: one of the suits, or no trump at all.
#[derive(Debug, Clone, Copy, PartialEq, Eq, Structural, Hash, PartialOrd, Ord)]
pub enum Trump {
    Colored(Suit),
    NoTrump,
}

pub const SUIT_NUMBER: usize = 4;
pub const FIGURE_NUMBER: usize = 13;
pub const DECK_SIZE: usize = 52;

pub open spec fn suit_index(s: Suit) -> int {
    match s {
        Suit::Clubs => 0,
        Suit::Diamonds => 1,
        Suit::Hearts => 2,
        Suit::Spades => 3,
    }
}

pub open spec fn suit_at(i: int) -> Suit {
    if i == 0 {
        Suit::Clubs
    } else if i == 1 {
        Suit::Diamonds
    } else if i == 2 {
        Suit::Hearts
    } else {
        Suit::Spades
    }
}

pub open spec fn figure_index(f: Figure) -> int {
    match f {
        Figure::Two => 0,
        Figure::Three => 1,
        Figure::Four => 2,
        Figure::Five => 3,
        Figure::Six => 4,
        Figure::Seven => 5,
        Figure::Eight => 6,
        Figure::Nine => 7,
        Figure::Ten => 8,
        Figure::Jack => 9,
        Figure::Queen => 10,
        Figure::King => 11,
        Figure::Ace => 12,
    }
}

pub open spec fn figure_at(i: int) -> Figure {
    if i == 0 {
        Figure::Two
    } else if i == 1 {
        Figure::Three
    } else if i == 2 {
        Figure::Four
    } else if i == 3 {
        Figure::Five
    } else if i == 4 {
        Figure::Six
    } else if i == 5 {
        Figure::Seven
    } else if i == 6 {
        Figure::Eight
    } else if i == 7 {
        Figure::Nine
    } else if i == 8 {
        Figure::Ten
    } else if i == 9 {
        Figure::Jack
    } else if i == 10 {
        Figure::Queen
    } else if i == 11 {
        Figure::King
    } else {
        Figure::Ace
    }
}

/// Position of a card in the deck: suits in bridge order, figures ascending.
pub open spec fn card_index(c: Card) -> int {
    suit_index(c.suit) * 13 + figure_index(c.figure)
}

pub open spec fn card_at(i: int) -> Card {
    Card { suit: suit_at(i / 13), figure: figure_at(i % 13) }
}

/// Position of a trump in the order Clubs < Diamonds < Hearts < Spades < NoTrump.
pub open spec fn trump_index(t: Trump) -> int {
    match t {
        Trump::Colored(s) => suit_index(s),
        Trump::NoTrump => 4,
    }
}

pub proof fn lemma_card_index_bounds(c: Card)
    ensures
        0 <= card_index(c) < 52,
        card_at(card_index(c)) == c,
{
    assert(card_index(c) / 13 == suit_index(c.suit));
    assert(card_index(c) % 13 == figure_index(c.figure));
}

pub proof fn lemma_card_at_index(i: int)
    requires
        0 <= i < 52,
    ensures
        card_index(card_at(i)) == i,
{
}

pub proof fn lemma_card_index_injective(a: Card, b: Card)
    ensures
        card_index(a) == card_index(b) <==> a == b,
{
    lemma_card_index_bounds(a);
    lemma_card_index_bounds(b);
}

impl Suit {
    pub fn index(&self) -> (r: u8)
        ensures
            r == suit_index(*self),
    {
        match self {
            Suit::Clubs => 0,
            Suit::Diamonds => 1,
            Suit::Hearts => 2,
            Suit::Spades => 3,
        }
    }

    /// The suit with a given index, if the index is below 4.
    pub fn from_index(i: u8) -> (r: Option<Suit>)
        ensures
            i < 4 ==> r == Some(suit_at(i as int)),
            i >= 4 ==> r is None,
    {
        match i {
            0 => Some(Suit::Clubs),
            1 => Some(Suit::Diamonds),
            2 => Some(Suit::Hearts),
            3 => Some(Suit::Spades),
            _ => None,
        }
    }
}

impl Figure {
    pub fn index(&self) -> (r: u8)
        ensures
            r == figure_index(*self),
    {
        match self {
            Figure::Two => 0,
            Figure::Three => 1,
            Figure::Four => 2,
            Figure::Five => 3,
            Figure::Six => 4,
            Figure::Seven => 5,
            Figure::Eight => 6,
            Figure::Nine => 7,
            Figure::Ten => 8,
            Figure::Jack => 9,
            Figure::Queen => 10,
            Figure::King => 11,
            Figure::Ace => 12,
        }
    }

    /// The figure with a given index, if the index is below 13.
    pub fn from_index(i: u8) -> (r: Option<Figure>)
        ensures
            i < 13 ==> r == Some(figure_at(i as int)),
            i >= 13 ==> r is None,
    {
        match i {
            0 => Some(Figure::Two),
            1 => Some(Figure::Three),
            2 => Some(Figure::Four),
            3 => Some(Figure::Five),
            4 => Some(Figure::Six),
            5 => Some(Figure::Seven),
            6 => Some(Figure::Eight),
            7 => Some(Figure::Nine),
            8 => Some(Figure::Ten),
            9 => Some(Figure::Jack),
            10 => Some(Figure::Queen),
            11 => Some(Figure::King),
            12 => Some(Figure::Ace),
            _ => None,
        }
    }
}

impl Card {
    pub fn new(figure: Figure, suit: Suit) -> (r: Card)
        ensures
            r.suit == suit,
            r.figure == figure,
    {
        Card { suit, figure }
    }

    pub fn suit(&self) -> (r: Suit)
        ensures
            r == self.suit,
    {
        self.suit
    }

    pub fn figure(&self) -> (r: Figure)
        ensures
            r == self.figure,
    {
        self.figure
    }

    /// Position of the card in the deck (`suit * 13 + figure`).
    pub fn index(&self) -> (r: u8)
        ensures
            r == card_index(*self),
            r < 52,
    {
        self.suit.index() * 13 + self.figure.index()
    }

    /// The card at a given deck position, if the position is below 52.
    pub fn from_index(i: u8) -> (r: Option<Card>)
        ensures
            i < 52 ==> r == Some(card_at(i as int)),
            i >= 52 ==> r is None,
    {
        if i >= 52 {
            return None;
        }
        let s = Suit::from_index(i / 13).unwrap();
        let f = Figure::from_index(i % 13).unwrap();
        Some(Card { suit: s, figure: f })
    }
}

impl Trump {
    /// Position in the order Clubs < Diamonds < Hearts < Spades < NoTrump.
    pub fn index(&self) -> (r: u8)
        ensures
            r == trump_index(*self),
            r < 5,
    {
        match self {
            Trump::Colored(s) => s.index(),
            Trump::NoTrump => 4,
        }
    }
}

} // verus!
