use vstd::prelude::*;
use crate::card_set::CardSet;
use crate::cards::{Card, card_at, card_index, figure_index, lemma_card_at_index, lemma_card_index_bounds, suit_index};
use crate::player::Side;

verus! {

/// What a seat does during the play: the dummy shows its hand, or a seat
/// places a card on the table.
#[derive(Debug, Clone, Copy, PartialEq, Eq, Structural)]
pub enum ContractAction {
    ShowHand(CardSet),
    PlaceCard(Card),
}

/// Errors of converting game data to or from its numeric encodings.
#[derive(Debug, Clone, Copy, PartialEq, Eq)]
pub enum ConvertError {
    ConvertFromTensor,
    ConvertToTensor,
}

/// An action together with the seat that took it, as broadcast to every seat.
#[derive(Debug, Clone, Copy, PartialEq, Eq)]
pub struct ContractStateUpdate {
    agent: Side,
    action: ContractAction,
}

impl ContractStateUpdate {
    pub closed spec fn agent_spec(self) -> Side {
        self.agent
    }

    pub closed spec fn action_spec(self) -> ContractAction {
        self.action
    }

    pub fn new(side: Side, action: ContractAction) -> (r: Self)
        ensures
            r.agent_spec() == side,
            r.action_spec() == action,
    {
        ContractStateUpdate { agent: side, action }
    }

    pub fn side(&self) -> (r: &Side)
        ensures
            *r == self.agent_spec(),
    {
        &self.agent
    }

    pub fn action(&self) -> (r: &ContractAction)
        ensures
            *r == self.action_spec(),
    {
        &self.action
    }

    pub fn into_tuple(self) -> (r: (Side, ContractAction))
        ensures
            r == (self.agent_spec(), self.action_spec()),
    {
        (self.agent, self.action)
    }
}

/// Size of the compact encoding of an action.
pub const MIN_ACTION_SIZE: usize = 2;

/// Compact encoding of an action: `[0, 0]` for showing the hand, and the suit
/// and figure positions, each plus one, for a placed card.
pub open spec fn min_representation(a: ContractAction) -> Seq<u8> {
    match a {
        ContractAction::ShowHand(_) => seq![0u8, 0u8],
        ContractAction::PlaceCard(c) => seq![
            (suit_index(c.suit) + 1) as u8,
            (figure_index(c.figure) + 1) as u8,
        ],
    }
}

/// Index of an action among the 52 card placements, when it is one.
pub open spec fn action_index(a: ContractAction) -> Result<i64, ConvertError> {
    match a {
        ContractAction::ShowHand(_) => Err(ConvertError::ConvertToTensor),
        ContractAction::PlaceCard(c) => Ok(card_index(c) as i64),
    }
}

/// Action placed at an index among the 52 card placements.
pub open spec fn action_at_index(index: i64) -> Result<ContractAction, ConvertError> {
    if 0 <= index < 52 {
        Ok(ContractAction::PlaceCard(card_at(index as int)))
    } else {
        Err(ConvertError::ConvertFromTensor)
    }
}

/// Value `i` of the sparse form of an action: for a shown hand, a flag per
/// card of the hand and 0 at the end; for a placed card, a flag at the card
/// and 1 at the end.
pub open spec fn sparse_representation_at(a: ContractAction, i: int) -> u8 {
    match a {
        ContractAction::ShowHand(h) => if i < 52 && h.has(card_at(i)) {
            1
        } else {
            0
        },
        ContractAction::PlaceCard(c) => if i == card_index(c) || i == 52 {
            1
        } else {
            0
        },
    }
}

impl ContractAction {
    /// Sparse form of the action, 53 values.
    pub fn sparse_representation(&self) -> (r: Vec<u8>)
        ensures
            r.len() == 53,
            forall|i: int| 0 <= i < 53 ==> #[trigger] r@[i] == sparse_representation_at(*self, i),
    {
        let mut v: Vec<u8> = Vec::new();
        let mut i: u8 = 0;
        while i < 52
            invariant
                i <= 52,
                v.len() == i,
                forall|k: int| 0 <= k < i ==> #[trigger] v@[k] == sparse_representation_at(*self, k),
            decreases 52 - i,
        {
            let c = Card::from_index(i).unwrap();
            let flag: u8 = match self {
                ContractAction::ShowHand(h) => if h.contains(&c) {
                    1
                } else {
                    0
                },
                ContractAction::PlaceCard(p) => if p.index() == i {
                    1
                } else {
                    0
                },
            };
            proof {
                lemma_card_at_index(i as int);
                if let ContractAction::PlaceCard(p) = *self {
                    lemma_card_index_bounds(p);
                }
            }
            v.push(flag);
            i = i + 1;
        }
        v.push(match self {
            ContractAction::ShowHand(_) => 0,
            ContractAction::PlaceCard(_) => 1,
        });
        v
    }

    pub fn min_representation(&self) -> (r: [u8; 2])
        ensures
            r@ == min_representation(*self),
    {
        match self {
            ContractAction::ShowHand(_) => [0, 0],
            ContractAction::PlaceCard(c) => [c.suit().index() + 1, c.figure().index() + 1],
        }
    }
}

/// Encoding of a card placement as one index in `0..52`.
#[derive(Debug, Clone, Copy, Default)]
pub struct ActionPlaceCardConvertion1D {}

/// Encoding of a card placement as its suit and figure positions.
#[derive(Debug, Clone, Copy, Default)]
pub struct ContractActionWayToTensor {}

impl ContractActionWayToTensor {
    /// Suit and figure positions of the placed card; showing the hand has no
    /// such encoding.
    pub fn try_to_pair(&self, action: &ContractAction) -> (r: [u8; 2])
        requires
            *action is PlaceCard,
        ensures
            r@ == seq![suit_index(action->PlaceCard_0.suit) as u8, figure_index(action->PlaceCard_0.figure) as u8],
    {
        match action {
            ContractAction::PlaceCard(c) => [c.suit().index(), c.figure().index()],
            ContractAction::ShowHand(_) => [0, 0],
        }
    }

    /// Shape of the encoded action: two numbers.
    pub fn desired_shape(&self) -> (r: [i64; 1])
        ensures
            r@ == seq![2i64],
    {
        [2]
    }
}

impl ActionPlaceCardConvertion1D {
    /// Shape of the encoded action: one number.
    pub fn desired_shape(&self) -> (r: [i64; 1])
        ensures
            r@ == seq![1i64],
    {
        [1]
    }

    /// Shape of the input that decoding expects: one number.
    pub fn expected_input_shape(&self) -> (r: [i64; 1])
        ensures
            r@ == seq![1i64],
    {
        [1]
    }

    /// Smallest index.
    pub fn min(&self) -> (r: i64)
        ensures
            r == 0,
    {
        0
    }

    /// Bound of the indices (exclusive).
    pub fn limit(&self) -> (r: i64)
        ensures
            r == 52,
    {
        52
    }

    /// Index of a card placement; showing the hand has none.
    pub fn try_to_index(&self, action: &ContractAction) -> (r: Result<i64, ConvertError>)
        ensures
            r == action_index(*action),
    {
        match action {
            ContractAction::ShowHand(_) => Err(ConvertError::ConvertToTensor),
            ContractAction::PlaceCard(c) => Ok(c.index() as i64),
        }
    }

    /// The card placement at an index; indices outside `0..52` are refused.
    pub fn try_from_index(&self, index: i64) -> (r: Result<ContractAction, ConvertError>)
        ensures
            r == action_at_index(index),
    {
        if 0 <= index && index < 52 {
            match Card::from_index(index as u8) {
                Some(c) => Ok(ContractAction::PlaceCard(c)),
                None => Err(ConvertError::ConvertFromTensor),
            }
        } else {
            Err(ConvertError::ConvertFromTensor)
        }
    }
}

/// Decoding the index of a card placement gives the placement back.
pub proof fn action_index_round_trip(action: ContractAction)
    requires
        action is PlaceCard,
    ensures
        action_index(action) matches Ok(i) && action_at_index(i) == Ok::<ContractAction, ConvertError>(action),
{
    lemma_card_index_bounds(action->PlaceCard_0);
}

/// Encoding the placement decoded from an index in `0..52` gives the index back.
pub proof fn index_action_round_trip(index: i64)
    requires
        0 <= index < 52,
    ensures
        action_at_index(index) matches Ok(a) && action_index(a) == Ok::<i64, ConvertError>(index),
{
    lemma_card_at_index(index as int);
}

} // verus!
