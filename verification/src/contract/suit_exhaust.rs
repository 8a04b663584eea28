use vstd::prelude::*;
use crate::cards::{Suit, suit_index};
use crate::player::{Side, side_index};

verus! {

/// Register of which seats are known to have run out of which suits, one bit
/// per (seat, suit) pair.
#[derive(Debug, Default, Clone, Copy)]
pub struct SuitExhaust {
    array: u16,
}

/// Bit position of a (seat, suit) pair.
pub open spec fn exhaust_position(side: Side, suit: Suit) -> int {
    side_index(side) * 4 + suit_index(suit)
}

spec fn bit16(x: u16, i: u16) -> bool {
    (x >> i) & 1u16 == 1u16
}

proof fn lemma_bit16_or(x: u16, i: u16, j: u16) by (bit_vector)
    requires
        i < 16,
        j < 16,
    ensures
        bit16(x | (1u16 << i), j) <==> (bit16(x, j) || i == j),
{
}

proof fn lemma_bit16_clear(x: u16, i: u16, j: u16) by (bit_vector)
    requires
        i < 16,
        j < 16,
    ensures
        bit16(x & ((1u16 << i) ^ 0xffffu16), j) <==> (bit16(x, j) && i != j),
{
}

proof fn lemma_bit16_test(x: u16, i: u16) by (bit_vector)
    requires
        i < 16,
    ensures
        (x & (1u16 << i) != 0u16) <==> bit16(x, i),
{
}

proof fn lemma_bit16_zero(j: u16) by (bit_vector)
    requires
        j < 16,
    ensures
        !bit16(0u16, j),
{
}

proof fn lemma_position_injective(a: Side, s: Suit, b: Side, t: Suit)
    ensures
        0 <= exhaust_position(a, s) < 16,
        exhaust_position(a, s) == exhaust_position(b, t) <==> (a == b && s == t),
{
}

impl SuitExhaust {
    /// Whether `(side, suit)` is registered.
    pub closed spec fn has(self, side: Side, suit: Suit) -> bool {
        bit16(self.array, exhaust_position(side, suit) as u16)
    }

    /// An empty register.
    pub fn new() -> (r: Self)
        ensures
            forall|s: Side, t: Suit| !#[trigger] r.has(s, t),
    {
        proof {
            assert forall|s: Side, t: Suit| !#[trigger] (SuitExhaust { array: 0 }).has(s, t) by {
                lemma_position_injective(s, t, s, t);
                lemma_bit16_zero(exhaust_position(s, t) as u16);
            }
        }
        SuitExhaust { array: 0 }
    }

    fn position(side: Side, suit: Suit) -> (r: u16)
        ensures
            r == exhaust_position(side, suit),
            r < 16,
    {
        (side.index() * 4 + suit.index()) as u16
    }

    /// Registers that `element.0` has no card of suit `element.1`.
    pub fn register(&mut self, element: (Side, Suit))
        ensures
            forall|s: Side, t: Suit| #[trigger] final(self).has(s, t) == (old(self).has(s, t) || (s
                == element.0 && t == element.1)),
    {
        let i = Self::position(element.0, element.1);
        let ghost before = *self;
        self.array = self.array | (1u16 << i);
        proof {
            assert forall|s: Side, t: Suit| #[trigger] self.has(s, t) == (before.has(s, t) || (s
                == element.0 && t == element.1)) by {
                lemma_position_injective(s, t, element.0, element.1);
                lemma_bit16_or(before.array, i, exhaust_position(s, t) as u16);
            }
        }
    }

    /// Removes the registration of `element`.
    pub fn unregister(&mut self, element: &(Side, Suit))
        ensures
            forall|s: Side, t: Suit| #[trigger] final(self).has(s, t) == (old(self).has(s, t) && !(s
                == element.0 && t == element.1)),
    {
        let i = Self::position(element.0, element.1);
        let mask_neg: u16 = 1u16 << i;
        let mask: u16 = mask_neg ^ u16::MAX;
        let ghost before = *self;
        self.array = self.array & mask;
        proof {
            assert forall|s: Side, t: Suit| #[trigger] self.has(s, t) == (before.has(s, t) && !(s
                == element.0 && t == element.1)) by {
                lemma_position_injective(s, t, element.0, element.1);
                lemma_bit16_clear(before.array, i, exhaust_position(s, t) as u16);
            }
        }
    }

    /// Whether `element` is registered.
    pub fn is_registered(&self, element: &(Side, Suit)) -> (r: bool)
        ensures
            r == self.has(element.0, element.1),
    {
        let i = Self::position(element.0, element.1);
        proof {
            lemma_bit16_test(self.array, i);
        }
        self.array & (1u16 << i) != 0
    }
}

/// Registering a pair and then unregistering it leaves every other pair as it
/// was and the pair itself unregistered.
pub proof fn suit_exhaust_register_then_unregister(
    before: SuitExhaust,
    mid: SuitExhaust,
    after: SuitExhaust,
    element: (Side, Suit),
)
    requires
        forall|s: Side, t: Suit| #[trigger] mid.has(s, t) == (before.has(s, t) || (s == element.0
            && t == element.1)),
        forall|s: Side, t: Suit| #[trigger] after.has(s, t) == (mid.has(s, t) && !(s == element.0
            && t == element.1)),
    ensures
        !after.has(element.0, element.1),
        forall|s: Side, t: Suit| !(s == element.0 && t == element.1) ==> #[trigger] after.has(s, t)
            == before.has(s, t),
{
    assert(mid.has(element.0, element.1));
}

} // verus!
