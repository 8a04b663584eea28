use vstd::prelude::*;
use std::collections::HashMap;
use crate::cards::{Trump, trump_index};
use crate::player::{Axis, Side, side_axis};

verus! {

broadcast use vstd::std_specs::hash::group_hash_axioms;

/// Memory of which seat of each partnership first named each trump.
pub trait DeclarationStorage: Sized {
    /// The seat of `axis` recorded for `trump`, if any.
    spec fn declarer_of(&self, axis: Axis, trump: Trump) -> Option<Side>;

    fn get_declarer(&self, axis: Axis, trump: &Trump) -> (r: Option<Side>)
        ensures
            r == self.declarer_of(axis, *trump),
    ;

    /// Records `side` for `trump` in the partnership of `side`.
    fn set_declarer(&mut self, side: Side, trump: Trump)
        ensures
            forall|a: Axis, t: Trump|
                #[trigger] final(self).declarer_of(a, t) == if a == side_axis(side) && t == trump {
                    Some(side)
                } else {
                    old(self).declarer_of(a, t)
                },
    ;
}

/// Declaration storage holding one map per partnership, keyed by trump index.
#[derive(Debug, Clone)]
pub struct GeneralDeclarationStorage {
    east_west_declarations: HashMap<u8, Side>,
    north_south_declarations: HashMap<u8, Side>,
}

impl GeneralDeclarationStorage {
    pub closed spec fn map_of(self, axis: Axis) -> Map<u8, Side> {
        match axis {
            Axis::EastWest => self.east_west_declarations@,
            Axis::NorthSouth => self.north_south_declarations@,
        }
    }

    /// A storage with nothing recorded.
    pub fn new() -> (r: Self)
        ensures
            forall|a: Axis, t: Trump| #[trigger] r.declarer_of(a, t) is None,
    {
        GeneralDeclarationStorage {
            east_west_declarations: HashMap::new(),
            north_south_declarations: HashMap::new(),
        }
    }
}

impl DeclarationStorage for GeneralDeclarationStorage {
    closed spec fn declarer_of(&self, axis: Axis, trump: Trump) -> Option<Side> {
        let k = trump_index(trump) as u8;
        if self.map_of(axis).contains_key(k) {
            Some(self.map_of(axis)[k])
        } else {
            None
        }
    }

    fn get_declarer(&self, axis: Axis, trump: &Trump) -> (r: Option<Side>) {
        let k = trump.index();
        let m = match axis {
            Axis::EastWest => &self.east_west_declarations,
            Axis::NorthSouth => &self.north_south_declarations,
        };
        match m.get(&k) {
            Some(s) => Some(*s),
            None => None,
        }
    }

    fn set_declarer(&mut self, side: Side, trump: Trump) {
        let k = trump.index();
        match side.axis() {
            Axis::EastWest => {
                self.east_west_declarations.insert(k, side);
            },
            Axis::NorthSouth => {
                self.north_south_declarations.insert(k, side);
            },
        }
        proof {
            assert forall|a: Axis, t: Trump|
                #[trigger] self.declarer_of(a, t) == if a == side_axis(side) && t == trump {
                    Some(side)
                } else {
                    old(self).declarer_of(a, t)
                } by {
                if trump_index(t) == trump_index(trump) {
                    assert(t == trump);
                }
            }
        }
    }
}

} // verus!
