use vstd::prelude::*;

verus! {

/// A seat at the bridge table.  Seats follow each other clockwise:
/// North, East, South, West, then North again.
#[derive(Debug, Clone, Copy, PartialEq, Eq, Structural, Hash)]
pub enum Side {
    North,
    East,
    South,
    West,
}

/// One of the two partnerships.
#[derive(Debug, Clone, Copy, PartialEq, Eq, Structural, Hash)]
pub enum Axis {
    NorthSouth,
    EastWest,
}

/// The role a seat plays once the contract is fixed; roles follow each other
/// clockwise starting from the declarer.
#[derive(Debug, Clone, Copy, PartialEq, Eq, Structural, Hash)]
pub enum PlayRole {
    Declarer,
    Whist,
    Dummy,
    Offside,
}

/// Position of a seat in the clockwise order starting at North.
pub open spec fn side_index(s: Side) -> int {
    match s {
        Side::North => 0,
        Side::East => 1,
        Side::South => 2,
        Side::West => 3,
    }
}

/// The seat at a given clockwise position (taken modulo 4).
pub open spec fn side_at(i: int) -> Side {
    let k = i % 4;
    if k == 0 {
        Side::North
    } else if k == 1 {
        Side::East
    } else if k == 2 {
        Side::South
    } else {
        Side::West
    }
}

/// Partnership of a seat.
pub open spec fn side_axis(s: Side) -> Axis {
    match s {
        Side::North | Side::South => Axis::NorthSouth,
        Side::East | Side::West => Axis::EastWest,
    }
}

/// Number of clockwise steps that lead from `from` to `to` (in `0..4`).
pub open spec fn side_distance(to: Side, from: Side) -> nat {
    ((side_index(to) + 4 - side_index(from)) % 4) as nat
}

pub open spec fn role_index(r: PlayRole) -> int {
    match r {
        PlayRole::Declarer => 0,
        PlayRole::Whist => 1,
        PlayRole::Dummy => 2,
        PlayRole::Offside => 3,
    }
}

pub open spec fn role_at(i: int) -> PlayRole {
    let k = i % 4;
    if k == 0 {
        PlayRole::Declarer
    } else if k == 1 {
        PlayRole::Whist
    } else if k == 2 {
        PlayRole::Dummy
    } else {
        PlayRole::Offside
    }
}



/// The seat `k` steps after `first` is at distance `k` from it.
pub proof fn lemma_seat_distance(first: Side, k: int)
    requires
        0 <= k < 4,
    ensures
        side_distance(side_at(side_index(first) + k), first) == k,
{
}

/// Different seats are at different distances from any seat.
pub proof fn lemma_distance_injective(a: Side, b: Side, from: Side)
    ensures
        side_distance(a, from) == side_distance(b, from) <==> a == b,
{
}


impl Side {
    /// Clockwise position of the seat: North 0, East 1, South 2, West 3.
    pub fn index(&self) -> (r: u8)
        ensures
            r == side_index(*self),
    {
        match self {
            Side::North => 0,
            Side::East => 1,
            Side::South => 2,
            Side::West => 3,
        }
    }

    /// The seat at clockwise position `i % 4`.
    pub fn from_index(i: u8) -> (r: Side)
        ensures
            r == side_at(i as int),
    {
        match i % 4 {
            0 => Side::North,
            1 => Side::East,
            2 => Side::South,
            _ => Side::West,
        }
    }

    /// The next seat clockwise.
    pub fn next(&self) -> (r: Side)
        ensures
            r == side_at(side_index(*self) + 1),
    {
        match self {
            Side::North => Side::East,
            Side::East => Side::South,
            Side::South => Side::West,
            Side::West => Side::North,
        }
    }

    /// The seat `n` steps clockwise.
    pub fn next_i(&self, n: u8) -> (r: Side)
        ensures
            r == side_at(side_index(*self) + n),
    {
        let k: u8 = ((self.index() as u16 + (n % 4) as u16) % 4) as u8;
        proof {
            assert((side_index(*self) + n) % 4 == (side_index(*self) + n % 4) % 4) by (nonlinear_arith);
        }
        Side::from_index(k)
    }

    /// The previous seat (one step counter-clockwise).
    pub fn prev(&self) -> (r: Side)
        ensures
            r == side_at(side_index(*self) + 3),
    {
        match self {
            Side::North => Side::West,
            Side::East => Side::North,
            Side::South => Side::East,
            Side::West => Side::South,
        }
    }

    /// The partner (the seat opposite).
    pub fn partner(&self) -> (r: Side)
        ensures
            r == side_at(side_index(*self) + 2),
            side_axis(r) == side_axis(*self),
            r != *self,
    {
        match self {
            Side::North => Side::South,
            Side::East => Side::West,
            Side::South => Side::North,
            Side::West => Side::East,
        }
    }

    /// The partnership this seat belongs to.
    pub fn axis(&self) -> (r: Axis)
        ensures
            r == side_axis(*self),
    {
        match self {
            Side::North | Side::South => Axis::NorthSouth,
            Side::East | Side::West => Axis::EastWest,
        }
    }

    /// Number of clockwise steps from `from` to `self`.
    pub fn distance_from(&self, from: Side) -> (r: u8)
        ensures
            r == side_distance(*self, from),
            r < 4,
    {
        ((self.index() + 4 - from.index()) % 4) as u8
    }
}

impl PlayRole {
    pub fn index(&self) -> (r: u8)
        ensures
            r == role_index(*self),
    {
        match self {
            PlayRole::Declarer => 0,
            PlayRole::Whist => 1,
            PlayRole::Dummy => 2,
            PlayRole::Offside => 3,
        }
    }

    /// The role `n` steps clockwise from this one.
    pub fn next_i(&self, n: u8) -> (r: PlayRole)
        ensures
            r == role_at(role_index(*self) + n),
    {
        let k: u8 = ((self.index() as u16 + (n % 4) as u16) % 4) as u8;
        proof {
            assert((role_index(*self) + n) % 4 == (role_index(*self) + n % 4) % 4) by (nonlinear_arith);
        }
        match k {
            0 => PlayRole::Declarer,
            1 => PlayRole::Whist,
            2 => PlayRole::Dummy,
            _ => PlayRole::Offside,
        }
    }
}


/// One value for each seat.
#[derive(Debug, Clone, Copy, PartialEq, Eq)]
pub struct SideMap<T> {
    pub north: T,
    pub east: T,
    pub south: T,
    pub west: T,
}

impl<T> SideMap<T> {
    /// The value kept for `side`.
    pub open spec fn at(self, side: Side) -> T {
        match side {
            Side::North => self.north,
            Side::East => self.east,
            Side::South => self.south,
            Side::West => self.west,
        }
    }

    pub fn new(north: T, east: T, south: T, west: T) -> (r: Self)
        ensures
            r.north == north,
            r.east == east,
            r.south == south,
            r.west == west,
    {
        SideMap { north, east, south, west }
    }

    /// The value kept for `side`.
    pub fn get(&self, side: Side) -> (r: &T)
        ensures
            *r == self.at(side),
    {
        match side {
            Side::North => &self.north,
            Side::East => &self.east,
            Side::South => &self.south,
            Side::West => &self.west,
        }
    }
}

impl<T: Copy> SideMap<T> {
    /// The same value for every seat.
    pub fn new_symmetric(v: T) -> (r: Self)
        ensures
            forall|s: Side| #[trigger] r.at(s) == v,
    {
        SideMap { north: v, east: v, south: v, west: v }
    }
}

} // verus!
