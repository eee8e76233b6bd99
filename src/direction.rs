use vstd::prelude::*;

verus! {

/// A set of directions, one bit each.
pub type Type = u8;

pub const NORTH: u8 = 0x01;
pub const EAST: u8 = 0x02;
pub const SOUTH: u8 = 0x04;
pub const WEST: u8 = 0x08;

pub open spec fn is_direction(d: u8) -> bool {
    d == NORTH || d == EAST || d == SOUTH || d == WEST
}

pub open spec fn opposite_spec(d: u8) -> u8 {
    if d == NORTH {
        SOUTH
    } else if d == EAST {
        WEST
    } else if d == SOUTH {
        NORTH
    } else {
        EAST
    }
}

/// The direction pointing back.
pub fn opposite(direction: Type) -> (r: Type)
    requires
        is_direction(direction),
    ensures
        r == opposite_spec(direction),
        is_direction(r),
        opposite_spec(r) == direction,
{
    if direction == NORTH {
        SOUTH
    } else if direction == EAST {
        WEST
    } else if direction == SOUTH {
        NORTH
    } else {
        EAST
    }
}

} // verus!
