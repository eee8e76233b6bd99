use crate::direction;
use vstd::prelude::*;

verus! {

/// One cell of a maze: whether the generator has reached it, and the
/// directions in which a path leaves it.
#[derive(Clone, Copy, Debug, PartialEq, Eq, Structural)]
pub struct Cell {
    pub visited: bool,
    pub paths: direction::Type,
}

impl Cell {
    pub fn new() -> (c: Cell)
        ensures
            !c.visited,
            c.paths == 0,
    {
        Cell { visited: false, paths: 0 }
    }
}

} // verus!
