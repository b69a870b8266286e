//! The snake body: an ordered double-ended sequence of occupied coordinates,
//! tail at the front, head at the back.

use std::collections::VecDeque;

use vstd::prelude::*;

use crate::grid::Position;

verus! {

/// The ordered coordinates the snake occupies. Index `0` is the tail; the
/// last index is the head.
pub struct Body {
    pub cells: VecDeque<Position>,
}

impl View for Body {
    type V = Seq<Position>;

    open spec fn view(&self) -> Seq<Position> {
        self.cells@
    }
}

impl Body {
    /// No coordinate appears twice: self-intersection is never allowed to
    /// persist.
    pub open spec fn distinct(self) -> bool {
        forall|i: int, j: int|
            0 <= i < j < self@.len() ==> #[trigger] self@[i] != #[trigger] self@[j]
    }

    /// Whether `p` is one of the occupied coordinates.
    pub open spec fn contains_spec(self, p: Position) -> bool {
        exists|i: int| 0 <= i < self@.len() && self@[i] == p
    }

    /// An empty body; initialization pushes the starting head.
    pub fn new() -> (b: Body)
        ensures
            b@ =~= Seq::<Position>::empty(),
    {
        Body { cells: VecDeque::new() }
    }

    /// The number of occupied coordinates; the score is this less one.
    pub fn len(&self) -> (n: usize)
        ensures
            n == self@.len(),
    {
        self.cells.len()
    }

    /// The coordinate of the head, at the back.
    pub fn head(&self) -> (p: Position)
        requires
            self@.len() > 0,
        ensures
            p == self@.last(),
    {
        self.cells[self.cells.len() - 1]
    }

    /// Appends a new head coordinate at the back.
    pub fn push_head(&mut self, p: Position)
        ensures
            final(self)@ == old(self)@.push(p),
    {
        self.cells.push_back(p);
    }

    /// Removes and returns the tail coordinate at the front. Calling this on
    /// an empty body is a programming error, ruled out by the precondition.
    pub fn pop_tail(&mut self) -> (p: Position)
        requires
            old(self)@.len() > 0,
        ensures
            p == old(self)@[0],
            final(self)@ == old(self)@.drop_first(),
    {
        match self.cells.pop_front() {
            Some(p) => p,
            None => vstd::pervasive::unreached(),
        }
    }

    /// Whether `p` is one of the occupied coordinates.
    pub fn contains(&self, p: Position) -> (r: bool)
        ensures
            r == self.contains_spec(p),
    {
        let mut i: usize = 0;
        while i < self.cells.len()
            invariant
                0 <= i <= self@.len(),
                forall|k: int| 0 <= k < i ==> #[trigger] self@[k] != p,
            decreases self@.len() - i,
        {
            if self.cells[i] == p {
                return true;
            }
            i = i + 1;
        }
        false
    }
}

} // verus!
