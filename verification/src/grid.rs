//! The playing field: a fixed-size matrix of tiles indexed by coordinate.
//! Pure data; the tick engine is the only writer.

use vstd::prelude::*;

verus! {

/// The state of one cell of the playing field.
#[derive(Debug, Clone, Copy, PartialEq, Eq, Structural)]
pub enum Tile {
    Open,
    Snake,
    Food,
}

impl Default for Tile {
    /// A cell starts out open.
    fn default() -> (t: Tile)
        ensures
            t == Tile::Open,
    {
        Tile::Open
    }
}

/// The `x` and `y` coordinates of one cell, represented in one value.
#[derive(Debug, Clone, Copy, PartialEq, Eq, Structural)]
pub struct Position {
    pub x: isize,
    pub y: isize,
}

/// A `width` by `height` matrix of tiles, stored column first: the tile of
/// coordinate `(x, y)` sits at `tiles[x][y]`.
pub struct Grid {
    pub width: isize,
    pub height: isize,
    pub tiles: Vec<Vec<Tile>>,
}

impl Grid {
    /// The storage matches the recorded dimensions.
    pub open spec fn wf(self) -> bool {
        &&& 0 <= self.width
        &&& 0 <= self.height
        &&& self.tiles@.len() == self.width
        &&& forall|i: int|
            0 <= i < self.tiles@.len() ==> (#[trigger] self.tiles@[i])@.len() == self.height
    }

    /// Whether `(x, y)` lies inside the field.
    pub open spec fn in_bounds_spec(self, x: int, y: int) -> bool {
        0 <= x < self.width && 0 <= y < self.height
    }

    /// The tile recorded for coordinate `(x, y)`.
    pub open spec fn tile(self, x: int, y: int) -> Tile {
        self.tiles@[x]@[y]
    }

    /// A fresh field of the given dimensions with every tile open.
    pub fn new(width: isize, height: isize) -> (g: Grid)
        requires
            0 <= width,
            0 <= height,
        ensures
            g.wf(),
            g.width == width,
            g.height == height,
            forall|x: int, y: int| g.in_bounds_spec(x, y) ==> g.tile(x, y) == Tile::Open,
    {
        let mut tiles: Vec<Vec<Tile>> = Vec::new();
        let mut x: isize = 0;
        while x < width
            invariant
                0 <= height,
                0 <= x <= width,
                tiles@.len() == x,
                forall|i: int| 0 <= i < x ==> (#[trigger] tiles@[i])@.len() == height,
                forall|i: int, j: int|
                    0 <= i < x && 0 <= j < height ==> #[trigger] tiles@[i]@[j] == Tile::Open,
            decreases width - x,
        {
            let mut row: Vec<Tile> = Vec::new();
            let mut y: isize = 0;
            while y < height
                invariant
                    0 <= height,
                    0 <= y <= height,
                    row@.len() == y,
                    forall|j: int| 0 <= j < y ==> #[trigger] row@[j] == Tile::Open,
                decreases height - y,
            {
                row.push(Tile::Open);
                y = y + 1;
            }
            tiles.push(row);
            x = x + 1;
        }
        Grid { width, height, tiles }
    }

    /// Bounds check for a candidate coordinate.
    pub fn is_within_bounds(&self, p: Position) -> (r: bool)
        ensures
            r == self.in_bounds_spec(p.x as int, p.y as int),
    {
        0 <= p.x && p.x < self.width && 0 <= p.y && p.y < self.height
    }

    /// Reads the tile at an in-bounds coordinate.
    pub fn get(&self, p: Position) -> (t: Tile)
        requires
            self.wf(),
            self.in_bounds_spec(p.x as int, p.y as int),
        ensures
            t == self.tile(p.x as int, p.y as int),
    {
        self.tiles[p.x as usize][p.y as usize]
    }

    /// Writes the tile at an in-bounds coordinate; every other tile and the
    /// dimensions are unchanged.
    pub fn set(&mut self, p: Position, t: Tile)
        requires
            old(self).wf(),
            old(self).in_bounds_spec(p.x as int, p.y as int),
        ensures
            final(self).wf(),
            final(self).width == old(self).width,
            final(self).height == old(self).height,
            final(self).tile(p.x as int, p.y as int) == t,
            forall|x: int, y: int|
                old(self).in_bounds_spec(x, y) && !(x == p.x as int && y == p.y as int)
                    ==> final(self).tile(x, y) == old(self).tile(x, y),
    {
        self.tiles[p.x as usize][p.y as usize] = t;
    }
}

} // verus!
