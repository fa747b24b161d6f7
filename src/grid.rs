use crate::actions::TileRotation;
use crate::tiles::{rotated_by, Tile, TilePosition};
use vstd::prelude::*;

verus! {

/// The tiles of the maze, keyed by position: at most one tile per cell.
pub struct Grid {
    entries: Vec<(TilePosition, Tile)>,
    model: Ghost<Map<TilePosition, Tile>>,
}

/// Whether `p` lies in the rectangle of columns `x_lo..x_hi` and rows
/// `y_lo..y_hi`, upper bounds excluded.
pub open spec fn in_rect(p: TilePosition, x_lo: int, x_hi: int, y_lo: int, y_hi: int) -> bool {
    x_lo <= p.x < x_hi && y_lo <= p.y < y_hi
}

impl View for Grid {
    type V = Map<TilePosition, Tile>;

    closed spec fn view(&self) -> Map<TilePosition, Tile> {
        self.model@
    }
}

impl Grid {
    /// The entries have distinct positions, and they are exactly the
    /// mapping that the grid stands for.
    pub closed spec fn wf(&self) -> bool {
        &&& forall|i: int, j: int|
            0 <= i < j < self.entries@.len() ==> self.entries@[i].0 != self.entries@[j].0
        &&& forall|i: int|
            0 <= i < self.entries@.len() ==> {
                &&& self.model@.contains_key(#[trigger] self.entries@[i].0)
                &&& self.model@[self.entries@[i].0] == self.entries@[i].1
            }
        &&& forall|p: TilePosition| #[trigger]
            self.model@.contains_key(p) ==> exists|i: int|
                0 <= i < self.entries@.len() && self.entries@[i].0 == p
    }

    /// A grid without tiles.
    pub fn new() -> (r: Grid)
        ensures
            r.wf(),
            r@ == Map::<TilePosition, Tile>::empty(),
    {
        Grid { entries: Vec::new(), model: Ghost(Map::empty()) }
    }

    /// The index of the entry at `pos`, if there is one.
    fn find(&self, pos: TilePosition) -> (r: Option<usize>)
        requires
            self.wf(),
        ensures
            match r {
                Some(i) => i < self.entries@.len() && self.entries@[i as int].0 == pos,
                None => !self@.contains_key(pos),
            },
    {
        let mut i: usize = 0;
        while i < self.entries.len()
            invariant
                self.wf(),
                i <= self.entries@.len(),
                forall|k: int| 0 <= k < i ==> self.entries@[k].0 != pos,
            decreases self.entries@.len() - i,
        {
            if self.entries[i].0 == pos {
                return Some(i);
            }
            i = i + 1;
        }
        None
    }

    /// The tile at `pos`, if any.
    pub fn get(&self, pos: TilePosition) -> (r: Option<Tile>)
        requires
            self.wf(),
        ensures
            r == (if self@.contains_key(pos) {
                Some(self@[pos])
            } else {
                None
            }),
    {
        match self.find(pos) {
            Some(i) => Some(self.entries[i].1),
            None => None,
        }
    }

    /// Puts `tile` at `pos`, replacing the tile that was there.
    pub fn insert(&mut self, pos: TilePosition, tile: Tile)
        requires
            old(self).wf(),
        ensures
            final(self).wf(),
            final(self)@ == old(self)@.insert(pos, tile),
    {
        let ghost mut at: int;
        match self.find(pos) {
            Some(i) => {
                self.entries.set(i, (pos, tile));
                proof {
                    at = i as int;
                }
            },
            None => {
                self.entries.push((pos, tile));
                proof {
                    at = self.entries@.len() - 1;
                }
            },
        }
        self.model = Ghost(self.model@.insert(pos, tile));
        proof {
            let e = self.entries@;
            assert(0 <= at < e.len() && e[at].0 == pos);
            assert forall|p: TilePosition| #[trigger]
                self.model@.contains_key(p) implies exists|i: int|
                    0 <= i < e.len() && e[i].0 == p by {
                if p != pos {
                    assert(old(self).model@.contains_key(p));
                    let k = choose|i: int|
                        0 <= i < old(self).entries@.len() && old(self).entries@[i].0 == p;
                    assert(e[k].0 == p);
                }
            }
        }
    }

    /// Carries out a rotation command on the tile at `pos`; does nothing
    /// where no tile is. Returns whether a tile was turned.
    pub fn rotate_at(&mut self, pos: TilePosition, command: TileRotation) -> (r: bool)
        requires
            old(self).wf(),
        ensures
            final(self).wf(),
            r == old(self)@.contains_key(pos),
            final(self)@ == (if r {
                old(self)@.insert(pos, rotated_by(old(self)@[pos], command))
            } else {
                old(self)@
            }),
    {
        match self.get(pos) {
            Some(tile) => {
                let mut turned = tile;
                turned.apply_rotation(command);
                self.insert(pos, turned);
                true
            },
            None => false,
        }
    }

    /// A grid with one tile in each cell of the rectangle of columns
    /// `x_lo..x_hi` and rows `y_lo..y_hi`, upper bounds excluded, each of a
    /// shape and rotation drawn at random from `rng`; no tile outside it.
    pub fn populate(x_lo: i32, x_hi: i32, y_lo: i32, y_hi: i32, rng: &mut rand::rngs::StdRng) -> (r:
        Grid)
        ensures
            r.wf(),
            forall|p: TilePosition|
                #[trigger] r@.contains_key(p) <==> in_rect(p, x_lo as int, x_hi as int, y_lo as int, y_hi as int),
    {
        let mut grid = Grid::new();
        let mut x: i32 = x_lo;
        while x < x_hi
            invariant
                grid.wf(),
                x_lo <= x,
                x_lo <= x_hi ==> x <= x_hi,
                x_lo > x_hi ==> x == x_lo,
                forall|p: TilePosition|
                    #[trigger] grid@.contains_key(p) <==> in_rect(p, x_lo as int, x as int, y_lo as int, y_hi as int),
            decreases x_hi - x,
        {
            let mut y: i32 = y_lo;
            while y < y_hi
                invariant
                    grid.wf(),
                    x_lo <= x < x_hi,
                    y_lo <= y,
                    y_lo <= y_hi ==> y <= y_hi,
                    y_lo > y_hi ==> y == y_lo,
                    forall|p: TilePosition|
                        #[trigger] grid@.contains_key(p) <==> (in_rect(p, x_lo as int, x as int, y_lo as int, y_hi as int)
                            || (p.x == x && y_lo <= p.y < y)),
                decreases y_hi - y,
            {
                let tile = Tile::random(rng);
                grid.insert(TilePosition { x, y }, tile);
                y = y + 1;
            }
            assert forall|p: TilePosition| #[trigger]
                grid@.contains_key(p) <==> in_rect(
                    p,
                    x_lo as int,
                    x + 1,
                    y_lo as int,
                    y_hi as int,
                ) by {}
            x = x + 1;
        }
        grid
    }
}

} // verus!
