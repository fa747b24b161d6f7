use crate::actions::{opposite_of, PlayerMovement, TileRotation};
use crate::random::choose_from;
use vstd::prelude::*;

verus! {

/// The orientation of a tile, in quarter turns to the left from rest
/// (`Up`): `Up`, `Left`, `Down`, `Right`, then `Up` again.
#[derive(PartialEq, Eq, Structural, Clone, Copy, Debug)]
pub enum Rotation {
    Up,
    Left,
    Down,
    Right,
}

/// The shape of a tile, which fixes the edges it can be crossed through.
#[derive(PartialEq, Eq, Structural, Clone, Copy, Debug)]
pub enum TileType {
    Obstacle,
    DeadEnd,
    Line,
    Corner,
    TIntersection,
    Intersection,
}

/// A tile of the maze: a fixed shape in a changeable orientation.
#[derive(PartialEq, Eq, Structural, Clone, Copy, Debug)]
pub struct Tile {
    pub tile_type: TileType,
    pub tile_rotation: Rotation,
}

/// A cell of the grid.
#[derive(PartialEq, Eq, Structural, Clone, Copy, Debug)]
pub struct TilePosition {
    pub x: i32,
    pub y: i32,
}

/// The rotation a quarter turn to the left of `r`.
pub open spec fn rotated_left(r: Rotation) -> Rotation {
    match r {
        Rotation::Up => Rotation::Left,
        Rotation::Left => Rotation::Down,
        Rotation::Down => Rotation::Right,
        Rotation::Right => Rotation::Up,
    }
}

/// The rotation a quarter turn to the right of `r`.
pub open spec fn rotated_right(r: Rotation) -> Rotation {
    match r {
        Rotation::Up => Rotation::Right,
        Rotation::Right => Rotation::Down,
        Rotation::Down => Rotation::Left,
        Rotation::Left => Rotation::Up,
    }
}

/// How many quarter turns to the left `r` is from rest.
pub open spec fn quarter_turns(r: Rotation) -> nat {
    match r {
        Rotation::Up => 0,
        Rotation::Left => 1,
        Rotation::Down => 2,
        Rotation::Right => 3,
    }
}

/// A direction turned a quarter turn counterclockwise.
pub open spec fn turned_ccw(d: PlayerMovement) -> PlayerMovement {
    match d {
        PlayerMovement::Up => PlayerMovement::Left,
        PlayerMovement::Left => PlayerMovement::Down,
        PlayerMovement::Down => PlayerMovement::Right,
        PlayerMovement::Right => PlayerMovement::Up,
    }
}

/// A direction turned a quarter turn clockwise.
pub open spec fn turned_cw(d: PlayerMovement) -> PlayerMovement {
    match d {
        PlayerMovement::Up => PlayerMovement::Right,
        PlayerMovement::Right => PlayerMovement::Down,
        PlayerMovement::Down => PlayerMovement::Left,
        PlayerMovement::Left => PlayerMovement::Up,
    }
}

/// The direction `d` as a tile in rotation `r` sees it at rest: `d` turned
/// back clockwise by the tile's quarter turns.
pub open spec fn unrotated(d: PlayerMovement, r: Rotation) -> PlayerMovement {
    match r {
        Rotation::Up => d,
        Rotation::Left => turned_cw(d),
        Rotation::Down => turned_cw(turned_cw(d)),
        Rotation::Right => turned_ccw(d),
    }
}

/// Whether a tile of this shape at rest lets in a mover travelling in
/// direction `from`.
pub open spec fn admits_at_rest(shape: TileType, from: PlayerMovement) -> bool {
    match shape {
        TileType::Obstacle => false,
        TileType::DeadEnd => from == PlayerMovement::Down,
        TileType::Line => from == PlayerMovement::Up || from == PlayerMovement::Down,
        TileType::Corner => from == PlayerMovement::Down || from == PlayerMovement::Left,
        TileType::TIntersection => from != PlayerMovement::Up,
        TileType::Intersection => true,
    }
}

/// Whether a mover travelling in direction `from` may step into the tile:
/// its openings at rest, turned by its rotation, include that approach.
pub open spec fn entry_open(t: Tile, from: PlayerMovement) -> bool {
    admits_at_rest(t.tile_type, unrotated(from, t.tile_rotation))
}

/// Whether a mover inside the tile may step out of it towards `towards`:
/// the edge facing that way is the one entered from the opposite approach.
pub open spec fn leave_open(t: Tile, towards: PlayerMovement) -> bool {
    entry_open(t, opposite_of(towards))
}

/// The angle of a rotation in degrees, counterclockwise.
pub open spec fn degrees_of(r: Rotation) -> nat {
    90 * quarter_turns(r)
}

impl Rotation {
    /// A quarter turn to the left.
    pub fn rotate_left(self) -> (r: Rotation)
        ensures
            r == rotated_left(self),
    {
        match self {
            Rotation::Up => Rotation::Left,
            Rotation::Left => Rotation::Down,
            Rotation::Down => Rotation::Right,
            Rotation::Right => Rotation::Up,
        }
    }

    /// A quarter turn to the right.
    pub fn rotate_right(self) -> (r: Rotation)
        ensures
            r == rotated_right(self),
    {
        match self {
            Rotation::Up => Rotation::Right,
            Rotation::Right => Rotation::Down,
            Rotation::Down => Rotation::Left,
            Rotation::Left => Rotation::Up,
        }
    }
}

impl Tile {
    /// Whether a mover travelling in direction `from` may step into this tile.
    pub fn permits_entry(&self, from: PlayerMovement) -> (r: bool)
        ensures
            r == entry_open(*self, from),
    {
        match self.tile_type {
            TileType::Obstacle => false,
            TileType::DeadEnd => match self.tile_rotation {
                Rotation::Up => from == PlayerMovement::Down,
                Rotation::Left => from == PlayerMovement::Right,
                Rotation::Down => from == PlayerMovement::Up,
                Rotation::Right => from == PlayerMovement::Left,
            },
            TileType::Line => match self.tile_rotation {
                Rotation::Up | Rotation::Down => {
                    from == PlayerMovement::Up || from == PlayerMovement::Down
                },
                Rotation::Left | Rotation::Right => {
                    from == PlayerMovement::Left || from == PlayerMovement::Right
                },
            },
            TileType::Corner => match self.tile_rotation {
                Rotation::Up => from == PlayerMovement::Down || from == PlayerMovement::Left,
                Rotation::Left => from == PlayerMovement::Down || from == PlayerMovement::Right,
                Rotation::Down => from == PlayerMovement::Up || from == PlayerMovement::Right,
                Rotation::Right => from == PlayerMovement::Up || from == PlayerMovement::Left,
            },
            TileType::TIntersection => match self.tile_rotation {
                Rotation::Up => from != PlayerMovement::Up,
                Rotation::Left => from != PlayerMovement::Left,
                Rotation::Down => from != PlayerMovement::Down,
                Rotation::Right => from != PlayerMovement::Right,
            },
            TileType::Intersection => true,
        }
    }

    /// Whether a mover travelling in direction `from` is stopped at this
    /// tile's edge.
    pub fn check_collision(&self, from: PlayerMovement) -> (r: bool)
        ensures
            r == !entry_open(*self, from),
    {
        !self.permits_entry(from)
    }

    /// Whether a mover inside this tile may step out of it towards `towards`.
    pub fn can_leave(&self, towards: PlayerMovement) -> (r: bool)
        ensures
            r == leave_open(*self, towards),
            r == entry_open(*self, opposite_of(towards)),
    {
        self.permits_entry(towards.opposite())
    }

    /// Whether a mover inside this tile is kept from stepping out of it
    /// towards `towards`.
    pub fn cant_leave(&self, towards: PlayerMovement) -> (r: bool)
        ensures
            r == !leave_open(*self, towards),
    {
        !self.can_leave(towards)
    }

    /// Turns the tile a quarter turn to the left; its shape stays.
    pub fn rotate_left(&mut self)
        ensures
            final(self).tile_type == old(self).tile_type,
            final(self).tile_rotation == rotated_left(old(self).tile_rotation),
    {
        self.tile_rotation = self.tile_rotation.rotate_left();
    }

    /// Turns the tile a quarter turn to the right; its shape stays.
    pub fn rotate_right(&mut self)
        ensures
            final(self).tile_type == old(self).tile_type,
            final(self).tile_rotation == rotated_right(old(self).tile_rotation),
    {
        self.tile_rotation = self.tile_rotation.rotate_right();
    }

    /// Carries out a rotation command on this tile.
    pub fn apply_rotation(&mut self, command: TileRotation)
        ensures
            *final(self) == rotated_by(*old(self), command),
    {
        match command {
            TileRotation::Left => self.rotate_left(),
            TileRotation::Right => self.rotate_right(),
        }
    }

    /// A tile of a shape and rotation drawn uniformly at random, each on
    /// its own.
    pub fn random(rng: &mut rand::rngs::StdRng) -> (r: Tile) {
        let shapes = vec![
            TileType::Obstacle,
            TileType::DeadEnd,
            TileType::Line,
            TileType::Corner,
            TileType::TIntersection,
            TileType::Intersection,
        ];
        let rotations = vec![Rotation::Up, Rotation::Left, Rotation::Down, Rotation::Right];
        let tile_type = match choose_from(shapes.as_slice(), rng) {
            Some(shape) => shape,
            None => TileType::Obstacle,
        };
        let tile_rotation = match choose_from(rotations.as_slice(), rng) {
            Some(rotation) => rotation,
            None => Rotation::Up,
        };
        Tile { tile_type, tile_rotation }
    }

    /// The angle of the tile's rotation in degrees, counterclockwise.
    pub fn calculate_rotation(&self) -> (r: u32)
        ensures
            r == degrees_of(self.tile_rotation),
    {
        match self.tile_rotation {
            Rotation::Up => 0,
            Rotation::Left => 90,
            Rotation::Down => 180,
            Rotation::Right => 270,
        }
    }
}

/// The tile after a rotation command.
pub open spec fn rotated_by(t: Tile, command: TileRotation) -> Tile {
    match command {
        TileRotation::Left => Tile { tile_rotation: rotated_left(t.tile_rotation), ..t },
        TileRotation::Right => Tile { tile_rotation: rotated_right(t.tile_rotation), ..t },
    }
}

/// The unit step of a direction: Up is +y, Right is +x.
pub open spec fn delta_of(d: PlayerMovement) -> TilePosition {
    match d {
        PlayerMovement::Up => TilePosition { x: 0, y: 1 },
        PlayerMovement::Down => TilePosition { x: 0, y: -1i32 },
        PlayerMovement::Left => TilePosition { x: -1i32, y: 0 },
        PlayerMovement::Right => TilePosition { x: 1, y: 0 },
    }
}

/// Whether the coordinate-wise sum of two positions fits in `i32`.
pub open spec fn sum_fits(a: TilePosition, b: TilePosition) -> bool {
    i32::MIN <= a.x + b.x <= i32::MAX && i32::MIN <= a.y + b.y <= i32::MAX
}

/// The coordinate-wise sum of two positions, where it fits.
pub open spec fn sum_of(a: TilePosition, b: TilePosition) -> TilePosition {
    TilePosition { x: (a.x + b.x) as i32, y: (a.y + b.y) as i32 }
}

/// Whether the cell one step from `p` in direction `d` has coordinates in `i32`.
pub open spec fn step_fits(p: TilePosition, d: PlayerMovement) -> bool {
    sum_fits(p, delta_of(d))
}

/// The cell one step from `p` in direction `d`.
pub open spec fn neighbour_of(p: TilePosition, d: PlayerMovement) -> TilePosition {
    sum_of(p, delta_of(d))
}

impl PlayerMovement {
    /// The unit step of this direction.
    pub fn delta(self) -> (r: TilePosition)
        ensures
            r == delta_of(self),
    {
        match self {
            PlayerMovement::Up => TilePosition { x: 0, y: 1 },
            PlayerMovement::Down => TilePosition { x: 0, y: -1 },
            PlayerMovement::Left => TilePosition { x: -1, y: 0 },
            PlayerMovement::Right => TilePosition { x: 1, y: 0 },
        }
    }
}

impl TilePosition {
    /// Coordinate-wise sum.
    pub fn add(self, rhs: TilePosition) -> (r: TilePosition)
        requires
            sum_fits(self, rhs),
        ensures
            r == sum_of(self, rhs),
            r.x == self.x + rhs.x,
            r.y == self.y + rhs.y,
    {
        TilePosition { x: self.x + rhs.x, y: self.y + rhs.y }
    }

    /// The cell one step away in direction `d`.
    pub fn neighbour(self, d: PlayerMovement) -> (r: TilePosition)
        requires
            step_fits(self, d),
        ensures
            r == neighbour_of(self, d),
    {
        self.add(d.delta())
    }

    /// Whether the cell one step away in direction `d` has coordinates in `i32`.
    pub fn can_step(self, d: PlayerMovement) -> (r: bool)
        ensures
            r == step_fits(self, d),
    {
        match d {
            PlayerMovement::Up => self.y < i32::MAX,
            PlayerMovement::Down => self.y > i32::MIN,
            PlayerMovement::Left => self.x > i32::MIN,
            PlayerMovement::Right => self.x < i32::MAX,
        }
    }
}

} // verus!
