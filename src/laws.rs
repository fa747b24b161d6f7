use crate::actions::{opposite_of, PlayerMovement, TileRotation};
use crate::movement::{outcome_of, MoveOutcome};
use crate::tiles::{
    entry_open, leave_open, neighbour_of, rotated_by, rotated_left, rotated_right, turned_ccw,
    turned_cw, Rotation, Tile, TilePosition, TileType,
};
use vstd::prelude::*;

verus! {

/// Turning left and then right, or right and then left, gives back the
/// rotation one started from.
pub proof fn rotation_turns_cancel(r: Rotation)
    ensures
        rotated_right(rotated_left(r)) == r,
        rotated_left(rotated_right(r)) == r,
{
}

/// Four quarter turns to the left give back the rotation one started from,
/// and no fewer do.
pub proof fn rotation_cycle_of_four(r: Rotation)
    ensures
        rotated_left(rotated_left(rotated_left(rotated_left(r)))) == r,
        rotated_left(r) != r,
        rotated_left(rotated_left(r)) != r,
        rotated_left(rotated_left(rotated_left(r))) != r,
{
}

/// The opposite of the opposite of a direction is that direction, and no
/// direction is its own opposite.
pub proof fn opposite_is_involution(d: PlayerMovement)
    ensures
        opposite_of(opposite_of(d)) == d,
        d != opposite_of(d),
{
}

/// An obstacle lets nobody in, whatever its rotation and the approach.
pub proof fn obstacle_never_entered(r: Rotation, d: PlayerMovement)
    ensures
        !entry_open(Tile { tile_type: TileType::Obstacle, tile_rotation: r }, d),
{
}

/// An intersection lets everybody in, whatever its rotation and the approach.
pub proof fn intersection_always_entered(r: Rotation, d: PlayerMovement)
    ensures
        entry_open(Tile { tile_type: TileType::Intersection, tile_rotation: r }, d),
{
}

/// A dead end at rest is entered only by a mover travelling down.
pub proof fn dead_end_at_rest_entered_only_downwards(d: PlayerMovement)
    ensures
        entry_open(Tile { tile_type: TileType::DeadEnd, tile_rotation: Rotation::Up }, d) <==> d
            == PlayerMovement::Down,
{
}

/// Leaving a tile towards a direction is allowed exactly when entering it
/// from the opposite direction is.
pub proof fn leaving_mirrors_entering(t: Tile, d: PlayerMovement)
    ensures
        leave_open(t, d) == entry_open(t, opposite_of(d)),
{
}

/// Turning a tile left turns its openings counterclockwise, turning it
/// right turns them clockwise; the shape is kept.
pub proof fn rotation_turns_openings(t: Tile, d: PlayerMovement)
    ensures
        entry_open(rotated_by(t, TileRotation::Left), turned_ccw(d)) == entry_open(t, d),
        entry_open(rotated_by(t, TileRotation::Right), turned_cw(d)) == entry_open(t, d),
        rotated_by(rotated_by(t, TileRotation::Left), TileRotation::Right) == t,
{
}

/// A step into a cell without a tile is taken, unless the tile the mover
/// stands on cannot be left that way.
pub proof fn empty_cell_is_open(pos: TilePosition, d: PlayerMovement, m: Map<TilePosition, Tile>)
    requires
        !m.contains_key(neighbour_of(pos, d)),
        m.contains_key(pos) ==> leave_open(m[pos], d),
    ensures
        outcome_of(pos, d, m) == MoveOutcome::Moved(neighbour_of(pos, d)),
{
}

} // verus!
