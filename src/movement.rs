use crate::actions::PlayerMovement;
use crate::grid::Grid;
use crate::tiles::{entry_open, leave_open, neighbour_of, step_fits, Tile, TilePosition};
use vstd::prelude::*;

verus! {

/// The result of a move attempt.
#[derive(PartialEq, Eq, Structural, Clone, Copy, Debug)]
pub enum MoveOutcome {
    /// The move is legal; the mover now stands at this position.
    Moved(TilePosition),
    /// The move is refused; the mover stays where it was.
    Blocked,
}

/// The outcome of a step from `pos` in direction `d` over the tiles `m`:
/// refused when the destination holds a tile that cannot be entered from
/// `d`, or the origin holds a tile that cannot be left towards `d`; a cell
/// without a tile is open.
pub open spec fn outcome_of(
    pos: TilePosition,
    d: PlayerMovement,
    m: Map<TilePosition, Tile>,
) -> MoveOutcome {
    let dest = neighbour_of(pos, d);
    if m.contains_key(dest) && !entry_open(m[dest], d) {
        MoveOutcome::Blocked
    } else if m.contains_key(pos) && !leave_open(m[pos], d) {
        MoveOutcome::Blocked
    } else {
        MoveOutcome::Moved(dest)
    }
}

/// Decides whether a mover at `player_pos` may step in `direction`.
pub fn try_move(player_pos: TilePosition, direction: PlayerMovement, grid: &Grid) -> (r:
    MoveOutcome)
    requires
        grid.wf(),
        step_fits(player_pos, direction),
    ensures
        r == outcome_of(player_pos, direction, grid@),
{
    let destination = player_pos.neighbour(direction);
    if let Some(tile) = grid.get(destination) {
        if !tile.permits_entry(direction) {
            return MoveOutcome::Blocked;
        }
    }
    if let Some(tile) = grid.get(player_pos) {
        if !tile.can_leave(direction) {
            return MoveOutcome::Blocked;
        }
    }
    MoveOutcome::Moved(destination)
}

/// The player, standing on one cell of the grid.
#[derive(PartialEq, Eq, Structural, Clone, Copy, Debug)]
pub struct Player {
    pub position: TilePosition,
}

impl Player {
    /// A player standing at `position`.
    pub fn new(position: TilePosition) -> (r: Player)
        ensures
            r.position == position,
    {
        Player { position }
    }

    /// Attempts a step in `direction`; the position changes only when the
    /// move is legal.
    pub fn move_player(&mut self, direction: PlayerMovement, grid: &Grid) -> (r: MoveOutcome)
        requires
            grid.wf(),
            step_fits(old(self).position, direction),
        ensures
            r == outcome_of(old(self).position, direction, grid@),
            final(self).position == (match r {
                MoveOutcome::Moved(p) => p,
                MoveOutcome::Blocked => old(self).position,
            }),
    {
        let r = try_move(self.position, direction, grid);
        if let MoveOutcome::Moved(p) = r {
            self.position = p;
        }
        r
    }
}

} // verus!
