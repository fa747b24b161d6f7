use vstd::prelude::*;

verus! {

/// A compass direction: the direction of a movement step, or the edge through
/// which a mover enters a tile.
#[derive(PartialEq, Eq, Structural, Clone, Copy, Debug)]
pub enum PlayerMovement {
    Up,
    Down,
    Left,
    Right,
}

/// The direction facing the given one.
pub open spec fn opposite_of(d: PlayerMovement) -> PlayerMovement {
    match d {
        PlayerMovement::Up => PlayerMovement::Down,
        PlayerMovement::Down => PlayerMovement::Up,
        PlayerMovement::Left => PlayerMovement::Right,
        PlayerMovement::Right => PlayerMovement::Left,
    }
}

impl PlayerMovement {
    /// Swaps Up with Down and Left with Right.
    pub fn opposite(self) -> (r: PlayerMovement)
        ensures
            r == opposite_of(self),
    {
        match self {
            PlayerMovement::Up => PlayerMovement::Down,
            PlayerMovement::Down => PlayerMovement::Up,
            PlayerMovement::Left => PlayerMovement::Right,
            PlayerMovement::Right => PlayerMovement::Left,
        }
    }
}

/// A command to turn the tile under the player by a quarter turn.
#[derive(PartialEq, Eq, Structural, Clone, Copy, Debug)]
pub enum TileRotation {
    Left,
    Right,
}

/// What the player asked for during one tick: at most one step and at most
/// one tile rotation, independent of each other.
#[derive(PartialEq, Eq, Structural, Clone, Copy, Debug)]
pub struct Actions {
    pub player_movement: Option<PlayerMovement>,
    pub tile_rotation: Option<TileRotation>,
}

/// The step requested by the movement keys pressed this tick; when several
/// are pressed, Up wins over Down, Down over Left and Left over Right.
pub open spec fn movement_for(up: bool, down: bool, left: bool, right: bool) -> Option<
    PlayerMovement,
> {
    if up {
        Some(PlayerMovement::Up)
    } else if down {
        Some(PlayerMovement::Down)
    } else if left {
        Some(PlayerMovement::Left)
    } else if right {
        Some(PlayerMovement::Right)
    } else {
        None
    }
}

/// The rotation requested by the rotation keys pressed this tick; Left wins
/// when both are pressed.
pub open spec fn rotation_for(rotate_left: bool, rotate_right: bool) -> Option<TileRotation> {
    if rotate_left {
        Some(TileRotation::Left)
    } else if rotate_right {
        Some(TileRotation::Right)
    } else {
        None
    }
}

impl Actions {
    /// The actions of a tick, from which movement and rotation keys were
    /// pressed during it.
    pub fn from_input(
        up: bool,
        down: bool,
        left: bool,
        right: bool,
        rotate_left: bool,
        rotate_right: bool,
    ) -> (r: Actions)
        ensures
            r.player_movement == movement_for(up, down, left, right),
            r.tile_rotation == rotation_for(rotate_left, rotate_right),
    {
        let player_movement = if up {
            Some(PlayerMovement::Up)
        } else if down {
            Some(PlayerMovement::Down)
        } else if left {
            Some(PlayerMovement::Left)
        } else if right {
            Some(PlayerMovement::Right)
        } else {
            None
        };
        let tile_rotation = if rotate_left {
            Some(TileRotation::Left)
        } else if rotate_right {
            Some(TileRotation::Right)
        } else {
            None
        };
        Actions { player_movement, tile_rotation }
    }
}

impl Default for Actions {
    /// No step and no rotation.
    fn default() -> (r: Actions)
        ensures
            r.player_movement is None,
            r.tile_rotation is None,
    {
        Actions { player_movement: None, tile_rotation: None }
    }
}

} // verus!
