use rand::rngs::StdRng;
use rand::SeedableRng;
use tile_maze::actions::PlayerMovement::{Down, Left, Right, Up};
use tile_maze::actions::{Actions, PlayerMovement, TileRotation};
use tile_maze::grid::Grid;
use tile_maze::movement::{try_move, MoveOutcome, Player};
use tile_maze::tiles::{Rotation, Tile, TilePosition, TileType};

const DIRECTIONS: [PlayerMovement; 4] = [
    PlayerMovement::Up,
    PlayerMovement::Down,
    PlayerMovement::Left,
    PlayerMovement::Right,
];

const ROTATIONS: [Rotation; 4] = [Rotation::Up, Rotation::Left, Rotation::Down, Rotation::Right];

const SHAPES: [TileType; 6] = [
    TileType::Obstacle,
    TileType::DeadEnd,
    TileType::Line,
    TileType::Corner,
    TileType::TIntersection,
    TileType::Intersection,
];

fn tile(tile_type: TileType, tile_rotation: Rotation) -> Tile {
    Tile { tile_type, tile_rotation }
}

fn pos(x: i32, y: i32) -> TilePosition {
    TilePosition { x, y }
}

fn open_edges(t: &Tile) -> Vec<PlayerMovement> {
    DIRECTIONS.iter().copied().filter(|d| t.permits_entry(*d)).collect()
}

#[test]
fn rotations_left_and_right_cancel() {
    for r in ROTATIONS {
        assert_eq!(r.rotate_left().rotate_right(), r);
        assert_eq!(r.rotate_right().rotate_left(), r);
    }
}

#[test]
fn four_left_turns_return() {
    for r in ROTATIONS {
        let mut s = r;
        for k in 1..=4 {
            s = s.rotate_left();
            if k < 4 {
                assert_ne!(s, r);
            }
        }
        assert_eq!(s, r);
    }
    assert_eq!(Rotation::Up.rotate_left(), Rotation::Left);
    assert_eq!(Rotation::Left.rotate_left(), Rotation::Down);
    assert_eq!(Rotation::Down.rotate_left(), Rotation::Right);
    assert_eq!(Rotation::Right.rotate_left(), Rotation::Up);
}

#[test]
fn opposite_twice_is_identity() {
    for d in DIRECTIONS {
        assert_eq!(d.opposite().opposite(), d);
        assert_ne!(d.opposite(), d);
    }
    assert_eq!(PlayerMovement::Up.opposite(), PlayerMovement::Down);
    assert_eq!(PlayerMovement::Left.opposite(), PlayerMovement::Right);
}

#[test]
fn obstacle_denies_every_entry() {
    for r in ROTATIONS {
        for d in DIRECTIONS {
            let t = tile(TileType::Obstacle, r);
            assert!(!t.permits_entry(d));
            assert!(t.check_collision(d));
        }
    }
}

#[test]
fn intersection_permits_every_entry() {
    for r in ROTATIONS {
        for d in DIRECTIONS {
            let t = tile(TileType::Intersection, r);
            assert!(t.permits_entry(d));
            assert!(!t.check_collision(d));
        }
    }
}

#[test]
fn dead_end_at_rest_only_from_down() {
    let t = tile(TileType::DeadEnd, Rotation::Up);
    assert!(t.permits_entry(PlayerMovement::Down));
    assert!(!t.permits_entry(PlayerMovement::Up));
    assert!(!t.permits_entry(PlayerMovement::Left));
    assert!(!t.permits_entry(PlayerMovement::Right));
}

#[test]
fn dead_end_single_opening_per_rotation() {
    let expected = [
        (Rotation::Up, PlayerMovement::Down),
        (Rotation::Left, PlayerMovement::Right),
        (Rotation::Down, PlayerMovement::Up),
        (Rotation::Right, PlayerMovement::Left),
    ];
    for (r, d) in expected {
        assert_eq!(open_edges(&tile(TileType::DeadEnd, r)), vec![d]);
    }
}

#[test]
fn line_corner_and_t_tables() {
    assert_eq!(open_edges(&tile(TileType::Line, Rotation::Up)), vec![Up, Down]);
    assert_eq!(open_edges(&tile(TileType::Line, Rotation::Down)), vec![Up, Down]);
    assert_eq!(open_edges(&tile(TileType::Line, Rotation::Left)), vec![Left, Right]);
    assert_eq!(open_edges(&tile(TileType::Line, Rotation::Right)), vec![Left, Right]);
    assert_eq!(open_edges(&tile(TileType::Corner, Rotation::Up)), vec![Down, Left]);
    assert_eq!(open_edges(&tile(TileType::Corner, Rotation::Left)), vec![Down, Right]);
    assert_eq!(open_edges(&tile(TileType::Corner, Rotation::Down)), vec![Up, Right]);
    assert_eq!(open_edges(&tile(TileType::Corner, Rotation::Right)), vec![Up, Left]);
    assert_eq!(open_edges(&tile(TileType::TIntersection, Rotation::Up)), vec![Down, Left, Right]);
    assert_eq!(open_edges(&tile(TileType::TIntersection, Rotation::Left)), vec![Up, Down, Right]);
    assert_eq!(open_edges(&tile(TileType::TIntersection, Rotation::Down)), vec![Up, Left, Right]);
    assert_eq!(open_edges(&tile(TileType::TIntersection, Rotation::Right)), vec![Up, Down, Left]);
}

#[test]
fn leaving_is_entering_from_the_opposite_side() {
    for shape in SHAPES {
        for r in ROTATIONS {
            for d in DIRECTIONS {
                let t = tile(shape, r);
                assert_eq!(t.can_leave(d), t.permits_entry(d.opposite()));
                assert_eq!(t.cant_leave(d), !t.can_leave(d));
            }
        }
    }
    let corner = tile(TileType::Corner, Rotation::Up);
    assert!(corner.can_leave(PlayerMovement::Up));
    assert!(corner.can_leave(PlayerMovement::Right));
    assert!(!corner.can_leave(PlayerMovement::Down));
}

#[test]
fn moving_right_into_dead_end_open_to_the_left_is_blocked() {
    let mut grid = Grid::new();
    grid.insert(pos(1, 0), tile(TileType::DeadEnd, Rotation::Right));
    assert_eq!(try_move(pos(0, 0), PlayerMovement::Right, &grid), MoveOutcome::Blocked);
    let mut player = Player::new(pos(0, 0));
    assert_eq!(player.move_player(PlayerMovement::Right, &grid), MoveOutcome::Blocked);
    assert_eq!(player.position, pos(0, 0));
}

#[test]
fn moving_up_from_line_into_intersection() {
    let mut grid = Grid::new();
    grid.insert(pos(0, 1), tile(TileType::Intersection, Rotation::Up));
    grid.insert(pos(0, 0), tile(TileType::Line, Rotation::Up));
    assert_eq!(try_move(pos(0, 0), PlayerMovement::Up, &grid), MoveOutcome::Moved(pos(0, 1)));
    let mut player = Player::new(pos(0, 0));
    assert_eq!(player.move_player(PlayerMovement::Up, &grid), MoveOutcome::Moved(pos(0, 1)));
    assert_eq!(player.position, pos(0, 1));
}

#[test]
fn origin_tile_that_cannot_be_left_blocks() {
    let mut grid = Grid::new();
    grid.insert(pos(0, 0), tile(TileType::Line, Rotation::Left));
    assert_eq!(try_move(pos(0, 0), PlayerMovement::Up, &grid), MoveOutcome::Blocked);
    assert_eq!(try_move(pos(0, 0), PlayerMovement::Left, &grid), MoveOutcome::Moved(pos(-1, 0)));
}

#[test]
fn corner_turned_left_then_right() {
    let original = tile(TileType::Corner, Rotation::Up);
    let mut t = original;
    t.rotate_left();
    assert_eq!(t.tile_rotation, Rotation::Left);
    assert_eq!(t.tile_type, TileType::Corner);
    assert_eq!(open_edges(&t), open_edges(&tile(TileType::Corner, Rotation::Left)));
    assert_eq!(open_edges(&t), vec![PlayerMovement::Down, PlayerMovement::Right]);
    t.rotate_right();
    assert_eq!(t, original);
    assert_eq!(open_edges(&t), vec![PlayerMovement::Down, PlayerMovement::Left]);
}

#[test]
fn moving_into_a_cell_without_tile_is_accepted() {
    let grid = Grid::new();
    for d in DIRECTIONS {
        let dest = pos(0, 0).add(d.delta());
        assert_eq!(try_move(pos(0, 0), d, &grid), MoveOutcome::Moved(dest));
    }
    let mut grid = Grid::new();
    grid.insert(pos(3, 3), tile(TileType::Obstacle, Rotation::Up));
    assert_eq!(try_move(pos(0, 0), PlayerMovement::Down, &grid), MoveOutcome::Moved(pos(0, -1)));
}

#[test]
fn rotation_command_turns_only_the_tile_under_the_player() {
    let mut grid = Grid::new();
    grid.insert(pos(2, 2), tile(TileType::Corner, Rotation::Up));
    grid.insert(pos(2, 3), tile(TileType::Line, Rotation::Up));
    assert!(grid.rotate_at(pos(2, 2), TileRotation::Left));
    assert_eq!(grid.get(pos(2, 2)), Some(tile(TileType::Corner, Rotation::Left)));
    assert_eq!(grid.get(pos(2, 3)), Some(tile(TileType::Line, Rotation::Up)));
    assert!(grid.rotate_at(pos(2, 2), TileRotation::Right));
    assert!(grid.rotate_at(pos(2, 2), TileRotation::Right));
    assert_eq!(grid.get(pos(2, 2)), Some(tile(TileType::Corner, Rotation::Right)));
    assert!(!grid.rotate_at(pos(9, 9), TileRotation::Left));
    assert_eq!(grid.get(pos(9, 9)), None);
}

#[test]
fn obstacle_accepts_rotation_without_effect() {
    let mut t = tile(TileType::Obstacle, Rotation::Down);
    t.apply_rotation(TileRotation::Left);
    assert_eq!(t.tile_rotation, Rotation::Right);
    assert_eq!(open_edges(&t), Vec::<PlayerMovement>::new());
}

#[test]
fn insert_replaces_the_tile_at_a_position() {
    let mut grid = Grid::new();
    assert_eq!(grid.get(pos(0, 0)), None);
    grid.insert(pos(0, 0), tile(TileType::Line, Rotation::Up));
    grid.insert(pos(0, 0), tile(TileType::Obstacle, Rotation::Left));
    assert_eq!(grid.get(pos(0, 0)), Some(tile(TileType::Obstacle, Rotation::Left)));
    assert_eq!(try_move(pos(0, 1), PlayerMovement::Down, &grid), MoveOutcome::Blocked);
}

#[test]
fn rotation_degrees() {
    assert_eq!(tile(TileType::Line, Rotation::Up).calculate_rotation(), 0);
    assert_eq!(tile(TileType::Line, Rotation::Left).calculate_rotation(), 90);
    assert_eq!(tile(TileType::Line, Rotation::Down).calculate_rotation(), 180);
    assert_eq!(tile(TileType::Line, Rotation::Right).calculate_rotation(), 270);
}

#[test]
fn positions_add_and_step() {
    assert_eq!(pos(2, -3).add(pos(-5, 7)), pos(-3, 4));
    assert_eq!(PlayerMovement::Up.delta(), pos(0, 1));
    assert_eq!(PlayerMovement::Down.delta(), pos(0, -1));
    assert_eq!(PlayerMovement::Left.delta(), pos(-1, 0));
    assert_eq!(PlayerMovement::Right.delta(), pos(1, 0));
    assert_eq!(pos(4, 4).neighbour(PlayerMovement::Left), pos(3, 4));
    assert!(!pos(i32::MAX, 0).can_step(PlayerMovement::Right));
    assert!(pos(i32::MAX, 0).can_step(PlayerMovement::Left));
    assert!(!pos(0, i32::MIN).can_step(PlayerMovement::Down));
    assert!(pos(0, i32::MIN).can_step(PlayerMovement::Up));
}

#[test]
fn input_keys_pick_at_most_one_action_each() {
    let none = Actions::default();
    assert_eq!(none.player_movement, None);
    assert_eq!(none.tile_rotation, None);
    let a = Actions::from_input(false, true, true, true, false, true);
    assert_eq!(a.player_movement, Some(PlayerMovement::Down));
    assert_eq!(a.tile_rotation, Some(TileRotation::Right));
    let b = Actions::from_input(true, true, false, false, true, true);
    assert_eq!(b.player_movement, Some(PlayerMovement::Up));
    assert_eq!(b.tile_rotation, Some(TileRotation::Left));
    let c = Actions::from_input(false, false, false, true, false, false);
    assert_eq!(c.player_movement, Some(PlayerMovement::Right));
    assert_eq!(c.tile_rotation, None);
    let d = Actions::from_input(false, false, false, false, false, false);
    assert_eq!(d, none);
}

#[test]
fn populated_grid_fills_the_rectangle() {
    let mut rng = StdRng::seed_from_u64(7);
    let grid = Grid::populate(-20, 20, -20, 20, &mut rng);
    let mut shapes = Vec::new();
    let mut rotations = Vec::new();
    for x in -21..21 {
        for y in -21..21 {
            let inside = (-20..20).contains(&x) && (-20..20).contains(&y);
            let t = grid.get(pos(x, y));
            assert_eq!(t.is_some(), inside);
            if let Some(t) = t {
                if !shapes.contains(&t.tile_type) {
                    shapes.push(t.tile_type);
                }
                if !rotations.contains(&t.tile_rotation) {
                    rotations.push(t.tile_rotation);
                }
            }
        }
    }
    assert_eq!(shapes.len(), 6);
    assert_eq!(rotations.len(), 4);
}

#[test]
fn populate_with_same_seed_is_reproducible() {
    let a = Grid::populate(0, 5, 0, 5, &mut StdRng::seed_from_u64(11));
    let b = Grid::populate(0, 5, 0, 5, &mut StdRng::seed_from_u64(11));
    for x in 0..5 {
        for y in 0..5 {
            assert_eq!(a.get(pos(x, y)), b.get(pos(x, y)));
        }
    }
}

#[test]
fn populate_empty_rectangle() {
    let mut rng = StdRng::seed_from_u64(3);
    let grid = Grid::populate(5, 5, 0, 10, &mut rng);
    assert_eq!(grid.get(pos(5, 0)), None);
    let grid = Grid::populate(0, 3, 4, 1, &mut rng);
    assert_eq!(grid.get(pos(0, 1)), None);
    assert_eq!(grid.get(pos(0, 4)), None);
}

#[test]
fn random_tile_is_some_tile() {
    let mut rng = StdRng::seed_from_u64(5);
    let t = Tile::random(&mut rng);
    assert!(SHAPES.contains(&t.tile_type));
    assert!(ROTATIONS.contains(&t.tile_rotation));
}
