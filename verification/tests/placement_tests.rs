use cartographers::grid::Grid;
use cartographers::image::Image;
use cartographers::placement::{EngineState, PlacementEngine};
use cartographers::rotation::Rotation;
use cartographers::terrain::{Choice, Terrain};

fn tiny_image() -> Image {
    Image { width: 1, height: 1, pixel_size: 1, format: 0, data: vec![0] }
}

fn choice_with_tiles(tiles: Vec<(usize, usize)>) -> Choice {
    Choice { terrain: Terrain::Water, image: tiny_image(), tiles, with_coin: false }
}

fn empty_11x11() -> Grid {
    let none: Vec<(usize, usize)> = Vec::new();
    Grid::new(11, 11, &none)
}

fn candidate_state(engine: &PlacementEngine) -> (Rotation, bool, Option<Vec<(isize, isize)>>) {
    match &engine.state {
        EngineState::Dragging(c) => {
            (c.rotation, c.valid_to_place, c.occupied_tiles.clone())
        },
        _ => panic!("engine is not dragging"),
    }
}

#[test]
fn empty_choice_list_makes_no_offer() {
    let mut engine = PlacementEngine::new();
    engine.offer(Vec::new());
    assert!(matches!(engine.state, EngineState::Idle));
}

#[test]
fn selecting_a_choice_starts_dragging_fresh() {
    let mut engine = PlacementEngine::new();
    engine.offer(vec![choice_with_tiles(vec![(0, 0)])]);
    assert!(matches!(engine.state, EngineState::Offering(_)));
    engine.select_choice(0);
    let (rotation, valid, occupied) = candidate_state(&engine);
    assert_eq!(rotation, Rotation::R0);
    assert!(!valid);
    assert!(occupied.is_none());
}

#[test]
fn single_tile_occupies_exactly_the_hovered_cell() {
    let grid = empty_11x11();
    let mut engine = PlacementEngine::new();
    engine.offer(vec![choice_with_tiles(vec![(0, 0)])]);
    engine.select_choice(0);
    for anchor in [(0usize, 0usize), (4, 9), (10, 10), (7, 0)] {
        engine.snap_selected_choice_to_cell(&grid, anchor);
        let (_, valid, occupied) = candidate_state(&engine);
        assert_eq!(occupied.unwrap(), vec![(anchor.0 as isize, anchor.1 as isize)]);
        assert!(valid);
    }
}

#[test]
fn domino_scenario_across_rotations() {
    // An 11x11 empty grid and a horizontal domino {(0,0),(0,1)}.
    let grid = empty_11x11();
    let mut engine = PlacementEngine::new();
    engine.offer(vec![choice_with_tiles(vec![(0, 0), (0, 1)])]);
    engine.select_choice(0);

    engine.snap_selected_choice_to_cell(&grid, (5, 5));
    let (_, valid, occupied) = candidate_state(&engine);
    assert_eq!(occupied.unwrap(), vec![(5, 5), (5, 6)]);
    assert!(valid);

    engine.rotate_selected_choice(1);
    let (rotation, valid, occupied) = candidate_state(&engine);
    assert_eq!(rotation, Rotation::R90);
    assert!(occupied.is_none());
    assert!(!valid);

    engine.snap_selected_choice_to_cell(&grid, (5, 5));
    let (_, valid, occupied) = candidate_state(&engine);
    assert_eq!(occupied.unwrap(), vec![(5, 5), (4, 5)]);
    assert!(valid);

    engine.snap_selected_choice_to_cell(&grid, (10, 10));
    let (_, valid, occupied) = candidate_state(&engine);
    assert_eq!(occupied.unwrap(), vec![(10, 10), (9, 10)]);
    assert!(valid);

    // Two more quarter turns point the domino downward: at the bottom edge
    // one computed cell leaves the board and the placement is refused.
    engine.rotate_selected_choice(1);
    engine.rotate_selected_choice(1);
    let (rotation, _, _) = candidate_state(&engine);
    assert_eq!(rotation, Rotation::R270);
    engine.snap_selected_choice_to_cell(&grid, (10, 10));
    let (_, valid, occupied) = candidate_state(&engine);
    assert_eq!(occupied.unwrap(), vec![(10, 10), (11, 10)]);
    assert!(!valid);
}

#[test]
fn four_quarter_turns_restore_the_occupied_cells() {
    let grid = empty_11x11();
    let mut engine = PlacementEngine::new();
    engine.offer(vec![choice_with_tiles(vec![(0, 0), (0, 1), (1, 1)])]);
    engine.select_choice(0);
    engine.snap_selected_choice_to_cell(&grid, (5, 5));
    let (_, _, before) = candidate_state(&engine);
    for _ in 0..4 {
        engine.rotate_selected_choice(1);
        engine.snap_selected_choice_to_cell(&grid, (5, 5));
    }
    let (rotation, _, after) = candidate_state(&engine);
    assert_eq!(rotation, Rotation::R0);
    assert_eq!(before.unwrap(), after.unwrap());
}

#[test]
fn two_half_turns_restore_the_occupied_cells() {
    let grid = empty_11x11();
    let mut engine = PlacementEngine::new();
    engine.offer(vec![choice_with_tiles(vec![(0, 0), (1, 0), (2, 1)])]);
    engine.select_choice(0);
    engine.snap_selected_choice_to_cell(&grid, (6, 4));
    let (_, _, before) = candidate_state(&engine);
    engine.rotate_selected_choice(1);
    engine.rotate_selected_choice(1);
    engine.snap_selected_choice_to_cell(&grid, (6, 4));
    let (_, _, half) = candidate_state(&engine);
    engine.rotate_selected_choice(1);
    engine.rotate_selected_choice(1);
    engine.snap_selected_choice_to_cell(&grid, (6, 4));
    let (_, _, after) = candidate_state(&engine);
    assert_ne!(before.clone().unwrap(), half.unwrap());
    assert_eq!(before.unwrap(), after.unwrap());
}

#[test]
fn opposite_rotation_directions_cancel() {
    let mut engine = PlacementEngine::new();
    engine.offer(vec![choice_with_tiles(vec![(0, 0), (0, 1)])]);
    engine.select_choice(0);
    engine.rotate_selected_choice(-1);
    let (rotation, _, _) = candidate_state(&engine);
    assert_eq!(rotation, Rotation::R270);
    engine.rotate_selected_choice(1);
    let (rotation, _, _) = candidate_state(&engine);
    assert_eq!(rotation, Rotation::R0);
}

#[test]
fn hovering_an_occupied_cell_invalidates() {
    let mountains: Vec<(usize, usize)> = vec![(5, 6)];
    let grid = Grid::new(11, 11, &mountains);
    let mut engine = PlacementEngine::new();
    engine.offer(vec![choice_with_tiles(vec![(0, 0), (0, 1)])]);
    engine.select_choice(0);
    engine.snap_selected_choice_to_cell(&grid, (5, 5));
    let (_, valid, occupied) = candidate_state(&engine);
    assert_eq!(occupied.unwrap(), vec![(5, 5), (5, 6)]);
    assert!(!valid);
    // One cell to the left, both cells are free again.
    engine.snap_selected_choice_to_cell(&grid, (5, 4));
    let (_, valid, _) = candidate_state(&engine);
    assert!(valid);
}

#[test]
fn pointer_outside_grid_clears_anchor_and_validity() {
    let grid = empty_11x11();
    let mut engine = PlacementEngine::new();
    engine.offer(vec![choice_with_tiles(vec![(0, 0)])]);
    engine.select_choice(0);
    engine.snap_selected_choice_to_cell(&grid, (3, 3));
    engine.position_selected_choice();
    match &engine.state {
        EngineState::Dragging(c) => {
            assert!(c.occupied_tiles.is_none());
            assert!(c.latest_hovered_cell.is_none());
            assert!(!c.valid_to_place);
        },
        _ => panic!("engine is not dragging"),
    }
}

#[test]
fn confirm_commits_and_returns_to_idle() {
    let mut grid = empty_11x11();
    let mut engine = PlacementEngine::new();
    engine.offer(vec![choice_with_tiles(vec![(0, 0), (0, 1)])]);
    engine.select_choice(0);
    engine.snap_selected_choice_to_cell(&grid, (5, 5));
    assert!(engine.confirm(&mut grid));
    assert!(matches!(engine.state, EngineState::Idle));
    assert_eq!(grid.terrain_at(5, 5), Terrain::Water);
    assert_eq!(grid.terrain_at(5, 6), Terrain::Water);
    assert_eq!(grid.terrain_at(5, 4), Terrain::Empty);
    // A second confirm has nothing to place.
    assert!(!engine.confirm(&mut grid));
}

#[test]
fn confirm_without_anchor_is_a_no_op() {
    let mut grid = empty_11x11();
    let mut engine = PlacementEngine::new();
    engine.offer(vec![choice_with_tiles(vec![(0, 0)])]);
    engine.select_choice(0);
    assert!(!engine.confirm(&mut grid));
    assert!(matches!(engine.state, EngineState::Dragging(_)));
    assert_eq!(grid.terrain_at(0, 0), Terrain::Empty);
}

#[test]
fn confirm_invalid_placement_is_refused() {
    let mountains: Vec<(usize, usize)> = vec![(2, 2)];
    let mut grid = Grid::new(5, 5, &mountains);
    let mut engine = PlacementEngine::new();
    engine.offer(vec![choice_with_tiles(vec![(0, 0)])]);
    engine.select_choice(0);
    engine.snap_selected_choice_to_cell(&grid, (2, 2));
    assert!(!engine.confirm(&mut grid));
    assert_eq!(grid.terrain_at(2, 2), Terrain::Mountain);
}

#[test]
fn cancel_discards_the_candidate_without_touching_the_grid() {
    let mut grid = empty_11x11();
    let mut engine = PlacementEngine::new();
    engine.offer(vec![choice_with_tiles(vec![(0, 0)])]);
    engine.select_choice(0);
    engine.snap_selected_choice_to_cell(&grid, (1, 1));
    engine.cancel();
    assert!(matches!(engine.state, EngineState::Idle));
    assert!(!engine.confirm(&mut grid));
    assert_eq!(grid.terrain_at(1, 1), Terrain::Empty);
}
