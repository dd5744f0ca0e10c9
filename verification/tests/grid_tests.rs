use cartographers::grid::Grid;
use cartographers::terrain::Terrain;

#[test]
fn standard_map_has_five_mountains() {
    let g = Grid::standard_map();
    assert_eq!(g.rows, 11);
    assert_eq!(g.columns, 11);
    let mountains = [(1, 3), (2, 8), (5, 5), (8, 2), (9, 7)];
    for r in 0..11usize {
        for c in 0..11usize {
            let expected = if mountains.contains(&(r, c)) {
                Terrain::Mountain
            } else {
                Terrain::Empty
            };
            assert_eq!(g.terrain_at(r, c), expected);
        }
    }
}

#[test]
fn new_grid_starts_empty() {
    let none: Vec<(usize, usize)> = Vec::new();
    let g = Grid::new(3, 4, &none);
    assert_eq!(g.rows, 3);
    assert_eq!(g.columns, 4);
    for r in 0..3usize {
        for c in 0..4usize {
            assert_eq!(g.terrain_at(r, c), Terrain::Empty);
        }
    }
}

#[test]
fn check_placement_accepts_free_cells() {
    let none: Vec<(usize, usize)> = Vec::new();
    let g = Grid::new(3, 3, &none);
    let occ: Vec<(isize, isize)> = vec![(0, 0), (1, 1), (2, 2)];
    assert!(g.check_placement(&occ));
}

#[test]
fn check_placement_rejects_out_of_bounds() {
    let none: Vec<(usize, usize)> = Vec::new();
    let g = Grid::new(3, 3, &none);
    assert!(!g.check_placement(&vec![(0, 0), (3, 0)]));
    assert!(!g.check_placement(&vec![(-1, 0)]));
    assert!(!g.check_placement(&vec![(0, -1)]));
    assert!(!g.check_placement(&vec![(0, 3)]));
}

#[test]
fn check_placement_rejects_occupied_cell() {
    let mountains: Vec<(usize, usize)> = vec![(1, 1)];
    let g = Grid::new(3, 3, &mountains);
    assert!(g.check_placement(&vec![(0, 1), (1, 0)]));
    assert!(!g.check_placement(&vec![(0, 1), (1, 1)]));
}

#[test]
fn commit_sets_exactly_the_occupied_cells() {
    let none: Vec<(usize, usize)> = Vec::new();
    let mut g = Grid::new(3, 3, &none);
    let occ: Vec<(isize, isize)> = vec![(1, 1), (1, 2)];
    assert!(g.check_placement(&occ));
    g.commit(&occ, Terrain::Forest);
    for r in 0..3usize {
        for c in 0..3usize {
            let expected = if (r, c) == (1, 1) || (r, c) == (1, 2) {
                Terrain::Forest
            } else {
                Terrain::Empty
            };
            assert_eq!(g.terrain_at(r, c), expected);
        }
    }
}

#[test]
fn commit_keeps_earlier_terrain() {
    let mountains: Vec<(usize, usize)> = vec![(0, 0)];
    let mut g = Grid::new(2, 2, &mountains);
    g.commit(&vec![(1, 1)], Terrain::Water);
    assert_eq!(g.terrain_at(0, 0), Terrain::Mountain);
    assert_eq!(g.terrain_at(1, 1), Terrain::Water);
    assert_eq!(g.terrain_at(0, 1), Terrain::Empty);
    assert_eq!(g.terrain_at(1, 0), Terrain::Empty);
}
