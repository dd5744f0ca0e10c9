//! The grid: the persistent per-session record of which cells are occupied
//! by which terrain.
//!
//! A cell's terrain is `Empty` until exactly one successful commit sets it;
//! it never reverts within a session, because a commit only touches cells it
//! has just re-checked to be empty.

use vstd::pervasive::VecAdditionalExecFns;
use vstd::prelude::*;

use crate::shape::{contains_tile, MAX_OFFSET};
use crate::terrain::Terrain;

verus! {

/// One grid position and the terrain it currently holds.
#[derive(Clone, Copy, Debug)]
pub struct Cell {
    pub terrain: Terrain,
    pub index: (usize, usize),
}

/// The player's board: `rows * columns` cells stored row-major, each knowing
/// its own index.
#[derive(Clone, Debug)]
pub struct Grid {
    pub rows: usize,
    pub columns: usize,
    pub cells: Vec<Cell>,
}

/// The absolute index `(r, c)` occurs in `occupied`.
pub open spec fn occupied_contains(occupied: Seq<(isize, isize)>, r: int, c: int) -> bool {
    exists|k: int| 0 <= k < occupied.len() && occupied[k].0 == r && occupied[k].1 == c
}

impl Grid {
    /// Positive bounded dimensions, one cell per position, each cell tagged
    /// with its own row-major index.
    pub open spec fn wf(self) -> bool {
        &&& 0 < self.rows <= MAX_OFFSET
        &&& 0 < self.columns <= MAX_OFFSET
        &&& self.cells@.len() == self.rows * self.columns
        &&& forall|k: int|
            0 <= k < self.cells@.len() ==> (#[trigger] self.cells@[k]).index.0 == k / (
            self.columns as int) && self.cells@[k].index.1 == k % (self.columns as int)
    }

    /// The absolute index `(r, c)` lies on the board.
    pub open spec fn in_bounds(self, r: int, c: int) -> bool {
        0 <= r < self.rows && 0 <= c < self.columns
    }

    /// The terrain of the cell at `(r, c)`.
    pub open spec fn terrain_at_spec(self, r: int, c: int) -> Terrain {
        self.cells@[r * self.columns + c].terrain
    }

    /// Every index of `occupied` lies on the board and on an empty cell:
    /// the two reasons a placement can be refused are being out of bounds
    /// and colliding with an occupied cell, and there are no others.
    pub open spec fn placement_valid(self, occupied: Seq<(isize, isize)>) -> bool {
        forall|k: int|
            0 <= k < occupied.len() ==> {
                let t = #[trigger] occupied[k];
                &&& self.in_bounds(t.0 as int, t.1 as int)
                &&& self.terrain_at_spec(t.0 as int, t.1 as int) == Terrain::Empty
            }
    }

    /// Flat offset of `(r, c)`.
    fn offset_of(&self, r: usize, c: usize) -> (o: usize)
        requires
            self.wf(),
            r < self.rows,
            c < self.columns,
        ensures
            o == r * self.columns + c,
            o < self.cells@.len(),
    {
        let n = self.cells.len();
        proof {
            assert(r * self.columns + c < self.rows * self.columns) by (nonlinear_arith)
                requires
                    r < self.rows,
                    c < self.columns,
                    0 <= r,
                    0 <= c,
            ;
            assert(r * self.columns + c < n);
        }
        r * self.columns + c
    }

    /// The terrain of the cell at `(r, c)`.
    pub fn terrain_at(&self, r: usize, c: usize) -> (t: Terrain)
        requires
            self.wf(),
            r < self.rows,
            c < self.columns,
        ensures
            t == self.terrain_at_spec(r as int, c as int),
    {
        let o = self.offset_of(r, c);
        self.cells[o].terrain
    }

    /// A fresh board of `rows * columns` empty cells, except that the listed
    /// mountain positions hold `Mountain` from the start.
    pub fn new(rows: usize, columns: usize, mountains: &Vec<(usize, usize)>) -> (g: Grid)
        requires
            0 < rows <= MAX_OFFSET,
            0 < columns <= MAX_OFFSET,
            rows * columns <= usize::MAX,
        ensures
            g.wf(),
            g.rows == rows,
            g.columns == columns,
            forall|r: int, c: int|
                g.in_bounds(r, c) ==> g.terrain_at_spec(r, c) == (if crate::shape::tile_at(
                    mountains@,
                    r,
                    c,
                ) {
                    Terrain::Mountain
                } else {
                    Terrain::Empty
                }),
    {
        let mut cells: Vec<Cell> = Vec::new();
        let mut r: usize = 0;
        proof {
            assert(rows * columns == columns * rows) by (nonlinear_arith);
        }
        while r < rows
            invariant
                0 <= r <= rows,
                0 < columns <= MAX_OFFSET,
                rows * columns <= usize::MAX,
                cells@.len() == r * columns,
                forall|k: int|
                    0 <= k < cells@.len() ==> {
                        let cell = #[trigger] cells@[k];
                        &&& cell.index.0 == k / (columns as int)
                        &&& cell.index.1 == k % (columns as int)
                        &&& cell.terrain == (if crate::shape::tile_at(
                            mountains@,
                            k / (columns as int),
                            k % (columns as int),
                        ) {
                            Terrain::Mountain
                        } else {
                            Terrain::Empty
                        })
                    },
            decreases rows - r,
        {
            proof {
                vstd::arithmetic::mul::lemma_mul_inequality(
                    r + 1,
                    rows as int,
                    columns as int,
                );
                assert((r + 1) * columns == r * columns + columns) by (nonlinear_arith);
            }
            let mut c: usize = 0;
            while c < columns
                invariant
                    0 <= c <= columns,
                    r < rows,
                    0 < columns <= MAX_OFFSET,
                    rows * columns <= usize::MAX,
                    (r + 1) * columns <= rows * columns,
                    (r + 1) * columns == r * columns + columns,
                    cells@.len() == r * columns + c,
                    forall|k: int|
                        0 <= k < cells@.len() ==> {
                            let cell = #[trigger] cells@[k];
                            &&& cell.index.0 == k / (columns as int)
                            &&& cell.index.1 == k % (columns as int)
                            &&& cell.terrain == (if crate::shape::tile_at(
                                mountains@,
                                k / (columns as int),
                                k % (columns as int),
                            ) {
                                Terrain::Mountain
                            } else {
                                Terrain::Empty
                            })
                        },
                decreases columns - c,
            {
                let terrain = if contains_tile(mountains, r, c) {
                    Terrain::Mountain
                } else {
                    Terrain::Empty
                };
                proof {
                    vstd::arithmetic::div_mod::lemma_fundamental_div_mod_converse(
                        (r * columns + c) as int,
                        columns as int,
                        r as int,
                        c as int,
                    );
                }
                cells.push(Cell { terrain, index: (r, c) });
                c = c + 1;
            }
            r = r + 1;
        }
        let g = Grid { rows, columns, cells };
        proof {
            assert forall|rr: int, cc: int| g.in_bounds(rr, cc) implies g.terrain_at_spec(rr, cc)
                == (if crate::shape::tile_at(mountains@, rr, cc) {
                Terrain::Mountain
            } else {
                Terrain::Empty
            }) by {
                let k = rr * columns + cc;
                assert(0 <= k < g.cells@.len()) by (nonlinear_arith)
                    requires
                        0 <= rr < rows,
                        0 <= cc < columns,
                        k == rr * columns + cc,
                        g.cells@.len() == rows * columns,
                ;
                vstd::arithmetic::div_mod::lemma_fundamental_div_mod_converse(
                    k,
                    columns as int,
                    rr,
                    cc,
                );
            }
        }
        g
    }

    /// The standard map: an 11-by-11 board with five fixed mountains.
    pub fn standard_map() -> (g: Grid)
        ensures
            g.wf(),
            g.rows == 11,
            g.columns == 11,
            forall|r: int, c: int|
                g.in_bounds(r, c) ==> g.terrain_at_spec(r, c) == (if standard_mountain(r, c) {
                    Terrain::Mountain
                } else {
                    Terrain::Empty
                }),
    {
        let mountains: Vec<(usize, usize)> = vec![(1, 3), (2, 8), (5, 5), (8, 2), (9, 7)];
        let g = Grid::new(11, 11, &mountains);
        proof {
            assert forall|r: int, c: int| #![auto] true implies crate::shape::tile_at(
                mountains@,
                r,
                c,
            ) == standard_mountain(r, c) by {
                if standard_mountain(r, c) {
                    if r == 1 && c == 3 {
                        assert(mountains@[0] == (1usize, 3usize));
                    } else if r == 2 && c == 8 {
                        assert(mountains@[1] == (2usize, 8usize));
                    } else if r == 5 && c == 5 {
                        assert(mountains@[2] == (5usize, 5usize));
                    } else if r == 8 && c == 2 {
                        assert(mountains@[3] == (8usize, 2usize));
                    } else {
                        assert(mountains@[4] == (9usize, 7usize));
                    }
                }
            }
        }
        g
    }

    /// Whether `occupied` is a placeable set: every index on the board and on
    /// an empty cell.  Re-scans the full set every time it is called.
    pub fn check_placement(&self, occupied: &Vec<(isize, isize)>) -> (valid: bool)
        requires
            self.wf(),
        ensures
            valid == self.placement_valid(occupied@),
    {
        let mut k: usize = 0;
        while k < occupied.len()
            invariant
                0 <= k <= occupied@.len(),
                self.wf(),
                forall|j: int|
                    0 <= j < k ==> {
                        let t = #[trigger] occupied@[j];
                        &&& self.in_bounds(t.0 as int, t.1 as int)
                        &&& self.terrain_at_spec(t.0 as int, t.1 as int) == Terrain::Empty
                    },
            decreases occupied@.len() - k,
        {
            let (tr, tc) = occupied[k];
            if tr < 0 || tc < 0 {
                return false;
            }
            let r = tr as usize;
            let c = tc as usize;
            if r >= self.rows || c >= self.columns {
                return false;
            }
            if !matches!(self.terrain_at(r, c), Terrain::Empty) {
                return false;
            }
            k = k + 1;
        }
        true
    }

    /// Set every cell listed in `occupied` to `terrain`, atomically: validity
    /// has just been confirmed, so every write lands on an empty in-bounds
    /// cell, and no other cell changes.
    pub fn commit(&mut self, occupied: &Vec<(isize, isize)>, terrain: Terrain)
        requires
            old(self).wf(),
            old(self).placement_valid(occupied@),
            terrain != Terrain::Empty,
        ensures
            final(self).wf(),
            final(self).rows == old(self).rows,
            final(self).columns == old(self).columns,
            forall|r: int, c: int|
                old(self).in_bounds(r, c) ==> final(self).terrain_at_spec(r, c) == (
                if occupied_contains(occupied@, r, c) {
                    terrain
                } else {
                    old(self).terrain_at_spec(r, c)
                }),
    {
        let ghost g0 = *self;
        let mut k: usize = 0;
        while k < occupied.len()
            invariant
                0 <= k <= occupied@.len(),
                self.wf(),
                self.rows == g0.rows,
                self.columns == g0.columns,
                self.cells@.len() == g0.cells@.len(),
                g0.wf(),
                g0.placement_valid(occupied@),
                forall|r: int, c: int|
                    g0.in_bounds(r, c) ==> self.terrain_at_spec(r, c) == (
                    if occupied_contains(occupied@.take(k as int), r, c) {
                        terrain
                    } else {
                        g0.terrain_at_spec(r, c)
                    }),
            decreases occupied@.len() - k,
        {
            let (tr, tc) = occupied[k];
            let r = tr as usize;
            let c = tc as usize;
            let o = self.offset_of(r, c);
            let idx = self.cells[o].index;
            self.cells.set(o, Cell { terrain, index: idx });
            proof {
                lemma_occupied_contains_take_step(occupied@, k as int);
                assert forall|rr: int, cc: int| g0.in_bounds(rr, cc) implies self.terrain_at_spec(
                    rr,
                    cc,
                ) == (if occupied_contains(occupied@.take(k + 1), rr, cc) {
                    terrain
                } else {
                    g0.terrain_at_spec(rr, cc)
                }) by {
                    let kk = rr * g0.columns + cc;
                    assert(0 <= kk < g0.cells@.len()) by (nonlinear_arith)
                        requires
                            0 <= rr < g0.rows,
                            0 <= cc < g0.columns,
                            kk == rr * g0.columns + cc,
                            g0.cells@.len() == g0.rows * g0.columns,
                    ;
                    vstd::arithmetic::div_mod::lemma_fundamental_div_mod_converse(
                        kk,
                        g0.columns as int,
                        rr,
                        cc,
                    );
                    vstd::arithmetic::div_mod::lemma_fundamental_div_mod_converse(
                        o as int,
                        g0.columns as int,
                        r as int,
                        c as int,
                    );
                }
            }
            k = k + 1;
        }
        proof {
            assert(occupied@.take(occupied@.len() as int) =~= occupied@);
        }
    }
}

/// The five mountain positions of the standard map.
pub open spec fn standard_mountain(r: int, c: int) -> bool {
    ||| (r == 1 && c == 3)
    ||| (r == 2 && c == 8)
    ||| (r == 5 && c == 5)
    ||| (r == 8 && c == 2)
    ||| (r == 9 && c == 7)
}

/// Extending the committed prefix by one index adds exactly that index to
/// what the prefix covers.
proof fn lemma_occupied_contains_take_step(occupied: Seq<(isize, isize)>, p: int)
    requires
        0 <= p < occupied.len(),
    ensures
        forall|r: int, c: int|
            occupied_contains(occupied.take(p + 1), r, c) <==> (occupied_contains(
                occupied.take(p),
                r,
                c,
            ) || (occupied[p].0 == r && occupied[p].1 == c)),
{
    assert forall|r: int, c: int|
        occupied_contains(occupied.take(p + 1), r, c) <==> (occupied_contains(
            occupied.take(p),
            r,
            c,
        ) || (occupied[p].0 == r && occupied[p].1 == c)) by {
        if occupied_contains(occupied.take(p + 1), r, c) {
            let j = choose|j: int|
                0 <= j < occupied.take(p + 1).len() && (#[trigger] occupied.take(p + 1)[j]).0 == r
                    && occupied.take(p + 1)[j].1 == c;
            if j < p {
                assert(occupied.take(p)[j] == occupied.take(p + 1)[j]);
            } else {
                assert(occupied.take(p + 1)[p] == occupied[p]);
            }
        }
        if occupied_contains(occupied.take(p), r, c) {
            let j = choose|j: int|
                0 <= j < occupied.take(p).len() && (#[trigger] occupied.take(p)[j]).0 == r
                    && occupied.take(p)[j].1 == c;
            assert(occupied.take(p + 1)[j] == occupied.take(p)[j]);
        }
        if occupied[p].0 == r && occupied[p].1 == c {
            assert(occupied.take(p + 1)[p] == occupied[p]);
        }
    }
}

/// Law: validity is exact.  A set whose cells all lie on the board on empty
/// cells is valid; as soon as any one cell of the set leaves the board or
/// lands on a non-empty cell, the whole placement is invalid.
pub proof fn lemma_one_bad_cell_invalidates(g: Grid, occupied: Seq<(isize, isize)>, k: int)
    requires
        0 <= k < occupied.len(),
        !(g.in_bounds(occupied[k].0 as int, occupied[k].1 as int) && g.terrain_at_spec(
            occupied[k].0 as int,
            occupied[k].1 as int,
        ) == Terrain::Empty),
    ensures
        !g.placement_valid(occupied),
{
}

/// Law: a commit never reverts a cell to unoccupied.  Whatever set of cells
/// it paints with a real terrain, a cell that is empty afterwards was empty
/// before, so within a session a cell's terrain is set at most once and
/// never cleared.
pub proof fn lemma_commit_never_clears(
    g0: Grid,
    g1: Grid,
    occupied: Seq<(isize, isize)>,
    terrain: Terrain,
)
    requires
        terrain != Terrain::Empty,
        forall|r: int, c: int|
            g0.in_bounds(r, c) ==> g1.terrain_at_spec(r, c) == (if occupied_contains(
                occupied,
                r,
                c,
            ) {
                terrain
            } else {
                g0.terrain_at_spec(r, c)
            }),
    ensures
        forall|r: int, c: int|
            g0.in_bounds(r, c) && g1.terrain_at_spec(r, c) == Terrain::Empty
                ==> g0.terrain_at_spec(r, c) == Terrain::Empty,
{
}

/// Law: a commit is idempotent in its effect on the grid.  If the same
/// occupied set and terrain were (hypothetically) applied twice, the second
/// application would change nothing.
pub proof fn lemma_commit_idempotent(
    g0: Grid,
    g1: Grid,
    g2: Grid,
    occupied: Seq<(isize, isize)>,
    terrain: Terrain,
)
    requires
        g1.rows == g0.rows && g1.columns == g0.columns,
        g2.rows == g1.rows && g2.columns == g1.columns,
        forall|r: int, c: int|
            g0.in_bounds(r, c) ==> g1.terrain_at_spec(r, c) == (if occupied_contains(
                occupied,
                r,
                c,
            ) {
                terrain
            } else {
                g0.terrain_at_spec(r, c)
            }),
        forall|r: int, c: int|
            g1.in_bounds(r, c) ==> g2.terrain_at_spec(r, c) == (if occupied_contains(
                occupied,
                r,
                c,
            ) {
                terrain
            } else {
                g1.terrain_at_spec(r, c)
            }),
    ensures
        forall|r: int, c: int|
            g0.in_bounds(r, c) ==> g2.terrain_at_spec(r, c) == g1.terrain_at_spec(r, c),
{
}

} // verus!
