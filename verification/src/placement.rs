//! The placement engine: the state machine that carries a drawn card's
//! choices through selection, dragging, rotation, hovering, validity and
//! commit.
//!
//! The engine walks `Idle -> Offering -> Dragging -> Idle`; a commit or a
//! cancel returns it to `Idle`, and offering a new card's choices implicitly
//! cancels whatever was being dragged.  While dragging, hovering a cell
//! projects the shape onto the grid: every tile offset is taken relative to
//! a reference tile chosen from the unrotated bounding box, rotated, and
//! added to the hovered cell's index with the row direction inverted.

use vstd::pervasive::unreached;
use vstd::prelude::*;

use crate::grid::{occupied_contains, Grid};
use crate::rotation::{rotate_offset_spec, Rotation};
use crate::shape::{max_row, max_row_spec, tiles_bounded, MAX_OFFSET};
use crate::terrain::Choice;

verus! {

/// The reference tile of a shape, computed from the unrotated bounding box:
/// `floor((height_in_tiles - 1) / 2)` rows from the top, column 0.  The
/// visual anchor stays on this tile across rotations.
pub open spec fn reference_tile_spec(tiles: Seq<(usize, usize)>) -> (int, int) {
    (max_row_spec(tiles) / 2, 0)
}

/// The absolute grid cell covered by one tile of the dragged shape: the tile
/// offset relative to the reference tile, rotated, then added to the anchor
/// cell with the row direction inverted (local rows grow upward, grid rows
/// grow downward).
pub open spec fn occupied_cell_spec(
    tile: (int, int),
    reference: (int, int),
    rot: Rotation,
    anchor: (int, int),
) -> (int, int) {
    let shifted = (tile.0 - reference.0, tile.1 - reference.1);
    let rotated = rotate_offset_spec(shifted, rot);
    (anchor.0 - rotated.0, anchor.1 + rotated.1)
}

/// Every absolute cell the dragged shape would cover, one per tile offset,
/// in tile order.
pub open spec fn occupied_cells_spec(
    tiles: Seq<(usize, usize)>,
    rot: Rotation,
    anchor: (int, int),
) -> Seq<(int, int)> {
    Seq::new(
        tiles.len(),
        |k: int|
            occupied_cell_spec(
                (tiles[k].0 as int, tiles[k].1 as int),
                reference_tile_spec(tiles),
                rot,
                anchor,
            ),
    )
}

/// The executable occupied list carries exactly the modelled cells.
pub open spec fn occupied_matches(occ: Seq<(isize, isize)>, model: Seq<(int, int)>) -> bool {
    &&& occ.len() == model.len()
    &&& forall|k: int|
        0 <= k < occ.len() ==> ((#[trigger] occ[k]).0 == model[k].0 && occ[k].1 == model[k].1)
}

/// Law: a single-tile shape at rotation 0 occupies exactly the hovered cell,
/// wherever the grid is hovered.
pub proof fn lemma_single_tile_occupies_anchor(anchor: (int, int))
    ensures
        occupied_cells_spec(seq![(0usize, 0usize)], Rotation::R0, anchor).len() == 1,
        occupied_cells_spec(seq![(0usize, 0usize)], Rotation::R0, anchor)[0] == anchor,
{
    let tiles: Seq<(usize, usize)> = seq![(0usize, 0usize)];
    assert(tiles.drop_last() =~= Seq::<(usize, usize)>::empty());
    assert(max_row_spec(tiles.drop_last()) == 0);
    assert(max_row_spec(tiles) == 0);
    assert(occupied_cells_spec(tiles, Rotation::R0, anchor)[0] == (anchor.0, anchor.1));
}

/// Compute the absolute cells the dragged shape covers when anchored at
/// `anchor` under rotation `rot`.
pub fn occupied_cells(tiles: &Vec<(usize, usize)>, rot: &Rotation, anchor: (usize, usize)) -> (occ:
    Vec<(isize, isize)>)
    requires
        tiles@.len() > 0,
        tiles_bounded(tiles@),
        anchor.0 <= MAX_OFFSET,
        anchor.1 <= MAX_OFFSET,
    ensures
        occupied_matches(occ@, occupied_cells_spec(tiles@, *rot, (anchor.0 as int, anchor.1 as int))),
{
    let mr = max_row(tiles);
    proof {
        crate::shape::lemma_max_row_bounds(tiles@);
        assert(mr <= MAX_OFFSET) by {
            let k = choose|k: int|
                0 <= k < tiles@.len() && tiles@[k].0 == max_row_spec(tiles@);
            assert(tiles@[k].0 <= MAX_OFFSET);
        };
    }
    let reference_row = mr / 2;
    let anchor_row = anchor.0 as isize;
    let anchor_col = anchor.1 as isize;
    let mut occ: Vec<(isize, isize)> = Vec::new();
    let mut k: usize = 0;
    while k < tiles.len()
        invariant
            0 <= k <= tiles@.len(),
            occ@.len() == k,
            tiles_bounded(tiles@),
            reference_row == reference_tile_spec(tiles@).0,
            reference_row <= MAX_OFFSET,
            anchor_row == anchor.0 <= MAX_OFFSET,
            anchor_col == anchor.1 <= MAX_OFFSET,
            forall|j: int|
                0 <= j < k ==> ((#[trigger] occ@[j]).0 == occupied_cells_spec(
                    tiles@,
                    *rot,
                    (anchor.0 as int, anchor.1 as int),
                )[j].0 && occ@[j].1 == occupied_cells_spec(
                    tiles@,
                    *rot,
                    (anchor.0 as int, anchor.1 as int),
                )[j].1),
        decreases tiles@.len() - k,
    {
        let (tile_row, tile_col) = tiles[k];
        proof {
            assert(tiles@[k as int].0 <= MAX_OFFSET && tiles@[k as int].1 <= MAX_OFFSET);
        }
        let shifted_row = tile_row as isize - reference_row as isize;
        let shifted_col = tile_col as isize;
        let (rotated_row, rotated_col): (isize, isize) = match rot {
            Rotation::R0 => (shifted_row, shifted_col),
            Rotation::R90 => (shifted_col, -shifted_row),
            Rotation::R180 => (-shifted_row, -shifted_col),
            Rotation::R270 => (-shifted_col, shifted_row),
        };
        occ.push((anchor_row - rotated_row, anchor_col + rotated_col));
        k = k + 1;
    }
    occ
}

/// The transient entity the player is manipulating: the chosen placement
/// option, its rotation, the last hovered cell, the absolute cells the shape
/// would cover there, and whether placing is currently allowed.
#[derive(Clone, Debug)]
pub struct PlacementCandidate {
    pub choice: Choice,
    pub rotation: Rotation,
    pub valid_to_place: bool,
    pub occupied_tiles: Option<Vec<(isize, isize)>>,
    pub latest_hovered_cell: Option<(usize, usize)>,
}

impl PlacementCandidate {
    /// The choice is usable and, whenever occupied cells are recorded, they
    /// were computed from the current rotation at the recorded anchor.
    pub open spec fn wf(self) -> bool {
        &&& self.choice.wf()
        &&& match self.occupied_tiles {
            Some(occ) => match self.latest_hovered_cell {
                Some(anchor) => {
                    &&& anchor.0 <= MAX_OFFSET
                    &&& anchor.1 <= MAX_OFFSET
                    &&& occupied_matches(
                        occ@,
                        occupied_cells_spec(
                            self.choice.tiles@,
                            self.rotation,
                            (anchor.0 as int, anchor.1 as int),
                        ),
                    )
                },
                None => false,
            },
            None => true,
        }
    }
}

/// Where the placement engine stands: waiting for a card, offering a drawn
/// card's choices, or dragging a candidate over the grid.
#[derive(Clone, Debug)]
pub enum EngineState {
    Idle,
    Offering(Vec<Choice>),
    Dragging(PlacementCandidate),
}

impl EngineState {
    /// No card is being placed.
    pub open spec fn is_idle(self) -> bool {
        match self {
            EngineState::Idle => true,
            _ => false,
        }
    }

    /// A drawn card's choices await selection.
    pub open spec fn is_offering(self) -> bool {
        match self {
            EngineState::Offering(_) => true,
            _ => false,
        }
    }

    /// The choices on offer (empty unless offering).
    pub open spec fn offered(self) -> Seq<Choice> {
        match self {
            EngineState::Offering(cs) => cs@,
            _ => Seq::empty(),
        }
    }

    /// A candidate is being dragged.
    pub open spec fn is_dragging(self) -> bool {
        match self {
            EngineState::Dragging(_) => true,
            _ => false,
        }
    }

    /// The dragged candidate (meaningful only while dragging).
    pub open spec fn candidate(self) -> PlacementCandidate {
        match self {
            EngineState::Dragging(c) => c,
            _ => arbitrary(),
        }
    }

    /// Offered choices are usable and never empty; a dragged candidate is
    /// well formed.
    pub open spec fn wf(self) -> bool {
        match self {
            EngineState::Idle => true,
            EngineState::Offering(cs) => cs@.len() > 0 && forall|k: int|
                0 <= k < cs@.len() ==> (#[trigger] cs@[k]).wf(),
            EngineState::Dragging(c) => c.wf(),
        }
    }
}

/// `s` holds a dragged candidate whose recorded occupied cells are all on
/// the board and empty in `g`: exactly the situation in which a confirm is
/// owed a commit.
pub open spec fn ready_to_commit(s: EngineState, g: Grid) -> bool {
    &&& s.is_dragging()
    &&& s.candidate().valid_to_place
    &&& match s.candidate().occupied_tiles {
        Some(occ) => g.placement_valid(occ@),
        None => false,
    }
}

/// `g1` is `g0` with the dragged candidate's occupied cells set to its
/// choice's terrain and nothing else changed.
pub open spec fn commit_applied(s: EngineState, g0: Grid, g1: Grid) -> bool {
    match s.candidate().occupied_tiles {
        Some(occ) => forall|r: int, c: int|
            g0.in_bounds(r, c) ==> g1.terrain_at_spec(r, c) == (if occupied_contains(occ@, r, c) {
                s.candidate().choice.terrain
            } else {
                g0.terrain_at_spec(r, c)
            }),
        None => false,
    }
}

/// The engine owning the placement state machine.
#[derive(Clone, Debug)]
pub struct PlacementEngine {
    pub state: EngineState,
}

impl PlacementEngine {
    /// A fresh engine, idle.
    pub fn new() -> (e: PlacementEngine)
        ensures
            e.state.is_idle(),
            e.state.wf(),
    {
        PlacementEngine { state: EngineState::Idle }
    }

    /// Take the choices of a freshly drawn card.  A card with no placeable
    /// shape makes no offer and the engine stays idle; either way, any
    /// previous offer or candidate is discarded.
    pub fn offer(&mut self, choices: Vec<Choice>)
        requires
            forall|k: int| 0 <= k < choices@.len() ==> (#[trigger] choices@[k]).wf(),
        ensures
            final(self).state.wf(),
            choices@.len() == 0 ==> final(self).state.is_idle(),
            choices@.len() > 0 ==> final(self).state.is_offering() && final(self).state.offered()
                == choices@,
    {
        if choices.len() == 0 {
            self.state = EngineState::Idle;
        } else {
            self.state = EngineState::Offering(choices);
        }
    }

    /// Pick one of the offered choices: the engine starts dragging a fresh
    /// candidate at rotation 0 with no anchor and no occupied cells, invalid
    /// until a cell is hovered.  Out of range or outside an offer, nothing
    /// happens.
    pub fn select_choice(&mut self, index: usize)
        requires
            old(self).state.wf(),
        ensures
            final(self).state.wf(),
            (old(self).state.is_offering() && index < old(self).state.offered().len()) ==> {
                &&& final(self).state.is_dragging()
                &&& final(self).state.candidate().choice == old(self).state.offered()[index as int]
                &&& final(self).state.candidate().rotation == Rotation::R0
                &&& final(self).state.candidate().valid_to_place == false
                &&& final(self).state.candidate().occupied_tiles is None
                &&& final(self).state.candidate().latest_hovered_cell is None
            },
            !(old(self).state.is_offering() && index < old(self).state.offered().len())
                ==> *final(self) == *old(self),
    {
        let selectable = match &self.state {
            EngineState::Offering(cs) => index < cs.len(),
            _ => false,
        };
        if selectable {
            let choice = match &mut self.state {
                EngineState::Offering(cs) => cs.swap_remove(index),
                _ => unreached(),
            };
            self.state = EngineState::Dragging(
                PlacementCandidate {
                    choice,
                    rotation: Rotation::R0,
                    valid_to_place: false,
                    occupied_tiles: None,
                    latest_hovered_cell: None,
                },
            );
        }
    }

    /// Turn the dragged shape one quarter in the given direction (1 or -1):
    /// the new angle is `(current + 90 * direction + 360) mod 360`.  The
    /// occupied cells become stale and are dropped until the next hover;
    /// the last hovered cell is remembered so the caller can re-hover it.
    pub fn rotate_selected_choice(&mut self, direction: i32)
        requires
            old(self).state.wf(),
            direction == 1 || direction == -1,
        ensures
            final(self).state.wf(),
            old(self).state.is_dragging() ==> {
                let c0 = old(self).state.candidate();
                let c1 = final(self).state.candidate();
                &&& final(self).state.is_dragging()
                &&& c1.choice == c0.choice
                &&& c1.rotation.degrees_spec() == (c0.rotation.degrees_spec() + 90 * direction
                    + 360) % 360
                &&& c1.valid_to_place == false
                &&& c1.occupied_tiles is None
                &&& c1.latest_hovered_cell == c0.latest_hovered_cell
            },
            !old(self).state.is_dragging() ==> *final(self) == *old(self),
    {
        match &mut self.state {
            EngineState::Dragging(c) => {
                c.rotation = c.rotation.rotate(direction);
                c.occupied_tiles = None;
                c.valid_to_place = false;
            },
            _ => {},
        }
    }

    /// Hover a grid cell: snap the dragged shape to it, recompute the cells
    /// it would cover there under the current rotation, and re-scan the full
    /// set against the grid for validity.
    pub fn snap_selected_choice_to_cell(&mut self, grid: &Grid, cell: (usize, usize))
        requires
            old(self).state.wf(),
            grid.wf(),
            cell.0 < grid.rows,
            cell.1 < grid.columns,
        ensures
            final(self).state.wf(),
            old(self).state.is_dragging() ==> {
                let c0 = old(self).state.candidate();
                let c1 = final(self).state.candidate();
                &&& final(self).state.is_dragging()
                &&& c1.choice == c0.choice
                &&& c1.rotation == c0.rotation
                &&& c1.latest_hovered_cell == Some(cell)
                &&& match c1.occupied_tiles {
                    Some(occ) => {
                        &&& occupied_matches(
                            occ@,
                            occupied_cells_spec(
                                c0.choice.tiles@,
                                c0.rotation,
                                (cell.0 as int, cell.1 as int),
                            ),
                        )
                        &&& c1.valid_to_place == grid.placement_valid(occ@)
                    },
                    None => false,
                }
            },
            !old(self).state.is_dragging() ==> *final(self) == *old(self),
    {
        match &mut self.state {
            EngineState::Dragging(c) => {
                let occ = occupied_cells(&c.choice.tiles, &c.rotation, cell);
                let valid = grid.check_placement(&occ);
                c.latest_hovered_cell = Some(cell);
                c.occupied_tiles = Some(occ);
                c.valid_to_place = valid;
            },
            _ => {},
        }
    }

    /// The pointer left the grid: the candidate tracks the raw pointer, so
    /// it loses its anchor and occupied cells and cannot be placed.
    pub fn position_selected_choice(&mut self)
        requires
            old(self).state.wf(),
        ensures
            final(self).state.wf(),
            old(self).state.is_dragging() ==> {
                let c0 = old(self).state.candidate();
                let c1 = final(self).state.candidate();
                &&& final(self).state.is_dragging()
                &&& c1.choice == c0.choice
                &&& c1.rotation == c0.rotation
                &&& c1.valid_to_place == false
                &&& c1.occupied_tiles is None
                &&& c1.latest_hovered_cell is None
            },
            !old(self).state.is_dragging() ==> *final(self) == *old(self),
    {
        match &mut self.state {
            EngineState::Dragging(c) => {
                c.latest_hovered_cell = None;
                c.occupied_tiles = None;
                c.valid_to_place = false;
            },
            _ => {},
        }
    }

    /// Confirm the placement.  The commit happens exactly when a candidate
    /// is being dragged, is marked valid, and its occupied cells re-check as
    /// placeable on this grid in the same tick; then every occupied cell
    /// takes the choice's terrain, nothing else changes, and the engine goes
    /// idle.  Without an anchor (pointer outside the grid), or when the
    /// placement is not valid, nothing happens at all.
    pub fn confirm(&mut self, grid: &mut Grid) -> (committed: bool)
        requires
            old(self).state.wf(),
            old(grid).wf(),
        ensures
            final(self).state.wf(),
            final(grid).wf(),
            final(grid).rows == old(grid).rows,
            final(grid).columns == old(grid).columns,
            committed == ready_to_commit(old(self).state, *old(grid)),
            committed ==> final(self).state.is_idle() && commit_applied(
                old(self).state,
                *old(grid),
                *final(grid),
            ),
            !committed ==> *final(self) == *old(self) && *final(grid) == *old(grid),
    {
        let do_commit = match &self.state {
            EngineState::Dragging(c) => {
                if c.valid_to_place {
                    match &c.occupied_tiles {
                        Some(occ) => grid.check_placement(occ),
                        None => false,
                    }
                } else {
                    false
                }
            },
            _ => false,
        };
        if do_commit {
            match &self.state {
                EngineState::Dragging(c) => {
                    match &c.occupied_tiles {
                        Some(occ) => {
                            grid.commit(occ, c.choice.terrain);
                        },
                        None => {},
                    }
                },
                _ => {},
            }
            self.state = EngineState::Idle;
        }
        do_commit
    }

    /// Drop the dragged candidate without touching the grid.
    pub fn cancel(&mut self)
        ensures
            final(self).state.is_idle(),
            final(self).state.wf(),
    {
        self.state = EngineState::Idle;
    }
}

} // verus!
