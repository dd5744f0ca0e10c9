//! The terrain catalog: the kinds of ground a grid cell can hold, the path
//! of each kind's base tile image, and the placement choice a card offers.

use vstd::prelude::*;

use crate::image::Image;
use crate::shape::{max_col, max_col_spec, max_row, max_row_spec, tiles_bounded, tiles_distinct};

verus! {

/// A category of ground that can occupy a grid cell.  `Empty` denotes an
/// unoccupied cell.
#[derive(Clone, Copy, Debug, PartialEq, Eq, Structural)]
pub enum Terrain {
    Empty,
    Forest,
    Village,
    Farm,
    Water,
    Monster,
    Mountain,
}

impl Default for Terrain {
    /// A cell starts unoccupied.
    fn default() -> (t: Terrain)
        ensures
            t == Terrain::Empty,
    {
        Terrain::Empty
    }
}

impl Terrain {
    /// The number of terrain kinds, `Empty` included.
    pub open spec fn count_spec() -> int {
        7
    }

    /// A stable position of each kind inside the catalog, used to index
    /// tables of per-terrain data.
    pub open spec fn index_spec(self) -> int {
        match self {
            Terrain::Empty => 0,
            Terrain::Forest => 1,
            Terrain::Village => 2,
            Terrain::Farm => 3,
            Terrain::Water => 4,
            Terrain::Monster => 5,
            Terrain::Mountain => 6,
        }
    }

    /// Position of this kind inside the catalog.
    pub fn index(&self) -> (i: usize)
        ensures
            i == self.index_spec(),
            0 <= i < Terrain::count_spec(),
    {
        match self {
            Terrain::Empty => 0,
            Terrain::Forest => 1,
            Terrain::Village => 2,
            Terrain::Farm => 3,
            Terrain::Water => 4,
            Terrain::Monster => 5,
            Terrain::Mountain => 6,
        }
    }

    /// Every terrain kind once, in catalog order.
    pub fn all() -> (ts: Vec<Terrain>)
        ensures
            ts@.len() == Terrain::count_spec(),
            forall|k: int| 0 <= k < ts@.len() ==> (#[trigger] ts@[k]).index_spec() == k,
    {
        let ts: Vec<Terrain> = vec![
            Terrain::Empty,
            Terrain::Forest,
            Terrain::Village,
            Terrain::Farm,
            Terrain::Water,
            Terrain::Monster,
            Terrain::Mountain,
        ];
        assert(forall|k: int| 0 <= k < ts@.len() ==> (#[trigger] ts@[k]).index_spec() == k);
        ts
    }

    /// Where this kind's base tile image lives.
    pub open spec fn file_path_spec(self) -> Seq<char> {
        match self {
            Terrain::Empty => "textures/terrain/none.png"@,
            Terrain::Forest => "textures/terrain/forest.png"@,
            Terrain::Village => "textures/terrain/village.png"@,
            Terrain::Farm => "textures/terrain/farm.png"@,
            Terrain::Water => "textures/terrain/water.png"@,
            Terrain::Monster => "textures/terrain/monster.png"@,
            Terrain::Mountain => "textures/terrain/mountain.png"@,
        }
    }

    /// The path of this kind's base tile image.
    pub fn get_file_path(&self) -> (path: &'static str)
        ensures
            path@ == self.file_path_spec(),
    {
        match self {
            Terrain::Empty => "textures/terrain/none.png",
            Terrain::Forest => "textures/terrain/forest.png",
            Terrain::Village => "textures/terrain/village.png",
            Terrain::Farm => "textures/terrain/farm.png",
            Terrain::Water => "textures/terrain/water.png",
            Terrain::Monster => "textures/terrain/monster.png",
            Terrain::Mountain => "textures/terrain/mountain.png",
        }
    }
}

/// One placement option a card offers: a terrain to stamp, the tile offsets
/// of the shape, the composite picture of the assembled shape, and whether
/// placing it grants a bonus coin.
#[derive(Clone, Debug)]
pub struct Choice {
    pub terrain: Terrain,
    pub image: Image,
    pub tiles: Vec<(usize, usize)>,
    pub with_coin: bool,
}

impl Choice {
    /// A usable choice: a real terrain to stamp, a non-empty set of unique,
    /// bounded tile offsets, and a well-formed picture.
    pub open spec fn wf(self) -> bool {
        &&& self.terrain != Terrain::Empty
        &&& self.tiles@.len() > 0
        &&& tiles_bounded(self.tiles@)
        &&& tiles_distinct(self.tiles@)
        &&& self.image.wf()
    }

    /// On-screen size of the choice for cells of `cell_size` units
    /// (width, height): the shape's bounding box in tiles, scaled cell-wise.
    pub fn size(&self, cell_size: (usize, usize)) -> (s: (usize, usize))
        requires
            self.tiles@.len() > 0,
            tiles_bounded(self.tiles@),
            (max_col_spec(self.tiles@) + 1) * cell_size.0 <= usize::MAX,
            (max_row_spec(self.tiles@) + 1) * cell_size.1 <= usize::MAX,
        ensures
            s.0 == (max_col_spec(self.tiles@) + 1) * cell_size.0,
            s.1 == (max_row_spec(self.tiles@) + 1) * cell_size.1,
    {
        let max_row_offset = max_row(&self.tiles);
        let max_col_offset = max_col(&self.tiles);
        proof {
            crate::shape::lemma_max_row_bounds(self.tiles@);
            crate::shape::lemma_max_col_bounds(self.tiles@);
            assert(max_row_offset <= crate::shape::MAX_OFFSET) by {
                let k = choose|k: int|
                    0 <= k < self.tiles@.len() && self.tiles@[k].0 == max_row_spec(self.tiles@);
                assert(self.tiles@[k].0 <= crate::shape::MAX_OFFSET);
            };
            assert(max_col_offset <= crate::shape::MAX_OFFSET) by {
                let k = choose|k: int|
                    0 <= k < self.tiles@.len() && self.tiles@[k].1 == max_col_spec(self.tiles@);
                assert(self.tiles@[k].1 <= crate::shape::MAX_OFFSET);
            };
        }
        ((max_col_offset + 1) * cell_size.0, (max_row_offset + 1) * cell_size.1)
    }
}

} // verus!
