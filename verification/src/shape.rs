//! Tile-offset sets: the geometry shared by shapes, the composite-texture
//! generator and the placement engine.
//!
//! A shape is a non-empty list of `(row, column)` tile offsets, both
//! non-negative in the canonical (unrotated) definition.  This module gives
//! the bounding-box maxima of such a list and membership tests, in spec and
//! in executable form.

use vstd::prelude::*;

verus! {

/// Largest row or column offset a tile may carry, and largest grid dimension.
/// Small enough that all placement arithmetic stays far inside `isize`.
pub const MAX_OFFSET: usize = 0x1000_0000;

/// Largest row offset among `tiles` (0 for an empty list).
pub open spec fn max_row_spec(tiles: Seq<(usize, usize)>) -> int
    decreases tiles.len(),
{
    if tiles.len() == 0 {
        0
    } else {
        let rest = max_row_spec(tiles.drop_last());
        if tiles.last().0 > rest {
            tiles.last().0 as int
        } else {
            rest
        }
    }
}

/// Largest column offset among `tiles` (0 for an empty list).
pub open spec fn max_col_spec(tiles: Seq<(usize, usize)>) -> int
    decreases tiles.len(),
{
    if tiles.len() == 0 {
        0
    } else {
        let rest = max_col_spec(tiles.drop_last());
        if tiles.last().1 > rest {
            tiles.last().1 as int
        } else {
            rest
        }
    }
}

/// The offset `(r, c)` occurs in `tiles`.
pub open spec fn tile_at(tiles: Seq<(usize, usize)>, r: int, c: int) -> bool {
    exists|k: int| 0 <= k < tiles.len() && tiles[k].0 == r && tiles[k].1 == c
}

/// No offset occurs twice in `tiles`.
pub open spec fn tiles_distinct(tiles: Seq<(usize, usize)>) -> bool {
    forall|k: int, l: int| 0 <= k < l < tiles.len() ==> tiles[k] != tiles[l]
}

/// Every offset of `tiles` is bounded by `MAX_OFFSET` in both coordinates.
pub open spec fn tiles_bounded(tiles: Seq<(usize, usize)>) -> bool {
    forall|k: int|
        0 <= k < tiles.len() ==> ((#[trigger] tiles[k]).0 <= MAX_OFFSET && tiles[k].1
            <= MAX_OFFSET)
}

/// `max_row_spec` is an upper bound on every row offset, and is attained
/// when the list is non-empty.
pub proof fn lemma_max_row_bounds(tiles: Seq<(usize, usize)>)
    ensures
        forall|k: int| 0 <= k < tiles.len() ==> #[trigger] tiles[k].0 <= max_row_spec(tiles),
        tiles.len() > 0 ==> tile_row_attained(tiles, max_row_spec(tiles)),
    decreases tiles.len(),
{
    if tiles.len() > 0 {
        lemma_max_row_bounds(tiles.drop_last());
        assert forall|k: int| 0 <= k < tiles.len() implies #[trigger] tiles[k].0 <= max_row_spec(
            tiles,
        ) by {
            if k < tiles.len() - 1 {
                assert(tiles.drop_last()[k] == tiles[k]);
            }
        }
        if tiles.len() > 1 && tiles.last().0 <= max_row_spec(tiles.drop_last()) {
            let j = choose|j: int|
                0 <= j < tiles.drop_last().len() && tiles.drop_last()[j].0 == max_row_spec(
                    tiles.drop_last(),
                );
            assert(tiles[j].0 == max_row_spec(tiles));
        }
    }
}

/// Some tile of `tiles` has row offset `r`.
pub open spec fn tile_row_attained(tiles: Seq<(usize, usize)>, r: int) -> bool {
    exists|k: int| 0 <= k < tiles.len() && tiles[k].0 == r
}

/// Some tile of `tiles` has column offset `c`.
pub open spec fn tile_col_attained(tiles: Seq<(usize, usize)>, c: int) -> bool {
    exists|k: int| 0 <= k < tiles.len() && tiles[k].1 == c
}

/// `max_col_spec` is an upper bound on every column offset, and is attained
/// when the list is non-empty.
pub proof fn lemma_max_col_bounds(tiles: Seq<(usize, usize)>)
    ensures
        forall|k: int| 0 <= k < tiles.len() ==> #[trigger] tiles[k].1 <= max_col_spec(tiles),
        tiles.len() > 0 ==> tile_col_attained(tiles, max_col_spec(tiles)),
    decreases tiles.len(),
{
    if tiles.len() > 0 {
        lemma_max_col_bounds(tiles.drop_last());
        assert forall|k: int| 0 <= k < tiles.len() implies #[trigger] tiles[k].1 <= max_col_spec(
            tiles,
        ) by {
            if k < tiles.len() - 1 {
                assert(tiles.drop_last()[k] == tiles[k]);
            }
        }
        if tiles.len() > 1 && tiles.last().1 <= max_col_spec(tiles.drop_last()) {
            let j = choose|j: int|
                0 <= j < tiles.drop_last().len() && tiles.drop_last()[j].1 == max_col_spec(
                    tiles.drop_last(),
                );
            assert(tiles[j].1 == max_col_spec(tiles));
        }
    }
}

/// A pointwise bound on the offsets bounds both bounding-box maxima.
pub proof fn lemma_max_bounds_from_tiles(tiles: Seq<(usize, usize)>, b: int)
    requires
        0 <= b,
        forall|k: int| 0 <= k < tiles.len() ==> ((#[trigger] tiles[k]).0 <= b && tiles[k].1 <= b),
    ensures
        max_row_spec(tiles) <= b,
        max_col_spec(tiles) <= b,
    decreases tiles.len(),
{
    if tiles.len() > 0 {
        assert forall|k: int| 0 <= k < tiles.drop_last().len() implies ((#[trigger] tiles.drop_last()[k]).0
            <= b && tiles.drop_last()[k].1 <= b) by {
            assert(tiles.drop_last()[k] == tiles[k]);
        }
        lemma_max_bounds_from_tiles(tiles.drop_last(), b);
    }
}

/// Largest row offset of a non-empty tile list.
pub fn max_row(tiles: &Vec<(usize, usize)>) -> (r: usize)
    requires
        tiles@.len() > 0,
    ensures
        r == max_row_spec(tiles@),
{
    let mut r: usize = 0;
    let mut k: usize = 0;
    while k < tiles.len()
        invariant
            0 <= k <= tiles@.len(),
            r == max_row_spec(tiles@.take(k as int)),
        decreases tiles@.len() - k,
    {
        assert(tiles@.take(k + 1).drop_last() =~= tiles@.take(k as int));
        assert(tiles@.take(k + 1).last() == tiles@[k as int]);
        if tiles[k].0 > r {
            r = tiles[k].0;
        }
        k = k + 1;
    }
    assert(tiles@.take(tiles@.len() as int) =~= tiles@);
    r
}

/// Largest column offset of a non-empty tile list.
pub fn max_col(tiles: &Vec<(usize, usize)>) -> (c: usize)
    requires
        tiles@.len() > 0,
    ensures
        c == max_col_spec(tiles@),
{
    let mut c: usize = 0;
    let mut k: usize = 0;
    while k < tiles.len()
        invariant
            0 <= k <= tiles@.len(),
            c == max_col_spec(tiles@.take(k as int)),
        decreases tiles@.len() - k,
    {
        assert(tiles@.take(k + 1).drop_last() =~= tiles@.take(k as int));
        assert(tiles@.take(k + 1).last() == tiles@[k as int]);
        if tiles[k].1 > c {
            c = tiles[k].1;
        }
        k = k + 1;
    }
    assert(tiles@.take(tiles@.len() as int) =~= tiles@);
    c
}

/// Whether the offset `(r, c)` occurs in `tiles`.
pub fn contains_tile(tiles: &Vec<(usize, usize)>, r: usize, c: usize) -> (found: bool)
    ensures
        found == tile_at(tiles@, r as int, c as int),
{
    let mut k: usize = 0;
    while k < tiles.len()
        invariant
            0 <= k <= tiles@.len(),
            forall|j: int| 0 <= j < k ==> !(#[trigger] tiles@[j].0 == r && tiles@[j].1 == c),
        decreases tiles@.len() - k,
    {
        if tiles[k].0 == r && tiles[k].1 == c {
            return true;
        }
        k = k + 1;
    }
    false
}

} // verus!
