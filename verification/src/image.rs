//! The composite texture generator.
//!
//! A shape is drawn by stamping one base tile image once per tile offset into
//! a larger buffer.  The vertical placement is inverted: a tile at local row
//! `r` lands in output row-band `max_row - r`, so row 0 of the shape renders
//! nearest the bottom of the picture.  Every byte of the output is pinned
//! down: bands covered by a tile copy the base tile scanline for scanline,
//! and everything else stays fully transparent (all bytes zero).

use vstd::arithmetic::div_mod::lemma_fundamental_div_mod_converse;
use vstd::arithmetic::mul::lemma_mul_inequality;
use vstd::prelude::*;

use crate::shape::{contains_tile, max_col, max_col_spec, max_row, max_row_spec, tile_at};

verus! {

/// A flat pixel buffer: `height` rows of `width` pixels, each pixel
/// `pixel_size` bytes, rows stored top to bottom.  `format` identifies the
/// pixel encoding; blitting never converts, so formats must match exactly.
#[derive(Clone, Debug)]
pub struct Image {
    pub width: usize,
    pub height: usize,
    pub pixel_size: usize,
    pub format: u32,
    pub data: Vec<u8>,
}

impl Image {
    /// The buffer holds exactly its advertised pixels, and no dimension is
    /// degenerate.
    pub open spec fn wf(self) -> bool {
        &&& self.data@.len() == self.width * self.height * self.pixel_size
        &&& 0 < self.width
        &&& 0 < self.height
        &&& 0 < self.pixel_size
    }

    /// Bytes per scanline.
    pub open spec fn row_bytes(self) -> int {
        self.width * self.pixel_size
    }
}

/// Why the generator refused its input.
#[derive(Clone, Copy, Debug, PartialEq, Eq, Structural)]
pub enum GenerateError {
    /// The tile set was empty, so the output bounding box is undefined.
    EmptyTileSet,
    /// The base tile's pixel format differs from the expected one.
    FormatMismatch,
}

/// The byte at flat offset `i` of the composite of `tiles` over `base`:
/// the matching base tile byte where a tile band covers `i`, 0 elsewhere.
pub open spec fn composite_byte(tiles: Seq<(usize, usize)>, base: Image, i: int) -> u8 {
    let out_row_bytes = (max_col_spec(tiles) + 1) * base.row_bytes();
    let row = i / out_row_bytes;
    let colb = i % out_row_bytes;
    let band_r = row / (base.height as int);
    let sub_r = row % (base.height as int);
    let band_c = colb / base.row_bytes();
    let sub_cb = colb % base.row_bytes();
    if tile_at(tiles, max_row_spec(tiles) - band_r, band_c) {
        base.data@[sub_r * base.row_bytes() + sub_cb]
    } else {
        0u8
    }
}

/// `out` is the composite of `tiles` over `base`: its dimensions are the
/// shape's bounding box in tile units scaled by the base tile, its format is
/// the base's, and every byte equals `composite_byte`.
pub open spec fn is_composite_of(out: Image, tiles: Seq<(usize, usize)>, base: Image) -> bool {
    &&& out.width == (max_col_spec(tiles) + 1) * base.width
    &&& out.height == (max_row_spec(tiles) + 1) * base.height
    &&& out.pixel_size == base.pixel_size
    &&& out.format == base.format
    &&& out.data@.len() == out.width * out.height * out.pixel_size
    &&& forall|i: int|
        0 <= i < out.data@.len() ==> out.data@[i] == composite_byte(tiles, base, i)
}

/// Room the composite needs, in bytes; the generator requires it to fit in
/// `usize`.
pub open spec fn composite_size(tiles: Seq<(usize, usize)>, base: Image) -> int {
    ((max_row_spec(tiles) + 1) * base.height) * ((max_col_spec(tiles) + 1) * base.row_bytes())
}

/// Law: in a composite picture, the band at `(band_r, band_c)` holds the base
/// tile verbatim, scanline for scanline, when the tile `(max_row - band_r,
/// band_c)` is part of the shape; every byte of a band no tile covers is 0,
/// so pixels outside every tile band are fully transparent.
pub proof fn lemma_composite_band_byte(
    out: Image,
    tiles: Seq<(usize, usize)>,
    base: Image,
    band_r: int,
    band_c: int,
    sub_r: int,
    sub_cb: int,
)
    requires
        base.wf(),
        is_composite_of(out, tiles, base),
        0 <= band_r <= max_row_spec(tiles),
        0 <= band_c <= max_col_spec(tiles),
        0 <= sub_r < base.height,
        0 <= sub_cb < base.row_bytes(),
    ensures
        out.data@[(band_r * base.height + sub_r) * ((max_col_spec(tiles) + 1) * base.row_bytes())
            + band_c * base.row_bytes() + sub_cb] == if tile_at(
            tiles,
            max_row_spec(tiles) - band_r,
            band_c,
        ) {
            base.data@[sub_r * base.row_bytes() + sub_cb]
        } else {
            0u8
        },
{
    let mr = max_row_spec(tiles);
    let mc = max_col_spec(tiles);
    let h = base.height as int;
    let rb = base.row_bytes();
    let orb = (mc + 1) * rb;
    let row = band_r * h + sub_r;
    let colb = band_c * rb + sub_cb;
    let i = row * orb + colb;
    assert(0 <= colb < orb && 0 <= row < (mr + 1) * h && 0 < orb) by (nonlinear_arith)
        requires
            0 <= band_c <= mc,
            0 <= sub_cb < rb,
            0 <= band_r <= mr,
            0 <= sub_r < h,
            0 < rb,
            0 < h,
            colb == band_c * rb + sub_cb,
            row == band_r * h + sub_r,
            orb == (mc + 1) * rb,
    ;
    assert(0 <= i && i + 1 <= ((mr + 1) * h) * orb) by (nonlinear_arith)
        requires
            0 <= colb < orb,
            0 <= row < (mr + 1) * h,
            0 < orb,
            i == row * orb + colb,
    ;
    assert(out.data@.len() == ((mr + 1) * h) * orb) by (nonlinear_arith)
        requires
            out.data@.len() == out.width * out.height * out.pixel_size,
            out.width == (mc + 1) * base.width,
            out.height == (mr + 1) * base.height,
            out.pixel_size == base.pixel_size,
            rb == base.width * base.pixel_size,
            h == base.height,
            orb == (mc + 1) * rb,
    ;
    lemma_fundamental_div_mod_converse(i, orb, row, colb);
    lemma_fundamental_div_mod_converse(row, h, band_r, sub_r);
    lemma_fundamental_div_mod_converse(colb, rb, band_c, sub_cb);
    assert(out.data@[i] == composite_byte(tiles, base, i));
}

/// Turn a tile-offset set and a base tile into the composite picture of the
/// assembled shape.
///
/// Fails with `EmptyTileSet` on an empty tile set and with `FormatMismatch`
/// when the base tile is not in the expected format; otherwise the result is
/// the composite pinned down by `is_composite_of`, so identical inputs always
/// produce byte-identical outputs.
#[verifier::loop_isolation(false)]
pub fn generate(tiles: &Vec<(usize, usize)>, base: &Image, expected_format: u32) -> (r: Result<
    Image,
    GenerateError,
>)
    requires
        base.wf(),
        composite_size(tiles@, *base) <= usize::MAX,
    ensures
        match r {
            Ok(out) => {
                &&& tiles@.len() > 0
                &&& base.format == expected_format
                &&& out.wf()
                &&& is_composite_of(out, tiles@, *base)
            },
            Err(GenerateError::EmptyTileSet) => tiles@.len() == 0,
            Err(GenerateError::FormatMismatch) => tiles@.len() > 0 && base.format
                != expected_format,
        },
{
    if tiles.len() == 0 {
        return Err(GenerateError::EmptyTileSet);
    }
    if base.format != expected_format {
        return Err(GenerateError::FormatMismatch);
    }
    let mr = max_row(tiles);
    let mc = max_col(tiles);
    let base_len = base.data.len();
    proof {
        assert(base_len == base.height * base.row_bytes()) by (nonlinear_arith)
            requires
                base_len == base.width * base.height * base.pixel_size,
        ;
        assert((mr + 1) * base.height * ((mc + 1) * base.row_bytes()) == composite_size(
            tiles@,
            *base,
        ));
        assert(base.height * base.row_bytes() <= (mr + 1) * base.height * ((mc + 1)
            * base.row_bytes()) && base.row_bytes() <= (mc + 1) * base.row_bytes() && (mr + 1)
            * base.height <= (mr + 1) * base.height * ((mc + 1) * base.row_bytes()) && (mc + 1)
            * base.row_bytes() <= (mr + 1) * base.height * ((mc + 1) * base.row_bytes()) && (mc + 1)
            * base.width <= (mr + 1) * base.height * ((mc + 1) * base.row_bytes()) && mr + 1 <= (mr
            + 1) * base.height * ((mc + 1) * base.row_bytes()) && mc + 1 <= (mr + 1) * base.height
            * ((mc + 1) * base.row_bytes()))
            by (nonlinear_arith)
            requires
                0 < base.width,
                0 < base.height,
                0 < base.pixel_size,
                0 <= mr,
                0 <= mc,
                base.row_bytes() == base.width * base.pixel_size,
        ;
    }
    let wb = base.width * base.pixel_size;
    let out_row_bytes = (mc + 1) * wb;
    let out_h = (mr + 1) * base.height;
    let out_w = (mc + 1) * base.width;
    proof {
        assert(out_h * out_row_bytes == composite_size(tiles@, *base));
    }
    let mut data: Vec<u8> = Vec::new();
    let mut row: usize = 0;
    while row < out_h
        invariant
            row <= out_h,
            data@.len() == row * out_row_bytes,
            forall|i: int| 0 <= i < data@.len() ==> data@[i] == composite_byte(tiles@, *base, i),
        decreases out_h - row,
    {
        proof {
            lemma_mul_inequality(row + 1, out_h as int, out_row_bytes as int);
            assert((row + 1) * out_row_bytes == row * out_row_bytes + out_row_bytes)
                by (nonlinear_arith);
        }
        let mut colb: usize = 0;
        while colb < out_row_bytes
            invariant
                colb <= out_row_bytes,
                data@.len() == row * out_row_bytes + colb,
                forall|i: int|
                    0 <= i < data@.len() ==> data@[i] == composite_byte(tiles@, *base, i),
            decreases out_row_bytes - colb,
        {
            let band_r = row / base.height;
            let sub_r = row % base.height;
            let band_c = colb / wb;
            let sub_cb = colb % wb;
            proof {
                vstd::arithmetic::div_mod::lemma_fundamental_div_mod(
                    row as int,
                    base.height as int,
                );
                vstd::arithmetic::div_mod::lemma_fundamental_div_mod(colb as int, wb as int);
                assert(band_r <= mr) by {
                    if band_r > mr {
                        lemma_mul_inequality(mr + 1, band_r as int, base.height as int);
                        assert(band_r * base.height <= row) by (nonlinear_arith)
                            requires
                                row == (base.height as int) * band_r + sub_r,
                                0 <= sub_r,
                        ;
                    }
                };
                assert(band_c <= mc) by {
                    if band_c > mc {
                        lemma_mul_inequality(mc + 1, band_c as int, wb as int);
                        assert(band_c * wb <= colb) by (nonlinear_arith)
                            requires
                                colb == (wb as int) * band_c + sub_cb,
                                0 <= sub_cb,
                        ;
                    }
                };
                assert(sub_r * wb + sub_cb < base_len) by (nonlinear_arith)
                    requires
                        base_len == base.height * wb,
                        sub_r < base.height,
                        sub_cb < wb,
                        0 <= sub_r,
                        0 <= sub_cb,
                        0 < wb,
                ;
            }
            let tile_row = mr - band_r;
            let covered = contains_tile(tiles, tile_row, band_c);
            let b: u8 = if covered {
                base.data[sub_r * wb + sub_cb]
            } else {
                0
            };
            proof {
                let cur = row * out_row_bytes + colb;
                lemma_fundamental_div_mod_converse(
                    cur as int,
                    out_row_bytes as int,
                    row as int,
                    colb as int,
                );
                assert(composite_byte(tiles@, *base, cur as int) == b);
            }
            data.push(b);
            colb = colb + 1;
        }
        row = row + 1;
    }
    proof {
        assert(out_w * out_h * base.pixel_size == out_h * out_row_bytes && 0 < out_w && 0 < out_h)
            by (nonlinear_arith)
            requires
                out_w == (mc + 1) * base.width,
                out_h == (mr + 1) * base.height,
                out_row_bytes == (mc + 1) * (base.width * base.pixel_size),
                0 <= mr,
                0 <= mc,
                0 < base.width,
                0 < base.height,
        ;
    }
    Ok(
        Image {
            width: out_w,
            height: out_h,
            pixel_size: base.pixel_size,
            format: base.format,
            data,
        },
    )
}

} // verus!
