//! Derived-asset bookkeeping: the base tile image of every terrain kind, and
//! the cached placement choices generated from them.

use vstd::prelude::*;

use crate::cards::{choices_generated, lemma_card_index_injective, DrawableCard};
use crate::image::Image;
use crate::terrain::{Choice, Terrain};

verus! {

/// Ceiling on the byte size of one base tile image.  Keeps every composite
/// the catalog can ask for comfortably inside `usize` on any machine.
pub const MAX_TILE_BYTES: usize = 0x0100_0000;

/// One base tile image per terrain kind, all in the same format and of the
/// same pixel dimensions.
#[derive(Clone, Debug)]
pub struct TerrainImages {
    pub images: Vec<Image>,
    pub format: u32,
}

impl TerrainImages {
    /// One well-formed image per kind, uniform in dimensions and format, and
    /// small enough that any composite of it fits in memory.
    pub open spec fn wf(self) -> bool {
        &&& self.images@.len() == Terrain::count_spec()
        &&& forall|k: int|
            0 <= k < self.images@.len() ==> {
                &&& (#[trigger] self.images@[k]).wf()
                &&& self.images@[k].format == self.format
                &&& self.images@[k].width == self.images@[0].width
                &&& self.images@[k].height == self.images@[0].height
                &&& self.images@[k].pixel_size == self.images@[0].pixel_size
                &&& self.images@[k].width * self.images@[k].height * self.images@[k].pixel_size
                    <= MAX_TILE_BYTES
            }
    }

    /// The base tile image of `t`.
    pub open spec fn image_for_spec(self, t: Terrain) -> Image {
        self.images@[t.index_spec()]
    }

    /// The base tile image of `t`.
    pub fn image_for(&self, t: &Terrain) -> (img: &Image)
        requires
            self.wf(),
        ensures
            *img == self.image_for_spec(*t),
    {
        let i = t.index();
        &self.images[i]
    }

    /// Wrap a uniform family of base tile images.
    pub fn new(images: Vec<Image>, format: u32) -> (r: Option<TerrainImages>)
        ensures
            match r {
                Some(ti) => ti.wf() && ti.images@ == images@ && ti.format == format,
                None => !(TerrainImages { images, format }).wf(),
            },
    {
        let ti = TerrainImages { images, format };
        if check_terrain_images(&ti) {
            Some(ti)
        } else {
            None
        }
    }
}

/// The cached placement choices of every drawable card, keyed by catalog
/// position.  Generated once, after the terrain base tiles have loaded, and
/// read-shared from then on.
#[derive(Clone, Debug)]
pub struct Choices(pub Vec<(DrawableCard, Vec<Choice>)>);

impl Choices {
    /// The table holds every drawable card exactly once, at its catalog
    /// position.
    pub open spec fn keys_wf(self) -> bool {
        &&& self.0@.len() == DrawableCard::count_spec()
        &&& forall|k: int|
            0 <= k < self.0@.len() ==> (#[trigger] self.0@[k]).0.index_spec() == k
    }

    /// Beyond `keys_wf`: every entry holds exactly the choices its card
    /// generates over `ti`.
    pub open spec fn wf(self, ti: TerrainImages) -> bool {
        &&& self.keys_wf()
        &&& forall|k: int|
            0 <= k < self.0@.len() ==> choices_generated(
                (#[trigger] self.0@[k]).0,
                ti,
                self.0@[k].1@,
            )
    }

    /// The choices of `card`.
    pub fn get(&self, card: &DrawableCard) -> (r: &Vec<Choice>)
        requires
            self.keys_wf(),
        ensures
            *r == self.0@[card.index_spec()].1,
            self.0@[card.index_spec()].0 == *card,
    {
        let i = card.index();
        proof {
            lemma_card_index_injective(self.0@[i as int].0, *card);
        }
        &self.0[i].1
    }
}

/// Build the full choice table: every drawable card paired with all the
/// choices it offers over the loaded terrain base tiles.  This is the
/// reaction of the first startup pipeline stage, and the only place
/// composites are generated; later reads are served from the cache.
#[verifier::loop_isolation(false)]
pub fn generate_choices(terrain_images: &TerrainImages) -> (cs: Choices)
    requires
        terrain_images.wf(),
    ensures
        cs.wf(*terrain_images),
{
    let cards = DrawableCard::all();
    let mut table: Vec<(DrawableCard, Vec<Choice>)> = Vec::new();
    let mut k: usize = 0;
    while k < cards.len()
        invariant
            0 <= k <= cards@.len(),
            table@.len() == k,
            forall|j: int|
                0 <= j < k ==> (#[trigger] table@[j]).0.index_spec() == j && choices_generated(
                    table@[j].0,
                    *terrain_images,
                    table@[j].1@,
                ),
        decreases cards@.len() - k,
    {
        let card = cards[k];
        let choices = card.generate_choices(terrain_images);
        table.push((card, choices));
        k = k + 1;
    }
    Choices(table)
}

/// Whether `ti` satisfies `TerrainImages::wf`.
fn check_terrain_images(ti: &TerrainImages) -> (ok: bool)
    ensures
        ok == ti.wf(),
{
    if ti.images.len() != 7 {
        return false;
    }
    let w = ti.images[0].width;
    let h = ti.images[0].height;
    let ps = ti.images[0].pixel_size;
    let mut k: usize = 0;
    while k < ti.images.len()
        invariant
            0 <= k <= ti.images@.len(),
            ti.images@.len() == 7,
            w == ti.images@[0].width,
            h == ti.images@[0].height,
            ps == ti.images@[0].pixel_size,
            forall|j: int|
                0 <= j < k ==> {
                    &&& (#[trigger] ti.images@[j]).wf()
                    &&& ti.images@[j].format == ti.format
                    &&& ti.images@[j].width == w
                    &&& ti.images@[j].height == h
                    &&& ti.images@[j].pixel_size == ps
                    &&& ti.images@[j].width * ti.images@[j].height * ti.images@[j].pixel_size
                        <= MAX_TILE_BYTES
                },
        decreases ti.images@.len() - k,
    {
        let img = &ti.images[k];
        proof {
            assert(img.width * img.height * img.pixel_size == (img.width * img.pixel_size)
                * img.height) by (nonlinear_arith);
        }
        if img.width != w || img.height != h || img.pixel_size != ps || img.format != ti.format {
            return false;
        }
        if img.width == 0 || img.height == 0 || img.pixel_size == 0 {
            return false;
        }
        let row = match img.width.checked_mul(img.pixel_size) {
            Some(v) => v,
            Option::None => {
                proof {
                    assert((img.width * img.pixel_size) * img.height > MAX_TILE_BYTES)
                        by (nonlinear_arith)
                        requires
                            img.width * img.pixel_size > usize::MAX,
                            img.height >= 1,
                            usize::MAX >= MAX_TILE_BYTES,
                    ;
                }
                return false;
            },
        };
        let bytes = match row.checked_mul(img.height) {
            Some(v) => v,
            Option::None => {
                return false;
            },
        };
        if bytes > MAX_TILE_BYTES {
            return false;
        }
        if img.data.len() != bytes {
            return false;
        }
        k = k + 1;
    }
    true
}

} // verus!
