//! The card and shape catalog: every card of the deck, and for each drawable
//! card the shape variants it can be placed as, fixed at design time.

use vstd::pervasive::unreached;
use vstd::prelude::*;

use crate::assets::TerrainImages;
use crate::image::{generate, is_composite_of};
use crate::shape::tiles_distinct;
use crate::terrain::{Choice, Terrain};

verus! {

/// Any card of the game.
#[derive(Clone, Copy, Debug, PartialEq, Eq, Structural)]
pub enum Card {
    DrawableCard(DrawableCard),
    Season(Season),
    Scroll(Scroll),
    Scoring(Scoring),
}

/// A card of the draw pile: it may offer shapes to place.
#[derive(Clone, Copy, Debug, PartialEq, Eq, Structural)]
pub enum DrawableCard {
    Ambush(Ambush),
    Exploration(Exploration),
}

impl From<DrawableCard> for Card {
    fn from(card: DrawableCard) -> (c: Card) {
        Card::DrawableCard(card)
    }
}

impl vstd::std_specs::convert::FromSpecImpl<DrawableCard> for Card {
    open spec fn obeys_from_spec() -> bool {
        true
    }

    open spec fn from_spec(card: DrawableCard) -> Card {
        Card::DrawableCard(card)
    }
}

/// The monster ambush cards.
#[derive(Clone, Copy, Debug, PartialEq, Eq, Structural)]
pub enum Ambush {
    GoblinAttack01,
    BugbearAssault02,
    KoboldOnslaught03,
    GnollRaid04,
}

/// The exploration cards.
#[derive(Clone, Copy, Debug, PartialEq, Eq, Structural)]
pub enum Exploration {
    TempleRuins05,
    OutpostRuins06,
    GreatRiver07,
    Farmland08,
    Hamlet09,
    ForgottenForest10,
    HinterlandStream11,
    Homestead12,
    Orchard13,
    TreetopVillage14,
    Marshlands15,
    FishingVillage16,
    RiftLands17,
}

/// The season cards that pace a match.
#[derive(Clone, Copy, Debug, PartialEq, Eq, Structural)]
pub enum Season {
    Spring18,
    Summer19,
    Fall20,
    Winter21,
}

/// The scroll cards naming the scoring slots.
#[derive(Clone, Copy, Debug, PartialEq, Eq, Structural)]
pub enum Scroll {
    ScrollA22,
    ScrollB23,
    ScrollC24,
    ScrollD25,
}

/// A scoring card of one of the four families.
#[derive(Clone, Copy, Debug, PartialEq, Eq, Structural)]
pub enum Scoring {
    Tree(TreeScoring),
    Farm(FarmScoring),
    House(HouseScoring),
    Shape(ShapeScoring),
}

impl From<Scoring> for Card {
    fn from(scoring: Scoring) -> (c: Card) {
        Card::Scoring(scoring)
    }
}

impl vstd::std_specs::convert::FromSpecImpl<Scoring> for Card {
    open spec fn obeys_from_spec() -> bool {
        true
    }

    open spec fn from_spec(scoring: Scoring) -> Card {
        Card::Scoring(scoring)
    }
}

/// Forest scoring cards.
#[derive(Clone, Copy, Debug, PartialEq, Eq, Structural)]
pub enum TreeScoring {
    SentinelWood26,
    Greenbough27,
    Treetower28,
    StonesideForest29,
}

/// Farm and water scoring cards.
#[derive(Clone, Copy, Debug, PartialEq, Eq, Structural)]
pub enum FarmScoring {
    CanalLake30,
    MagesValley31,
    TheGoldenGranary32,
    ShoresideExpanse33,
}

/// Village scoring cards.
#[derive(Clone, Copy, Debug, PartialEq, Eq, Structural)]
pub enum HouseScoring {
    Wildholds34,
    GreatCity35,
    GreengoldPlains36,
    Shieldgate37,
}

/// Geometry scoring cards.
#[derive(Clone, Copy, Debug, PartialEq, Eq, Structural)]
pub enum ShapeScoring {
    Borderlands38,
    LostBarony39,
    TheBrokenRoad40,
    TheCauldrons41,
}

impl DrawableCard {
    /// The number of drawable cards.
    pub open spec fn count_spec() -> int {
        17
    }

    /// A stable position of each drawable card inside the catalog.
    pub open spec fn index_spec(self) -> int {
        match self {
            DrawableCard::Ambush(Ambush::GoblinAttack01) => 0,
            DrawableCard::Ambush(Ambush::BugbearAssault02) => 1,
            DrawableCard::Ambush(Ambush::KoboldOnslaught03) => 2,
            DrawableCard::Ambush(Ambush::GnollRaid04) => 3,
            DrawableCard::Exploration(Exploration::TempleRuins05) => 4,
            DrawableCard::Exploration(Exploration::OutpostRuins06) => 5,
            DrawableCard::Exploration(Exploration::GreatRiver07) => 6,
            DrawableCard::Exploration(Exploration::Farmland08) => 7,
            DrawableCard::Exploration(Exploration::Hamlet09) => 8,
            DrawableCard::Exploration(Exploration::ForgottenForest10) => 9,
            DrawableCard::Exploration(Exploration::HinterlandStream11) => 10,
            DrawableCard::Exploration(Exploration::Homestead12) => 11,
            DrawableCard::Exploration(Exploration::Orchard13) => 12,
            DrawableCard::Exploration(Exploration::TreetopVillage14) => 13,
            DrawableCard::Exploration(Exploration::Marshlands15) => 14,
            DrawableCard::Exploration(Exploration::FishingVillage16) => 15,
            DrawableCard::Exploration(Exploration::RiftLands17) => 16,
        }
    }

    /// Position of this card inside the catalog.
    pub fn index(&self) -> (i: usize)
        ensures
            i == self.index_spec(),
            0 <= i < DrawableCard::count_spec(),
    {
        match self {
            DrawableCard::Ambush(Ambush::GoblinAttack01) => 0,
            DrawableCard::Ambush(Ambush::BugbearAssault02) => 1,
            DrawableCard::Ambush(Ambush::KoboldOnslaught03) => 2,
            DrawableCard::Ambush(Ambush::GnollRaid04) => 3,
            DrawableCard::Exploration(Exploration::TempleRuins05) => 4,
            DrawableCard::Exploration(Exploration::OutpostRuins06) => 5,
            DrawableCard::Exploration(Exploration::GreatRiver07) => 6,
            DrawableCard::Exploration(Exploration::Farmland08) => 7,
            DrawableCard::Exploration(Exploration::Hamlet09) => 8,
            DrawableCard::Exploration(Exploration::ForgottenForest10) => 9,
            DrawableCard::Exploration(Exploration::HinterlandStream11) => 10,
            DrawableCard::Exploration(Exploration::Homestead12) => 11,
            DrawableCard::Exploration(Exploration::Orchard13) => 12,
            DrawableCard::Exploration(Exploration::TreetopVillage14) => 13,
            DrawableCard::Exploration(Exploration::Marshlands15) => 14,
            DrawableCard::Exploration(Exploration::FishingVillage16) => 15,
            DrawableCard::Exploration(Exploration::RiftLands17) => 16,
        }
    }

    /// Every drawable card once, in catalog order.
    pub fn all() -> (cards: Vec<DrawableCard>)
        ensures
            cards@.len() == DrawableCard::count_spec(),
            forall|k: int|
                0 <= k < cards@.len() ==> (#[trigger] cards@[k]).index_spec() == k,
    {
        let cards: Vec<DrawableCard> = vec![
            DrawableCard::Ambush(Ambush::GoblinAttack01),
            DrawableCard::Ambush(Ambush::BugbearAssault02),
            DrawableCard::Ambush(Ambush::KoboldOnslaught03),
            DrawableCard::Ambush(Ambush::GnollRaid04),
            DrawableCard::Exploration(Exploration::TempleRuins05),
            DrawableCard::Exploration(Exploration::OutpostRuins06),
            DrawableCard::Exploration(Exploration::GreatRiver07),
            DrawableCard::Exploration(Exploration::Farmland08),
            DrawableCard::Exploration(Exploration::Hamlet09),
            DrawableCard::Exploration(Exploration::ForgottenForest10),
            DrawableCard::Exploration(Exploration::HinterlandStream11),
            DrawableCard::Exploration(Exploration::Homestead12),
            DrawableCard::Exploration(Exploration::Orchard13),
            DrawableCard::Exploration(Exploration::TreetopVillage14),
            DrawableCard::Exploration(Exploration::Marshlands15),
            DrawableCard::Exploration(Exploration::FishingVillage16),
            DrawableCard::Exploration(Exploration::RiftLands17),
        ];
        assert(forall|k: int|
            0 <= k < cards@.len() ==> (#[trigger] cards@[k]).index_spec() == k);
        cards
    }
}

/// The terrains a drawable card may stamp its shape with, in offer order.
pub open spec fn terrain_options_spec(card: DrawableCard) -> Seq<Terrain> {
    match card {
        DrawableCard::Ambush(_) => seq![Terrain::Monster],
        DrawableCard::Exploration(Exploration::TempleRuins05) => seq![],
        DrawableCard::Exploration(Exploration::OutpostRuins06) => seq![],
        DrawableCard::Exploration(Exploration::GreatRiver07) => seq![Terrain::Water],
        DrawableCard::Exploration(Exploration::Farmland08) => seq![Terrain::Farm],
        DrawableCard::Exploration(Exploration::Hamlet09) => seq![Terrain::Village],
        DrawableCard::Exploration(Exploration::ForgottenForest10) => seq![Terrain::Forest],
        DrawableCard::Exploration(Exploration::HinterlandStream11) => seq![
            Terrain::Farm,
            Terrain::Water,
        ],
        DrawableCard::Exploration(Exploration::Homestead12) => seq![
            Terrain::Village,
            Terrain::Farm,
        ],
        DrawableCard::Exploration(Exploration::Orchard13) => seq![Terrain::Forest, Terrain::Farm],
        DrawableCard::Exploration(Exploration::TreetopVillage14) => seq![
            Terrain::Forest,
            Terrain::Village,
        ],
        DrawableCard::Exploration(Exploration::Marshlands15) => seq![
            Terrain::Forest,
            Terrain::Water,
        ],
        DrawableCard::Exploration(Exploration::FishingVillage16) => seq![
            Terrain::Village,
            Terrain::Water,
        ],
        DrawableCard::Exploration(Exploration::RiftLands17) => seq![
            Terrain::Forest,
            Terrain::Village,
            Terrain::Farm,
            Terrain::Water,
            Terrain::Monster,
        ],
    }
}

/// The tile-offset sets a drawable card may be placed as, each with its
/// bonus-coin flag, in offer order.
pub open spec fn tile_sets_spec(card: DrawableCard) -> Seq<(Seq<(usize, usize)>, bool)> {
    match card {
        DrawableCard::Ambush(Ambush::GoblinAttack01) => seq![
            (seq![(2usize, 0usize), (1, 1), (0, 2)], false),
        ],
        DrawableCard::Ambush(Ambush::BugbearAssault02) => seq![
            (seq![(0usize, 0usize), (1, 0), (0, 2), (1, 2)], false),
        ],
        DrawableCard::Ambush(Ambush::KoboldOnslaught03) => seq![
            (seq![(0usize, 0usize), (1, 0), (2, 0), (1, 1)], false),
        ],
        DrawableCard::Ambush(Ambush::GnollRaid04) => seq![
            (seq![(0usize, 0usize), (1, 0), (2, 0), (0, 1), (2, 1)], false),
        ],
        DrawableCard::Exploration(Exploration::TempleRuins05) => seq![],
        DrawableCard::Exploration(Exploration::OutpostRuins06) => seq![],
        DrawableCard::Exploration(Exploration::GreatRiver07) => seq![
            (seq![(0usize, 0usize), (1, 0), (2, 0)], true),
            (seq![(0usize, 0usize), (0, 1), (1, 1), (1, 2), (2, 2)], false),
        ],
        DrawableCard::Exploration(Exploration::Farmland08) => seq![
            (seq![(0usize, 0usize), (1, 0)], true),
            (seq![(0usize, 1usize), (1, 0), (1, 1), (1, 2), (2, 1)], false),
        ],
        DrawableCard::Exploration(Exploration::Hamlet09) => seq![
            (seq![(0usize, 0usize), (0, 1), (1, 0)], true),
            (seq![(0usize, 0usize), (0, 1), (1, 0), (1, 1), (1, 2)], false),
        ],
        DrawableCard::Exploration(Exploration::ForgottenForest10) => seq![
            (seq![(0usize, 1usize), (1, 0)], true),
            (seq![(0usize, 1usize), (1, 0), (1, 1), (2, 0)], false),
        ],
        DrawableCard::Exploration(Exploration::HinterlandStream11) => seq![
            (seq![(0usize, 0usize), (1, 0), (2, 0), (2, 1), (2, 2)], false),
        ],
        DrawableCard::Exploration(Exploration::Homestead12) => seq![
            (seq![(0usize, 0usize), (1, 0), (2, 0), (1, 1)], false),
        ],
        DrawableCard::Exploration(Exploration::Orchard13) => seq![
            (seq![(1usize, 0usize), (1, 1), (1, 2), (0, 2)], false),
        ],
        DrawableCard::Exploration(Exploration::TreetopVillage14) => seq![
            (seq![(0usize, 0usize), (0, 1), (0, 2), (1, 2), (1, 3)], false),
        ],
        DrawableCard::Exploration(Exploration::Marshlands15) => seq![
            (seq![(0usize, 0usize), (1, 0), (2, 0), (1, 1), (1, 2)], false),
        ],
        DrawableCard::Exploration(Exploration::FishingVillage16) => seq![
            (seq![(0usize, 0usize), (0, 1), (0, 2), (0, 3)], false),
        ],
        DrawableCard::Exploration(Exploration::RiftLands17) => seq![
            (seq![(0usize, 0usize)], false),
        ],
    }
}

/// The executable tile sets carry exactly the modelled catalog data.
pub open spec fn tile_sets_match(
    sets: Seq<(Vec<(usize, usize)>, bool)>,
    model: Seq<(Seq<(usize, usize)>, bool)>,
) -> bool {
    &&& sets.len() == model.len()
    &&& forall|k: int|
        0 <= k < sets.len() ==> ((#[trigger] sets[k]).0@ == model[k].0 && sets[k].1 == model[k].1)
}

/// The terrains this card may stamp its shape with, in offer order.
pub fn terrain_options(card: &DrawableCard) -> (opts: Vec<Terrain>)
    ensures
        opts@ == terrain_options_spec(*card),
{
    let opts: Vec<Terrain> = match card {
        DrawableCard::Ambush(_) => vec![Terrain::Monster],
        DrawableCard::Exploration(Exploration::TempleRuins05) => Vec::new(),
        DrawableCard::Exploration(Exploration::OutpostRuins06) => Vec::new(),
        DrawableCard::Exploration(Exploration::GreatRiver07) => vec![Terrain::Water],
        DrawableCard::Exploration(Exploration::Farmland08) => vec![Terrain::Farm],
        DrawableCard::Exploration(Exploration::Hamlet09) => vec![Terrain::Village],
        DrawableCard::Exploration(Exploration::ForgottenForest10) => vec![Terrain::Forest],
        DrawableCard::Exploration(Exploration::HinterlandStream11) => vec![
            Terrain::Farm,
            Terrain::Water,
        ],
        DrawableCard::Exploration(Exploration::Homestead12) => vec![
            Terrain::Village,
            Terrain::Farm,
        ],
        DrawableCard::Exploration(Exploration::Orchard13) => vec![Terrain::Forest, Terrain::Farm],
        DrawableCard::Exploration(Exploration::TreetopVillage14) => vec![
            Terrain::Forest,
            Terrain::Village,
        ],
        DrawableCard::Exploration(Exploration::Marshlands15) => vec![
            Terrain::Forest,
            Terrain::Water,
        ],
        DrawableCard::Exploration(Exploration::FishingVillage16) => vec![
            Terrain::Village,
            Terrain::Water,
        ],
        DrawableCard::Exploration(Exploration::RiftLands17) => vec![
            Terrain::Forest,
            Terrain::Village,
            Terrain::Farm,
            Terrain::Water,
            Terrain::Monster,
        ],
    };
    assert(opts@ =~= terrain_options_spec(*card));
    opts
}

/// The tile-offset sets this card may be placed as, each with its bonus flag,
/// in offer order.
pub fn tile_sets(card: &DrawableCard) -> (sets: Vec<(Vec<(usize, usize)>, bool)>)
    ensures
        tile_sets_match(sets@, tile_sets_spec(*card)),
{
    let sets: Vec<(Vec<(usize, usize)>, bool)> = match card {
        DrawableCard::Ambush(Ambush::GoblinAttack01) => vec![
            (vec![(2usize, 0usize), (1, 1), (0, 2)], false),
        ],
        DrawableCard::Ambush(Ambush::BugbearAssault02) => vec![
            (vec![(0usize, 0usize), (1, 0), (0, 2), (1, 2)], false),
        ],
        DrawableCard::Ambush(Ambush::KoboldOnslaught03) => vec![
            (vec![(0usize, 0usize), (1, 0), (2, 0), (1, 1)], false),
        ],
        DrawableCard::Ambush(Ambush::GnollRaid04) => vec![
            (vec![(0usize, 0usize), (1, 0), (2, 0), (0, 1), (2, 1)], false),
        ],
        DrawableCard::Exploration(Exploration::TempleRuins05) => Vec::new(),
        DrawableCard::Exploration(Exploration::OutpostRuins06) => Vec::new(),
        DrawableCard::Exploration(Exploration::GreatRiver07) => vec![
            (vec![(0usize, 0usize), (1, 0), (2, 0)], true),
            (vec![(0usize, 0usize), (0, 1), (1, 1), (1, 2), (2, 2)], false),
        ],
        DrawableCard::Exploration(Exploration::Farmland08) => vec![
            (vec![(0usize, 0usize), (1, 0)], true),
            (vec![(0usize, 1usize), (1, 0), (1, 1), (1, 2), (2, 1)], false),
        ],
        DrawableCard::Exploration(Exploration::Hamlet09) => vec![
            (vec![(0usize, 0usize), (0, 1), (1, 0)], true),
            (vec![(0usize, 0usize), (0, 1), (1, 0), (1, 1), (1, 2)], false),
        ],
        DrawableCard::Exploration(Exploration::ForgottenForest10) => vec![
            (vec![(0usize, 1usize), (1, 0)], true),
            (vec![(0usize, 1usize), (1, 0), (1, 1), (2, 0)], false),
        ],
        DrawableCard::Exploration(Exploration::HinterlandStream11) => vec![
            (vec![(0usize, 0usize), (1, 0), (2, 0), (2, 1), (2, 2)], false),
        ],
        DrawableCard::Exploration(Exploration::Homestead12) => vec![
            (vec![(0usize, 0usize), (1, 0), (2, 0), (1, 1)], false),
        ],
        DrawableCard::Exploration(Exploration::Orchard13) => vec![
            (vec![(1usize, 0usize), (1, 1), (1, 2), (0, 2)], false),
        ],
        DrawableCard::Exploration(Exploration::TreetopVillage14) => vec![
            (vec![(0usize, 0usize), (0, 1), (0, 2), (1, 2), (1, 3)], false),
        ],
        DrawableCard::Exploration(Exploration::Marshlands15) => vec![
            (vec![(0usize, 0usize), (1, 0), (2, 0), (1, 1), (1, 2)], false),
        ],
        DrawableCard::Exploration(Exploration::FishingVillage16) => vec![
            (vec![(0usize, 0usize), (0, 1), (0, 2), (0, 3)], false),
        ],
        DrawableCard::Exploration(Exploration::RiftLands17) => vec![
            (vec![(0usize, 0usize)], false),
        ],
    };
    proof {
        let model = tile_sets_spec(*card);
        assert forall|k: int| 0 <= k < sets@.len() implies ((#[trigger] sets@[k]).0@ == model[k].0
            && sets@[k].1 == model[k].1) by {
            if k == 0 {
                assert(sets@[0].0@ =~= model[0].0);
            } else {
                assert(sets@[1].0@ =~= model[1].0);
            }
        }
    }
    sets
}

/// A catalog tile set is non-empty, free of duplicates, and stays within a
/// 4-by-4 bounding box.
pub open spec fn catalog_set_wf(s: (Seq<(usize, usize)>, bool)) -> bool {
    &&& s.0.len() > 0
    &&& tiles_distinct(s.0)
    &&& forall|k: int| 0 <= k < s.0.len() ==> ((#[trigger] s.0[k]).0 <= 3 && s.0[k].1 <= 3)
}

/// Law of the catalog: every tile set of every drawable card is well formed,
/// and no card stamps the unoccupied terrain.
pub proof fn lemma_catalog_wf(card: DrawableCard)
    ensures
        forall|i: int|
            0 <= i < tile_sets_spec(card).len() ==> catalog_set_wf(
                #[trigger] tile_sets_spec(card)[i],
            ),
        forall|j: int|
            0 <= j < terrain_options_spec(card).len() ==> #[trigger] terrain_options_spec(card)[j]
                != Terrain::Empty,
{
    let sets = tile_sets_spec(card);
    assert forall|i: int| 0 <= i < sets.len() implies catalog_set_wf(#[trigger] sets[i]) by {
        if i == 0 {
            assert(catalog_set_wf(sets[0]));
        } else {
            assert(catalog_set_wf(sets[1]));
        }
    }
}

/// Two distinct drawable cards never share a catalog position.
pub proof fn lemma_card_index_injective(a: DrawableCard, b: DrawableCard)
    requires
        a.index_spec() == b.index_spec(),
    ensures
        a == b,
{
}

/// `ch` is the choice a card offers for its `i`-th tile set stamped with its
/// `j`-th terrain option: same tiles and coin flag, that terrain, and the
/// composite picture of the shape over that terrain's base tile.
pub open spec fn choice_generated(
    card: DrawableCard,
    ti: TerrainImages,
    ch: Choice,
    i: int,
    j: int,
) -> bool {
    &&& ch.terrain == terrain_options_spec(card)[j]
    &&& ch.tiles@ == tile_sets_spec(card)[i].0
    &&& ch.with_coin == tile_sets_spec(card)[i].1
    &&& ch.wf()
    &&& is_composite_of(
        ch.image,
        tile_sets_spec(card)[i].0,
        ti.image_for_spec(terrain_options_spec(card)[j]),
    )
}

/// `cs` is the full list of choices of a card: one per (tile set, terrain)
/// pair, tile sets outermost, both in catalog order.
pub open spec fn choices_generated(card: DrawableCard, ti: TerrainImages, cs: Seq<Choice>) -> bool {
    let sets = tile_sets_spec(card);
    let opts = terrain_options_spec(card);
    &&& cs.len() == sets.len() * opts.len()
    &&& forall|i: int, j: int|
        0 <= i < sets.len() && 0 <= j < opts.len() ==> choice_generated(
            card,
            ti,
            #[trigger] cs[i * opts.len() + j],
            i,
            j,
        )
}

/// A fresh copy of a tile list.
fn clone_tiles(tiles: &Vec<(usize, usize)>) -> (r: Vec<(usize, usize)>)
    ensures
        r@ == tiles@,
{
    let mut r: Vec<(usize, usize)> = Vec::new();
    let mut k: usize = 0;
    while k < tiles.len()
        invariant
            0 <= k <= tiles@.len(),
            r@ == tiles@.take(k as int),
        decreases tiles@.len() - k,
    {
        r.push(tiles[k]);
        proof {
            assert(r@ =~= tiles@.take(k + 1));
        }
        k = k + 1;
    }
    proof {
        assert(tiles@.take(tiles@.len() as int) =~= tiles@);
    }
    r
}

impl DrawableCard {
    /// All placement choices this card offers: for every tile set and every
    /// eligible terrain, the shape stamped with that terrain's base tile.
    ///
    /// A card with no tile sets (a narrative-only card) yields no choices.
    #[verifier::loop_isolation(false)]
    pub fn generate_choices(&self, terrain_images: &TerrainImages) -> (choices: Vec<Choice>)
        requires
            terrain_images.wf(),
        ensures
            choices_generated(*self, *terrain_images, choices@),
    {
        let sets = tile_sets(self);
        let opts = terrain_options(self);
        proof {
            lemma_catalog_wf(*self);
        }
        let mut choices: Vec<Choice> = Vec::new();
        let mut i: usize = 0;
        while i < sets.len()
            invariant
                0 <= i <= sets@.len(),
                choices@.len() == i * opts@.len(),
                forall|i2: int, j2: int|
                    0 <= i2 < i && 0 <= j2 < opts@.len() ==> choice_generated(
                        *self,
                        *terrain_images,
                        #[trigger] choices@[i2 * opts@.len() + j2],
                        i2,
                        j2,
                    ),
            decreases sets@.len() - i,
        {
            let with_coin = sets[i].1;
            proof {
                assert(catalog_set_wf(tile_sets_spec(*self)[i as int]));
                crate::shape::lemma_max_bounds_from_tiles(sets@[i as int].0@, 3);
            }
            let mut j: usize = 0;
            while j < opts.len()
                invariant
                    0 <= j <= opts@.len(),
                    i < sets@.len(),
                    choices@.len() == i * opts@.len() + j,
                    forall|i2: int, j2: int|
                        0 <= i2 < i && 0 <= j2 < opts@.len() ==> choice_generated(
                            *self,
                            *terrain_images,
                            #[trigger] choices@[i2 * opts@.len() + j2],
                            i2,
                            j2,
                        ),
                    forall|j2: int|
                        0 <= j2 < j ==> choice_generated(
                            *self,
                            *terrain_images,
                            #[trigger] choices@[i as int * opts@.len() + j2],
                            i as int,
                            j2,
                        ),
                decreases opts@.len() - j,
            {
                let t = opts[j];
                let base = terrain_images.image_for(&t);
                proof {
                    assert(crate::image::composite_size(sets@[i as int].0@, *base) <= 0x1000_0000)
                        by (nonlinear_arith)
                        requires
                            crate::image::composite_size(sets@[i as int].0@, *base) == ((
                            crate::shape::max_row_spec(sets@[i as int].0@) + 1) * base.height) * ((
                            crate::shape::max_col_spec(sets@[i as int].0@) + 1) * (base.width
                                * base.pixel_size)),
                            0 <= crate::shape::max_row_spec(sets@[i as int].0@) <= 3,
                            0 <= crate::shape::max_col_spec(sets@[i as int].0@) <= 3,
                            0 < base.width,
                            0 < base.height,
                            0 < base.pixel_size,
                            base.width * base.height * base.pixel_size
                                <= crate::assets::MAX_TILE_BYTES,
                    ;
                }
                let img = match generate(&sets[i].0, base, terrain_images.format) {
                    Ok(im) => im,
                    Err(_) => unreached(),
                };
                let ch = Choice { terrain: t, image: img, tiles: clone_tiles(&sets[i].0), with_coin };
                choices.push(ch);
                j = j + 1;
            }
            proof {
                assert((i + 1) * opts@.len() == i * opts@.len() + opts@.len()) by (nonlinear_arith);
            }
            i = i + 1;
        }
        choices
    }
}

impl Card {
    /// A stable position of each card inside the full deck catalog.
    pub open spec fn catalog_index_spec(self) -> int {
        match self {
            Card::DrawableCard(DrawableCard::Ambush(Ambush::GoblinAttack01)) => 0,
            Card::DrawableCard(DrawableCard::Ambush(Ambush::BugbearAssault02)) => 1,
            Card::DrawableCard(DrawableCard::Ambush(Ambush::KoboldOnslaught03)) => 2,
            Card::DrawableCard(DrawableCard::Ambush(Ambush::GnollRaid04)) => 3,
            Card::DrawableCard(DrawableCard::Exploration(Exploration::TempleRuins05)) => 4,
            Card::DrawableCard(DrawableCard::Exploration(Exploration::OutpostRuins06)) => 5,
            Card::DrawableCard(DrawableCard::Exploration(Exploration::GreatRiver07)) => 6,
            Card::DrawableCard(DrawableCard::Exploration(Exploration::Farmland08)) => 7,
            Card::DrawableCard(DrawableCard::Exploration(Exploration::Hamlet09)) => 8,
            Card::DrawableCard(DrawableCard::Exploration(Exploration::ForgottenForest10)) => 9,
            Card::DrawableCard(DrawableCard::Exploration(Exploration::HinterlandStream11)) => 10,
            Card::DrawableCard(DrawableCard::Exploration(Exploration::Homestead12)) => 11,
            Card::DrawableCard(DrawableCard::Exploration(Exploration::Orchard13)) => 12,
            Card::DrawableCard(DrawableCard::Exploration(Exploration::TreetopVillage14)) => 13,
            Card::DrawableCard(DrawableCard::Exploration(Exploration::Marshlands15)) => 14,
            Card::DrawableCard(DrawableCard::Exploration(Exploration::FishingVillage16)) => 15,
            Card::DrawableCard(DrawableCard::Exploration(Exploration::RiftLands17)) => 16,
            Card::Season(Season::Spring18) => 17,
            Card::Season(Season::Summer19) => 18,
            Card::Season(Season::Fall20) => 19,
            Card::Season(Season::Winter21) => 20,
            Card::Scroll(Scroll::ScrollA22) => 21,
            Card::Scroll(Scroll::ScrollB23) => 22,
            Card::Scroll(Scroll::ScrollC24) => 23,
            Card::Scroll(Scroll::ScrollD25) => 24,
            Card::Scoring(Scoring::Tree(TreeScoring::SentinelWood26)) => 25,
            Card::Scoring(Scoring::Tree(TreeScoring::Greenbough27)) => 26,
            Card::Scoring(Scoring::Tree(TreeScoring::Treetower28)) => 27,
            Card::Scoring(Scoring::Tree(TreeScoring::StonesideForest29)) => 28,
            Card::Scoring(Scoring::Farm(FarmScoring::CanalLake30)) => 29,
            Card::Scoring(Scoring::Farm(FarmScoring::MagesValley31)) => 30,
            Card::Scoring(Scoring::Farm(FarmScoring::TheGoldenGranary32)) => 31,
            Card::Scoring(Scoring::Farm(FarmScoring::ShoresideExpanse33)) => 32,
            Card::Scoring(Scoring::House(HouseScoring::Wildholds34)) => 33,
            Card::Scoring(Scoring::House(HouseScoring::GreatCity35)) => 34,
            Card::Scoring(Scoring::House(HouseScoring::GreengoldPlains36)) => 35,
            Card::Scoring(Scoring::House(HouseScoring::Shieldgate37)) => 36,
            Card::Scoring(Scoring::Shape(ShapeScoring::Borderlands38)) => 37,
            Card::Scoring(Scoring::Shape(ShapeScoring::LostBarony39)) => 38,
            Card::Scoring(Scoring::Shape(ShapeScoring::TheBrokenRoad40)) => 39,
            Card::Scoring(Scoring::Shape(ShapeScoring::TheCauldrons41)) => 40,
        }
    }

    /// Where this card's front image lives.
    pub open spec fn front_path_spec(self) -> Seq<char> {
        match self {
            Card::DrawableCard(DrawableCard::Ambush(Ambush::GoblinAttack01)) => "textures/cards/ambushes/card_01.png"@,
            Card::DrawableCard(DrawableCard::Ambush(Ambush::BugbearAssault02)) => "textures/cards/ambushes/card_02.png"@,
            Card::DrawableCard(DrawableCard::Ambush(Ambush::KoboldOnslaught03)) => "textures/cards/ambushes/card_03.png"@,
            Card::DrawableCard(DrawableCard::Ambush(Ambush::GnollRaid04)) => "textures/cards/ambushes/card_04.png"@,
            Card::DrawableCard(DrawableCard::Exploration(Exploration::TempleRuins05)) => "textures/cards/explorations/card_05.png"@,
            Card::DrawableCard(DrawableCard::Exploration(Exploration::OutpostRuins06)) => "textures/cards/explorations/card_06.png"@,
            Card::DrawableCard(DrawableCard::Exploration(Exploration::GreatRiver07)) => "textures/cards/explorations/card_07.png"@,
            Card::DrawableCard(DrawableCard::Exploration(Exploration::Farmland08)) => "textures/cards/explorations/card_08.png"@,
            Card::DrawableCard(DrawableCard::Exploration(Exploration::Hamlet09)) => "textures/cards/explorations/card_09.png"@,
            Card::DrawableCard(DrawableCard::Exploration(Exploration::ForgottenForest10)) => "textures/cards/explorations/card_10.png"@,
            Card::DrawableCard(DrawableCard::Exploration(Exploration::HinterlandStream11)) => "textures/cards/explorations/card_11.png"@,
            Card::DrawableCard(DrawableCard::Exploration(Exploration::Homestead12)) => "textures/cards/explorations/card_12.png"@,
            Card::DrawableCard(DrawableCard::Exploration(Exploration::Orchard13)) => "textures/cards/explorations/card_13.png"@,
            Card::DrawableCard(DrawableCard::Exploration(Exploration::TreetopVillage14)) => "textures/cards/explorations/card_14.png"@,
            Card::DrawableCard(DrawableCard::Exploration(Exploration::Marshlands15)) => "textures/cards/explorations/card_15.png"@,
            Card::DrawableCard(DrawableCard::Exploration(Exploration::FishingVillage16)) => "textures/cards/explorations/card_16.png"@,
            Card::DrawableCard(DrawableCard::Exploration(Exploration::RiftLands17)) => "textures/cards/explorations/card_17.png"@,
            Card::Season(Season::Spring18) => "textures/cards/seasons/card_18.png"@,
            Card::Season(Season::Summer19) => "textures/cards/seasons/card_19.png"@,
            Card::Season(Season::Fall20) => "textures/cards/seasons/card_20.png"@,
            Card::Season(Season::Winter21) => "textures/cards/seasons/card_21.png"@,
            Card::Scroll(Scroll::ScrollA22) => "textures/cards/scrolls/card_22.png"@,
            Card::Scroll(Scroll::ScrollB23) => "textures/cards/scrolls/card_23.png"@,
            Card::Scroll(Scroll::ScrollC24) => "textures/cards/scrolls/card_24.png"@,
            Card::Scroll(Scroll::ScrollD25) => "textures/cards/scrolls/card_25.png"@,
            Card::Scoring(Scoring::Tree(TreeScoring::SentinelWood26)) => "textures/cards/scoring/trees/card_26.png"@,
            Card::Scoring(Scoring::Tree(TreeScoring::Greenbough27)) => "textures/cards/scoring/trees/card_27.png"@,
            Card::Scoring(Scoring::Tree(TreeScoring::Treetower28)) => "textures/cards/scoring/trees/card_28.png"@,
            Card::Scoring(Scoring::Tree(TreeScoring::StonesideForest29)) => "textures/cards/scoring/trees/card_29.png"@,
            Card::Scoring(Scoring::Farm(FarmScoring::CanalLake30)) => "textures/cards/scoring/farms/card_30.png"@,
            Card::Scoring(Scoring::Farm(FarmScoring::MagesValley31)) => "textures/cards/scoring/farms/card_31.png"@,
            Card::Scoring(Scoring::Farm(FarmScoring::TheGoldenGranary32)) => "textures/cards/scoring/farms/card_32.png"@,
            Card::Scoring(Scoring::Farm(FarmScoring::ShoresideExpanse33)) => "textures/cards/scoring/farms/card_33.png"@,
            Card::Scoring(Scoring::House(HouseScoring::Wildholds34)) => "textures/cards/scoring/houses/card_34.png"@,
            Card::Scoring(Scoring::House(HouseScoring::GreatCity35)) => "textures/cards/scoring/houses/card_35.png"@,
            Card::Scoring(Scoring::House(HouseScoring::GreengoldPlains36)) => "textures/cards/scoring/houses/card_36.png"@,
            Card::Scoring(Scoring::House(HouseScoring::Shieldgate37)) => "textures/cards/scoring/houses/card_37.png"@,
            Card::Scoring(Scoring::Shape(ShapeScoring::Borderlands38)) => "textures/cards/scoring/shapes/card_38.png"@,
            Card::Scoring(Scoring::Shape(ShapeScoring::LostBarony39)) => "textures/cards/scoring/shapes/card_39.png"@,
            Card::Scoring(Scoring::Shape(ShapeScoring::TheBrokenRoad40)) => "textures/cards/scoring/shapes/card_40.png"@,
            Card::Scoring(Scoring::Shape(ShapeScoring::TheCauldrons41)) => "textures/cards/scoring/shapes/card_41.png"@,
        }
    }

    /// Every card of the deck once, in catalog order, each with the path
    /// of its front image.
    pub fn get_paths() -> (paths: Vec<(Card, String)>)
        ensures
            paths@.len() == 41,
            forall|k: int|
                0 <= k < paths@.len() ==> {
                    &&& (#[trigger] paths@[k]).0.catalog_index_spec() == k
                    &&& paths@[k].1@ == paths@[k].0.front_path_spec()
                },
    {
        let paths: Vec<(Card, String)> = vec![
            (Card::DrawableCard(DrawableCard::Ambush(Ambush::GoblinAttack01)), "textures/cards/ambushes/card_01.png".to_owned()),
            (Card::DrawableCard(DrawableCard::Ambush(Ambush::BugbearAssault02)), "textures/cards/ambushes/card_02.png".to_owned()),
            (Card::DrawableCard(DrawableCard::Ambush(Ambush::KoboldOnslaught03)), "textures/cards/ambushes/card_03.png".to_owned()),
            (Card::DrawableCard(DrawableCard::Ambush(Ambush::GnollRaid04)), "textures/cards/ambushes/card_04.png".to_owned()),
            (Card::DrawableCard(DrawableCard::Exploration(Exploration::TempleRuins05)), "textures/cards/explorations/card_05.png".to_owned()),
            (Card::DrawableCard(DrawableCard::Exploration(Exploration::OutpostRuins06)), "textures/cards/explorations/card_06.png".to_owned()),
            (Card::DrawableCard(DrawableCard::Exploration(Exploration::GreatRiver07)), "textures/cards/explorations/card_07.png".to_owned()),
            (Card::DrawableCard(DrawableCard::Exploration(Exploration::Farmland08)), "textures/cards/explorations/card_08.png".to_owned()),
            (Card::DrawableCard(DrawableCard::Exploration(Exploration::Hamlet09)), "textures/cards/explorations/card_09.png".to_owned()),
            (Card::DrawableCard(DrawableCard::Exploration(Exploration::ForgottenForest10)), "textures/cards/explorations/card_10.png".to_owned()),
            (Card::DrawableCard(DrawableCard::Exploration(Exploration::HinterlandStream11)), "textures/cards/explorations/card_11.png".to_owned()),
            (Card::DrawableCard(DrawableCard::Exploration(Exploration::Homestead12)), "textures/cards/explorations/card_12.png".to_owned()),
            (Card::DrawableCard(DrawableCard::Exploration(Exploration::Orchard13)), "textures/cards/explorations/card_13.png".to_owned()),
            (Card::DrawableCard(DrawableCard::Exploration(Exploration::TreetopVillage14)), "textures/cards/explorations/card_14.png".to_owned()),
            (Card::DrawableCard(DrawableCard::Exploration(Exploration::Marshlands15)), "textures/cards/explorations/card_15.png".to_owned()),
            (Card::DrawableCard(DrawableCard::Exploration(Exploration::FishingVillage16)), "textures/cards/explorations/card_16.png".to_owned()),
            (Card::DrawableCard(DrawableCard::Exploration(Exploration::RiftLands17)), "textures/cards/explorations/card_17.png".to_owned()),
            (Card::Season(Season::Spring18), "textures/cards/seasons/card_18.png".to_owned()),
            (Card::Season(Season::Summer19), "textures/cards/seasons/card_19.png".to_owned()),
            (Card::Season(Season::Fall20), "textures/cards/seasons/card_20.png".to_owned()),
            (Card::Season(Season::Winter21), "textures/cards/seasons/card_21.png".to_owned()),
            (Card::Scroll(Scroll::ScrollA22), "textures/cards/scrolls/card_22.png".to_owned()),
            (Card::Scroll(Scroll::ScrollB23), "textures/cards/scrolls/card_23.png".to_owned()),
            (Card::Scroll(Scroll::ScrollC24), "textures/cards/scrolls/card_24.png".to_owned()),
            (Card::Scroll(Scroll::ScrollD25), "textures/cards/scrolls/card_25.png".to_owned()),
            (Card::Scoring(Scoring::Tree(TreeScoring::SentinelWood26)), "textures/cards/scoring/trees/card_26.png".to_owned()),
            (Card::Scoring(Scoring::Tree(TreeScoring::Greenbough27)), "textures/cards/scoring/trees/card_27.png".to_owned()),
            (Card::Scoring(Scoring::Tree(TreeScoring::Treetower28)), "textures/cards/scoring/trees/card_28.png".to_owned()),
            (Card::Scoring(Scoring::Tree(TreeScoring::StonesideForest29)), "textures/cards/scoring/trees/card_29.png".to_owned()),
            (Card::Scoring(Scoring::Farm(FarmScoring::CanalLake30)), "textures/cards/scoring/farms/card_30.png".to_owned()),
            (Card::Scoring(Scoring::Farm(FarmScoring::MagesValley31)), "textures/cards/scoring/farms/card_31.png".to_owned()),
            (Card::Scoring(Scoring::Farm(FarmScoring::TheGoldenGranary32)), "textures/cards/scoring/farms/card_32.png".to_owned()),
            (Card::Scoring(Scoring::Farm(FarmScoring::ShoresideExpanse33)), "textures/cards/scoring/farms/card_33.png".to_owned()),
            (Card::Scoring(Scoring::House(HouseScoring::Wildholds34)), "textures/cards/scoring/houses/card_34.png".to_owned()),
            (Card::Scoring(Scoring::House(HouseScoring::GreatCity35)), "textures/cards/scoring/houses/card_35.png".to_owned()),
            (Card::Scoring(Scoring::House(HouseScoring::GreengoldPlains36)), "textures/cards/scoring/houses/card_36.png".to_owned()),
            (Card::Scoring(Scoring::House(HouseScoring::Shieldgate37)), "textures/cards/scoring/houses/card_37.png".to_owned()),
            (Card::Scoring(Scoring::Shape(ShapeScoring::Borderlands38)), "textures/cards/scoring/shapes/card_38.png".to_owned()),
            (Card::Scoring(Scoring::Shape(ShapeScoring::LostBarony39)), "textures/cards/scoring/shapes/card_39.png".to_owned()),
            (Card::Scoring(Scoring::Shape(ShapeScoring::TheBrokenRoad40)), "textures/cards/scoring/shapes/card_40.png".to_owned()),
            (Card::Scoring(Scoring::Shape(ShapeScoring::TheCauldrons41)), "textures/cards/scoring/shapes/card_41.png".to_owned()),
        ];
        assert(forall|k: int|
            0 <= k < paths@.len() ==> {
                &&& (#[trigger] paths@[k]).0.catalog_index_spec() == k
                &&& paths@[k].1@ == paths@[k].0.front_path_spec()
            });
        paths
    }
}

} // verus!
