use cartographers::assets::{generate_choices, TerrainImages};
use cartographers::cards::{
    tile_sets, Ambush, Card, DrawableCard, Exploration, Scoring, TreeScoring,
};
use cartographers::image::Image;
use cartographers::terrain::{Choice, Terrain};

/// One 1x1 image per terrain kind; the single pixel encodes the catalog
/// position so composites can be told apart.
fn terrain_images() -> TerrainImages {
    let mut images = Vec::new();
    for k in 0..7u8 {
        images.push(Image { width: 1, height: 1, pixel_size: 1, format: 3, data: vec![k + 1] });
    }
    TerrainImages::new(images, 3).expect("uniform images are well formed")
}

#[test]
fn terrain_images_new_rejects_mixed_formats() {
    let mut images = Vec::new();
    for k in 0..7u8 {
        images.push(Image { width: 1, height: 1, pixel_size: 1, format: k as u32, data: vec![0] });
    }
    assert!(TerrainImages::new(images, 3).is_none());
}

#[test]
fn rift_lands_offers_every_terrain_on_one_tile() {
    let ti = terrain_images();
    let card = DrawableCard::Exploration(Exploration::RiftLands17);
    let choices = card.generate_choices(&ti);
    let expected = [
        Terrain::Forest,
        Terrain::Village,
        Terrain::Farm,
        Terrain::Water,
        Terrain::Monster,
    ];
    assert_eq!(choices.len(), 5);
    for (choice, expected_terrain) in choices.iter().zip(expected) {
        assert_eq!(choice.terrain, expected_terrain);
        assert_eq!(choice.tiles, vec![(0, 0)]);
        assert!(!choice.with_coin);
        // A single tile: the composite is the base tile itself.
        assert_eq!(choice.image.width, 1);
        assert_eq!(choice.image.height, 1);
        assert_eq!(choice.image.data, vec![expected_terrain.index() as u8 + 1]);
    }
}

#[test]
fn great_river_offers_coin_and_large_variant() {
    let ti = terrain_images();
    let card = DrawableCard::Exploration(Exploration::GreatRiver07);
    let choices = card.generate_choices(&ti);
    assert_eq!(choices.len(), 2);
    assert_eq!(choices[0].terrain, Terrain::Water);
    assert_eq!(choices[0].tiles, vec![(0, 0), (1, 0), (2, 0)]);
    assert!(choices[0].with_coin);
    assert_eq!(choices[0].image.width, 1);
    assert_eq!(choices[0].image.height, 3);
    assert_eq!(choices[1].tiles, vec![(0, 0), (0, 1), (1, 1), (1, 2), (2, 2)]);
    assert!(!choices[1].with_coin);
    assert_eq!(choices[1].image.width, 3);
    assert_eq!(choices[1].image.height, 3);
}

#[test]
fn narrative_cards_offer_no_choices() {
    let ti = terrain_images();
    assert!(DrawableCard::Exploration(Exploration::TempleRuins05).generate_choices(&ti).is_empty());
    assert!(DrawableCard::Exploration(Exploration::OutpostRuins06).generate_choices(&ti).is_empty());
}

#[test]
fn ambush_cards_stamp_monsters() {
    let ti = terrain_images();
    let choices = DrawableCard::Ambush(Ambush::GoblinAttack01).generate_choices(&ti);
    assert_eq!(choices.len(), 1);
    assert_eq!(choices[0].terrain, Terrain::Monster);
    assert_eq!(choices[0].tiles, vec![(2, 0), (1, 1), (0, 2)]);
}

#[test]
fn composite_respects_row_inversion_for_vertical_shape() {
    // Farmland's coin variant is a vertical domino {(0,0),(1,0)}: local row
    // 1 must render in the top pixel band.
    let ti = terrain_images();
    let choices = DrawableCard::Exploration(Exploration::Farmland08).generate_choices(&ti);
    let farm_pixel = Terrain::Farm.index() as u8 + 1;
    assert_eq!(choices[0].tiles, vec![(0, 0), (1, 0)]);
    assert_eq!(choices[0].image.data, vec![farm_pixel, farm_pixel]);
    // The larger variant has gaps that stay transparent.
    let plus = &choices[1];
    assert_eq!(plus.tiles, vec![(0, 1), (1, 0), (1, 1), (1, 2), (2, 1)]);
    assert_eq!(plus.image.width, 3);
    assert_eq!(plus.image.height, 3);
    // Rows top to bottom: local row 2, then 1, then 0.
    assert_eq!(
        plus.image.data,
        vec![0, farm_pixel, 0, farm_pixel, farm_pixel, farm_pixel, 0, farm_pixel, 0]
    );
}

#[test]
fn choices_table_covers_every_drawable_card() {
    let ti = terrain_images();
    let table = generate_choices(&ti);
    assert_eq!(table.0.len(), 17);
    let rift = table.get(&DrawableCard::Exploration(Exploration::RiftLands17));
    assert_eq!(rift.len(), 5);
    let temple = table.get(&DrawableCard::Exploration(Exploration::TempleRuins05));
    assert!(temple.is_empty());
    let goblins = table.get(&DrawableCard::Ambush(Ambush::GoblinAttack01));
    assert_eq!(goblins.len(), 1);
}

#[test]
fn tile_sets_match_the_rules_booklet() {
    let sets = tile_sets(&DrawableCard::Exploration(Exploration::FishingVillage16));
    assert_eq!(sets.len(), 1);
    assert_eq!(sets[0].0, vec![(0, 0), (0, 1), (0, 2), (0, 3)]);
    assert!(!sets[0].1);
    let sets = tile_sets(&DrawableCard::Ambush(Ambush::GnollRaid04));
    assert_eq!(sets[0].0, vec![(0, 0), (1, 0), (2, 0), (0, 1), (2, 1)]);
}

#[test]
fn drawable_card_listing_is_complete_and_ordered() {
    let all = DrawableCard::all();
    assert_eq!(all.len(), 17);
    assert_eq!(all[0], DrawableCard::Ambush(Ambush::GoblinAttack01));
    assert_eq!(all[16], DrawableCard::Exploration(Exploration::RiftLands17));
    for (k, card) in all.iter().enumerate() {
        assert_eq!(card.index(), k);
    }
}

#[test]
fn card_from_wraps_the_variant() {
    let card = Card::from(DrawableCard::Ambush(Ambush::BugbearAssault02));
    assert_eq!(card, Card::DrawableCard(DrawableCard::Ambush(Ambush::BugbearAssault02)));
    let scoring = Card::from(Scoring::Tree(TreeScoring::SentinelWood26));
    assert_eq!(scoring, Card::Scoring(Scoring::Tree(TreeScoring::SentinelWood26)));
}

#[test]
fn terrain_file_paths() {
    assert_eq!(Terrain::Forest.get_file_path(), "textures/terrain/forest.png");
    assert_eq!(Terrain::Empty.get_file_path(), "textures/terrain/none.png");
    assert_eq!(Terrain::Mountain.get_file_path(), "textures/terrain/mountain.png");
}

#[test]
fn terrain_default_is_unoccupied() {
    assert_eq!(Terrain::default(), Terrain::Empty);
}

#[test]
fn choice_size_scales_the_bounding_box() {
    let choice = Choice {
        terrain: Terrain::Forest,
        image: Image { width: 1, height: 1, pixel_size: 1, format: 0, data: vec![0] },
        tiles: vec![(0, 0), (0, 1), (1, 1)],
        with_coin: false,
    };
    assert_eq!(choice.size((16, 24)), (32, 48));
    let single = Choice {
        terrain: Terrain::Forest,
        image: Image { width: 1, height: 1, pixel_size: 1, format: 0, data: vec![0] },
        tiles: vec![(0, 0)],
        with_coin: false,
    };
    assert_eq!(single.size((16, 24)), (16, 24));
}

#[test]
fn get_paths_lists_every_card_front() {
    let paths = Card::get_paths();
    assert_eq!(paths.len(), 41);
    assert_eq!(
        paths[0],
        (
            Card::DrawableCard(DrawableCard::Ambush(Ambush::GoblinAttack01)),
            "textures/cards/ambushes/card_01.png".to_owned()
        )
    );
    assert_eq!(
        paths[4].1,
        "textures/cards/explorations/card_05.png".to_owned()
    );
    assert_eq!(paths[17].0, Card::Season(cartographers::cards::Season::Spring18));
    assert_eq!(paths[40].1, "textures/cards/scoring/shapes/card_41.png".to_owned());
}
