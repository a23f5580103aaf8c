use space_craft::colour::Colour;
use space_craft::pixels::{Pixel, PixelVariant};

#[test]
fn default_pixels_describe_their_variant() {
    let dirt = Pixel::default_from_variant(PixelVariant::Dirt);
    assert_eq!(dirt.get_name(), "Dirt");
    assert_eq!(dirt.get_description(), "Some dirt with no life in it");
    assert_eq!(dirt.get_colour(), Colour::Permille(300, 250, 0));
    assert_eq!(dirt.get_variant(), PixelVariant::Dirt);

    let copper = Pixel::from(PixelVariant::Copper);
    assert_eq!(copper.get_name(), "Copper");
    assert_eq!(copper.get_colour(), Colour::Permille(600, 250, 50));

    let engine = Pixel::default_from_variant(PixelVariant::PlayerLargeEngineDecoration);
    assert_eq!(engine.get_name(), "Player Engine");
    assert_eq!(engine.get_colour(), Colour::red());

    let steel = Pixel::default_from_variant(PixelVariant::PlayerSteel);
    assert_eq!(steel.get_description(), "Steel used in the construction of the MainPlayer");
    assert_eq!(steel.get_colour(), Colour::silver());
}

#[test]
fn special_pixels_keep_their_data() {
    let raw = PixelVariant::Lead.get_default_pixel();
    let special = Pixel::from_raw(raw.clone());
    assert_eq!(special.get_name(), "Lead");
    assert_eq!(special.get_variant(), PixelVariant::Lead);
    assert_eq!(Pixel::from_raw(special.get_raw()).get_name(), "Lead");
}

#[test]
fn variant_information() {
    let copper = PixelVariant::Copper.get_variant_info();
    assert!(copper.is_player_mineable());
    assert_eq!(copper.collectable.unwrap().amount_multiplier, 5);
    assert_eq!(copper.naturally_spawning.unwrap().frequency, 150);

    let dirt = PixelVariant::Dirt.get_variant_info();
    assert!(!dirt.is_player_mineable());
    assert!(dirt.collectable.is_none());

    assert!(PixelVariant::PlayerSteel.get_variant_info().naturally_spawning.is_none());
}

#[test]
fn natural_frequencies() {
    assert_eq!(Pixel::default_from_variant(PixelVariant::Dirt).get_natural_frequency(), Some(1000));
    assert_eq!(Pixel::default_from_variant(PixelVariant::Lead).get_natural_frequency(), Some(3));
    assert_eq!(Pixel::default_from_variant(PixelVariant::PlayerSteel).get_natural_frequency(), None);
    let special = Pixel::from_raw(PixelVariant::Copper.get_default_pixel());
    assert_eq!(special.get_natural_frequency(), Some(150));
    assert_eq!(special.get_variant_info().naturally_spawning.unwrap().frequency, 150);
}

#[test]
fn natural_pool_lists_spawning_variants_in_order() {
    let pool = PixelVariant::natural_pool();
    let summary: Vec<(PixelVariant, u16)> = pool.iter().map(|(v, n)| (*v, n.frequency)).collect();
    assert_eq!(
        summary,
        vec![(PixelVariant::Dirt, 1000), (PixelVariant::Copper, 150), (PixelVariant::Lead, 3)]
    );
}

#[test]
fn mineable_variants() {
    assert_eq!(PixelVariant::get_mineable_variants(), vec![PixelVariant::Copper, PixelVariant::Lead]);
}

#[test]
fn all_variants_in_order() {
    assert_eq!(
        PixelVariant::iter(),
        vec![
            PixelVariant::Dirt,
            PixelVariant::Copper,
            PixelVariant::Lead,
            PixelVariant::PlayerSteel,
            PixelVariant::PlayerLargeEngineDecoration,
        ]
    );
}

#[test]
fn cloned_pixels_are_equal_in_content() {
    let p = Pixel::default_from_variant(PixelVariant::Copper);
    let q = p.clone();
    assert_eq!(q.get_name(), p.get_name());
    assert_eq!(q.get_variant(), p.get_variant());
}
