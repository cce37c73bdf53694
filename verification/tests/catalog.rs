use tile_realm::creature::{Creature, CreatureKind};
use tile_realm::decal::{Decal, DecalKind};
use tile_realm::level::{Level, LevelBiome};

const ALL_BIOMES: [LevelBiome; 6] = [
    LevelBiome::Desert,
    LevelBiome::Grass,
    LevelBiome::Ice,
    LevelBiome::Marsh,
    LevelBiome::Snow,
    LevelBiome::Space,
];

#[test]
fn every_profile_is_populated() {
    for biome in ALL_BIOMES {
        let p = Level::set_biome(&biome);
        assert!(p.tile_image_count >= 1);
        assert!(!p.creature_categories.is_empty());
        assert!(!p.decal_categories.is_empty());
    }
}

#[test]
fn profile_folders_are_exact() {
    assert_eq!(Level::set_biome(&LevelBiome::Desert).tile_folder, "img/biomes/desert/");
    assert_eq!(Level::set_biome(&LevelBiome::Grass).tile_folder, "img/biomes/grass/");
    assert_eq!(Level::set_biome(&LevelBiome::Ice).tile_folder, "img/biomes/ice/");
    assert_eq!(Level::set_biome(&LevelBiome::Marsh).tile_folder, "img/biomes/marsh/");
    assert_eq!(Level::set_biome(&LevelBiome::Snow).tile_folder, "img/biomes/snow/");
    assert_eq!(Level::set_biome(&LevelBiome::Space).tile_folder, "img/biomes/space/");
}

#[test]
fn profile_tile_counts_are_exact() {
    assert_eq!(Level::set_biome(&LevelBiome::Desert).tile_image_count, 10);
    assert_eq!(Level::set_biome(&LevelBiome::Grass).tile_image_count, 9);
    assert_eq!(Level::set_biome(&LevelBiome::Ice).tile_image_count, 6);
    assert_eq!(Level::set_biome(&LevelBiome::Marsh).tile_image_count, 14);
    assert_eq!(Level::set_biome(&LevelBiome::Snow).tile_image_count, 6);
    assert_eq!(Level::set_biome(&LevelBiome::Space).tile_image_count, 14);
}

#[test]
fn profile_categories_are_exact() {
    let desert = Level::set_biome(&LevelBiome::Desert);
    assert_eq!(
        desert.decal_categories,
        vec![DecalKind::Bones, DecalKind::Cactus, DecalKind::DeadVegetation, DecalKind::Rock]
    );
    assert_eq!(
        desert.creature_categories,
        vec![
            CreatureKind::Bobcat,
            CreatureKind::Pelican,
            CreatureKind::Skeleton,
            CreatureKind::Slime,
            CreatureKind::Wolf
        ]
    );
    let ice = Level::set_biome(&LevelBiome::Ice);
    assert_eq!(ice.decal_categories, vec![DecalKind::Rock]);
    let space = Level::set_biome(&LevelBiome::Space);
    assert_eq!(space.decal_categories, vec![DecalKind::Asteroid, DecalKind::Planet]);
    assert_eq!(
        space.creature_categories,
        vec![CreatureKind::AlienCreeper, CreatureKind::RoboticProbe]
    );
}

#[test]
fn decal_variant_maxima_are_exact() {
    assert_eq!(Decal::get_decal_type_max(DecalKind::Asteroid), 6);
    assert_eq!(Decal::get_decal_type_max(DecalKind::Bones), 3);
    assert_eq!(Decal::get_decal_type_max(DecalKind::Cactus), 5);
    assert_eq!(Decal::get_decal_type_max(DecalKind::DeadVegetation), 1);
    assert_eq!(Decal::get_decal_type_max(DecalKind::Egg), 1);
    assert_eq!(Decal::get_decal_type_max(DecalKind::Flower), 2);
    assert_eq!(Decal::get_decal_type_max(DecalKind::Leaves), 1);
    assert_eq!(Decal::get_decal_type_max(DecalKind::Mushroom), 5);
    assert_eq!(Decal::get_decal_type_max(DecalKind::Planet), 14);
    assert_eq!(Decal::get_decal_type_max(DecalKind::Plant), 14);
    assert_eq!(Decal::get_decal_type_max(DecalKind::Rock), 4);
}

#[test]
fn creature_variant_maximum_is_one() {
    assert_eq!(Creature::get_creature_type_max(CreatureKind::Bobcat), 1);
    assert_eq!(Creature::get_creature_type_max(CreatureKind::RoboticProbe), 1);
}

#[test]
fn category_names_are_exact() {
    assert_eq!(DecalKind::Rock.name(), "rock_");
    assert_eq!(DecalKind::DeadVegetation.name(), "dead_vegetation_");
    assert_eq!(DecalKind::Asteroid.name(), "asteroid_");
    assert_eq!(CreatureKind::Bobcat.name(), "bobcat_");
    assert_eq!(CreatureKind::AlienCreeper.name(), "alien_creeper_");
}
