use tile_realm::level::{Level, LevelBiome};

#[test]
fn change_preserves_geometry_and_counts() {
    let mut lvl = Level::new(LevelBiome::Grass);
    let tile_cells: Vec<(u32, u32)> = lvl.tiles.iter().map(|t| (t.x, t.y)).collect();
    let decal_cells: Vec<(u32, u32)> = lvl.decals.iter().map(|d| (d.x, d.y)).collect();
    let creature_cells = lvl.get_creature_positions();

    lvl.change(LevelBiome::Marsh);

    assert_eq!(lvl.tiles.len(), tile_cells.len());
    assert_eq!(lvl.decals.len(), decal_cells.len());
    assert_eq!(lvl.creatures.len(), creature_cells.len());
    for (t, cell) in lvl.tiles.iter().zip(tile_cells.iter()) {
        assert_eq!((t.x, t.y), *cell);
    }
    for (d, cell) in lvl.decals.iter().zip(decal_cells.iter()) {
        assert_eq!((d.x, d.y), *cell);
    }
    assert_eq!(lvl.get_creature_positions(), creature_cells);
}

#[test]
fn change_rerolls_every_image_into_the_new_biome() {
    let mut lvl = Level::new(LevelBiome::Grass);
    lvl.change(LevelBiome::Space);
    for t in &lvl.tiles {
        assert!(t.img.starts_with("img/biomes/space/"));
    }
    for d in &lvl.decals {
        assert!(
            d.img.starts_with("img/decals/asteroid_") || d.img.starts_with("img/decals/planet_"),
            "unexpected decal image {}",
            d.img
        );
    }
    for c in &lvl.creatures {
        assert!(
            c.img == "img/creatures/alien_creeper_1.png"
                || c.img == "img/creatures/robotic_probe_1.png",
            "unexpected creature image {}",
            c.img
        );
    }
}

#[test]
fn end_to_end_grass_to_ice() {
    let mut lvl = Level::new(LevelBiome::Grass);
    lvl.change(LevelBiome::Ice);
    assert_eq!(lvl.tiles.len(), 484);
    for t in &lvl.tiles {
        assert!(t.img.starts_with("img/biomes/ice/"), "tile image {} not in ice folder", t.img);
    }
    assert!(matches!(lvl.get_biome(), LevelBiome::Ice));
}

#[test]
fn change_to_single_variant_category_always_picks_one() {
    // The ice biome scatters only rocks; a reroll samples the rock variants
    // 1 through 4 inclusive.
    let mut lvl = Level::new(LevelBiome::Grass);
    lvl.change(LevelBiome::Ice);
    for d in &lvl.decals {
        let rest = d.img.strip_prefix("img/decals/rock_").expect("ice decals are rocks");
        let v: u32 = rest.strip_suffix(".png").unwrap().parse().unwrap();
        assert!((1..=4).contains(&v));
    }
}
