use std::collections::HashSet;
use tile_realm::level::{Level, LevelBiome};

fn variant_of(path: &str, prefix: &str, suffix: &str) -> u32 {
    assert!(path.starts_with(prefix), "{} does not start with {}", path, prefix);
    assert!(path.ends_with(suffix), "{} does not end with {}", path, suffix);
    path[prefix.len()..path.len() - suffix.len()].parse().unwrap()
}

#[test]
fn level_always_has_484_tiles_in_grid_order() {
    let lvl = Level::new(LevelBiome::Grass);
    assert_eq!(lvl.tiles.len(), 484);
    for (i, t) in lvl.tiles.iter().enumerate() {
        assert_eq!(t.x as usize, i / 22);
        assert_eq!(t.y as usize, i % 22);
    }
}

#[test]
fn tile_variants_stay_in_range() {
    let lvl = Level::new(LevelBiome::Grass);
    for t in &lvl.tiles {
        let v = variant_of(&t.img, "img/biomes/grass/", ".png");
        assert!((1..9).contains(&v), "variant {} out of range", v);
    }
}

#[test]
fn scatter_counts_stay_under_the_requested_bounds() {
    for _ in 0..5 {
        let lvl = Level::new(LevelBiome::Marsh);
        assert!(lvl.decals.len() <= 44);
        assert!(lvl.creatures.len() <= 11);
    }
}

#[test]
fn no_two_scatter_objects_share_a_cell() {
    for _ in 0..5 {
        let lvl = Level::new(LevelBiome::Desert);
        let mut cells = HashSet::new();
        for d in &lvl.decals {
            assert!(d.x < 22 && d.y < 22);
            assert!(cells.insert((d.x, d.y)), "cell ({},{}) used twice", d.x, d.y);
        }
        for c in &lvl.creatures {
            assert!(c.x < 22 && c.y < 22);
            assert!(cells.insert((c.x, c.y)), "cell ({},{}) used twice", c.x, c.y);
        }
    }
}

#[test]
fn decal_images_come_from_the_biome_catalog() {
    let lvl = Level::new(LevelBiome::Grass);
    let allowed: [(&str, u32); 4] = [("flower_", 2), ("plant_", 14), ("mushroom_", 5), ("rock_", 4)];
    for d in &lvl.decals {
        let rest = d.img.strip_prefix("img/decals/").expect("decal image outside decal folder");
        let (category, max) = allowed
            .iter()
            .find(|(name, _)| rest.starts_with(name))
            .expect("unknown decal category");
        let v = variant_of(&d.img, &format!("img/decals/{}", category), ".png");
        assert!(v == 1 || v < *max, "variant {} too large for {}", v, category);
    }
}

#[test]
fn creature_images_come_from_the_biome_catalog() {
    let lvl = Level::new(LevelBiome::Space);
    for c in &lvl.creatures {
        assert!(
            c.img == "img/creatures/alien_creeper_1.png"
                || c.img == "img/creatures/robotic_probe_1.png",
            "unexpected creature image {}",
            c.img
        );
    }
}

#[test]
fn fresh_level_is_not_yet_spawned() {
    let lvl = Level::new(LevelBiome::Snow);
    assert!(lvl.tiles.iter().all(|t| !t.initialized && t.entity == 0));
    assert!(lvl.decals.iter().all(|d| !d.initialized && d.entity == 0));
    assert!(lvl.creatures.iter().all(|c| !c.initialized && c.entity == 0));
    assert!(matches!(lvl.get_biome(), LevelBiome::Snow));
}
