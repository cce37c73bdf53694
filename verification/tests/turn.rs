use std::collections::HashSet;
use tile_realm::creature::Creature;
use tile_realm::level::{step_creature, Level, LevelBiome};

#[test]
fn creature_proposes_one_of_its_neighbours() {
    let c = Creature::new(5, 5, String::from("img/creatures/wolf_1.png"));
    for _ in 0..200 {
        let (nx, ny) = c.next_turn();
        assert!(nx >= 4 && nx <= 6 && ny >= 4 && ny <= 6);
        assert!((nx, ny) != (5, 5));
    }
}

#[test]
fn creature_at_origin_rejects_underflowing_moves() {
    let c = Creature::new(0, 0, String::from("img/creatures/wolf_1.png"));
    for _ in 0..200 {
        let (nx, ny) = c.next_turn();
        assert!(
            (nx, ny) == (0, 0) || (nx, ny) == (1, 0) || (nx, ny) == (0, 1) || (nx, ny) == (1, 1),
            "unexpected proposal ({},{})",
            nx,
            ny
        );
    }
}

#[test]
fn surrounded_creature_stays_in_place() {
    // The creature at (5,5) sits in slot 8; all eight neighbours are taken.
    let neighbours = [
        (4u32, 4u32),
        (5, 4),
        (6, 4),
        (4, 5),
        (6, 5),
        (4, 6),
        (5, 6),
        (6, 6),
    ];
    let mut positions: Vec<(u32, u32)> = neighbours.to_vec();
    positions.push((5, 5));
    for proposal in neighbours {
        let before = positions.clone();
        let accepted = step_creature(&mut positions, 8, proposal);
        assert_eq!(accepted, (5, 5));
        assert_eq!(positions, before);
    }
}

#[test]
fn unblocked_step_moves_the_creature() {
    let mut positions: Vec<(u32, u32)> = vec![(5, 5), (9, 9)];
    let accepted = step_creature(&mut positions, 0, (5, 6));
    assert_eq!(accepted, (5, 6));
    assert_eq!(positions, vec![(5, 6), (9, 9)]);
}

#[test]
fn step_onto_an_occupied_cell_is_rejected() {
    let mut positions: Vec<(u32, u32)> = vec![(5, 5), (5, 6)];
    let accepted = step_creature(&mut positions, 0, (5, 6));
    assert_eq!(accepted, (5, 5));
    assert_eq!(positions, vec![(5, 5), (5, 6)]);
}

#[test]
fn level_turns_keep_creatures_apart() {
    let mut lvl = Level::new(LevelBiome::Desert);
    for _ in 0..25 {
        let before = lvl.get_creature_positions();
        lvl.next_turn();
        let after = lvl.get_creature_positions();
        assert_eq!(before.len(), after.len());
        let distinct: HashSet<_> = after.iter().collect();
        assert_eq!(distinct.len(), after.len(), "two creatures share a cell");
        for (b, a) in before.iter().zip(after.iter()) {
            let dx = (a.0 as i64 - b.0 as i64).abs();
            let dy = (a.1 as i64 - b.1 as i64).abs();
            assert!(dx <= 1 && dy <= 1, "creature jumped from {:?} to {:?}", b, a);
        }
    }
}
