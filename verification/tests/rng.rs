use tile_realm::utils::random;

#[test]
fn random_degenerate_one_yields_one() {
    assert_eq!(random(1, 1), 1);
}

#[test]
fn random_degenerate_range_yields_bound() {
    assert_eq!(random(0, 0), 0);
    assert_eq!(random(7, 7), 7);
    assert_eq!(random(22, 22), 22);
    assert_eq!(random(4294967295, 4294967295), 4294967295);
}

#[test]
fn random_stays_in_half_open_range() {
    for _ in 0..2000 {
        let r = random(35, 45);
        assert!((35..45).contains(&r));
    }
    for _ in 0..2000 {
        let r = random(0, 22);
        assert!(r < 22);
    }
    for _ in 0..200 {
        let r = random(5, 6);
        assert_eq!(r, 5);
    }
}

#[test]
fn random_reaches_both_ends() {
    let mut seen_low = false;
    let mut seen_high = false;
    for _ in 0..5000 {
        let r = random(1, 4);
        if r == 1 {
            seen_low = true;
        }
        if r == 3 {
            seen_high = true;
        }
    }
    assert!(seen_low && seen_high);
}
