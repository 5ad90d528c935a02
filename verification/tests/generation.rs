use bomber_core::utils::generate_hero;

#[test]
fn test_generate_hero_deterministic() {
    let owner = [7u8; 32];
    let a = generate_hero(3, 1_700_000_000, 42, owner, 11).unwrap();
    let b = generate_hero(3, 1_700_000_000, 42, owner, 11).unwrap();
    assert_eq!(a, b);
}

#[test]
fn test_generate_hero_respects_rarity_ranges() {
    for i in 0..32u64 {
        let mut owner = [0u8; 32];
        owner[0] = i as u8;
        owner[31] = (i * 13) as u8;
        let hero = generate_hero(i as u16, 1_700_000_000 + i as i64, i * 7, owner, i).unwrap();

        let (stat_min, stat_max) = hero.rarity.stat_range();
        assert!(stat_min <= hero.power && hero.power <= stat_max);
        assert!(stat_min <= hero.speed && hero.speed <= stat_max);
        assert!(stat_min <= hero.stamina && hero.stamina <= stat_max);

        let (bomb_min, bomb_max) = hero.rarity.bomb_count_range();
        assert!(bomb_min <= hero.bomb_number && hero.bomb_number <= bomb_max);

        let (range_min, range_max) = hero.rarity.bomb_range_range();
        assert!(range_min <= hero.bomb_range && hero.bomb_range <= range_max);

        assert!(1 <= hero.skin_id && hero.skin_id <= 9);
        assert_eq!(hero.hp, hero.max_hp);
        assert_eq!(hero.max_stamina, hero.stamina);
        assert_eq!(hero.id, i as u16);
        assert_eq!(hero.last_action_time, 1_700_000_000 + i as i64);
    }
}

#[test]
fn test_generate_hero_hp_scales_with_stats() {
    let owner = [9u8; 32];
    let hero = generate_hero(0, 123_456, 1, owner, 0).unwrap();
    let stat_sum = hero.power + hero.speed + hero.stamina;
    // The hp multiplier is between 2 and 5 depending on rarity.
    assert!(hero.max_hp >= stat_sum * 2);
    assert!(hero.max_hp <= stat_sum * 5);
    assert_eq!(hero.max_hp % stat_sum, 0);
}

#[test]
fn test_generate_hero_owner_changes_seed() {
    // Two owners differing in one byte should (for this input) give
    // different heroes: the identity bytes feed the seed fold.
    let a = generate_hero(0, 1_700_000_000, 0, [0u8; 32], 0).unwrap();
    let b = generate_hero(0, 1_700_000_000, 0, [255u8; 32], 0).unwrap();
    assert_ne!(a, b);
}
