use bomber_core::errors::GameError;
use bomber_core::ops::{
    bulk_place_heroes, initialize_global_state, place_hero_on_grid, purchase_initial_house,
    remove_hero_from_grid, start_game, toggle_house_upgrades, toggle_pause, upgrade_house,
    HeroPlacement,
};
use bomber_core::state::{GlobalState, Hero, HeroRarity, UserAccount};

fn fresh_global() -> GlobalState {
    let mut gs = initialize_global_state(
        [1u8; 32],
        [2u8; 32],
        [3u8; 32],
        0,
        10,
        1_000_000,
        0,
        0,
        1,
    )
    .unwrap();
    start_game(&mut gs, 0).unwrap();
    gs
}

fn bench_hero(id: u16) -> Hero {
    Hero {
        id,
        skin_id: 1,
        rarity: HeroRarity::Common,
        power: 10,
        speed: 10,
        stamina: 10,
        max_stamina: 10,
        bomb_number: 1,
        bomb_range: 2,
        hp: 100,
        max_hp: 100,
        last_action_time: 0,
    }
}

fn user_with_heroes(gs: &mut GlobalState, n: u16) -> UserAccount {
    let mut ua = purchase_initial_house(gs, [5u8; 32]).unwrap();
    for id in 0..n {
        ua.inventory.push(bench_hero(id));
    }
    ua
}

#[test]
fn test_place_hero_on_grid() {
    let mut gs = fresh_global();
    let mut ua = user_with_heroes(&mut gs, 2);

    assert_eq!(
        place_hero_on_grid(&gs, &mut ua, 9, 0, 0, false, 50).unwrap_err(),
        GameError::InvalidHeroIndex
    );
    assert_eq!(
        place_hero_on_grid(&gs, &mut ua, 0, 4, 0, false, 50).unwrap_err(),
        GameError::InvalidGridCoordinates
    );

    place_hero_on_grid(&gs, &mut ua, 0, 1, 1, false, 50).unwrap();
    assert_eq!(ua.house_occupied_coords.len(), 1);
    assert_eq!(ua.house_occupied_coords[0].hero_id, 0);
    assert_eq!(ua.inventory[0].last_action_time, 50);

    // The tile is taken now.
    assert_eq!(
        place_hero_on_grid(&gs, &mut ua, 1, 1, 1, false, 51).unwrap_err(),
        GameError::GridPositionOccupied
    );
    // The hero cannot be placed twice.
    assert_eq!(
        place_hero_on_grid(&gs, &mut ua, 0, 2, 2, false, 51).unwrap_err(),
        GameError::HeroAlreadyOnMap
    );
}

#[test]
fn test_remove_hero_from_grid() {
    let mut gs = fresh_global();
    let mut ua = user_with_heroes(&mut gs, 1);
    place_hero_on_grid(&gs, &mut ua, 0, 2, 3, false, 10).unwrap();

    assert_eq!(
        remove_hero_from_grid(&gs, &mut ua, 9, 9).unwrap_err(),
        GameError::InvalidGridCoordinates
    );
    assert_eq!(remove_hero_from_grid(&gs, &mut ua, 0, 0).unwrap_err(), GameError::GridPositionEmpty);

    remove_hero_from_grid(&gs, &mut ua, 2, 3).unwrap();
    assert!(ua.house_occupied_coords.is_empty());
}

#[test]
fn test_restroom_capacity() {
    let mut gs = fresh_global();
    let mut ua = user_with_heroes(&mut gs, 6);
    // Level 1 allows 4 restroom slots.
    for i in 0..4u16 {
        place_hero_on_grid(&gs, &mut ua, i, i as u8, 0, true, 10).unwrap();
    }
    assert_eq!(
        place_hero_on_grid(&gs, &mut ua, 4, 0, 1, true, 10).unwrap_err(),
        GameError::RestroomFull
    );
    // A bench placement still succeeds.
    place_hero_on_grid(&gs, &mut ua, 4, 0, 1, false, 10).unwrap();
}

#[test]
fn test_bulk_place_success() {
    let mut gs = fresh_global();
    let mut ua = user_with_heroes(&mut gs, 3);
    let placements = vec![
        HeroPlacement { hero_index: 0, x: 0, y: 0, is_restroom: false },
        HeroPlacement { hero_index: 1, x: 1, y: 0, is_restroom: true },
        HeroPlacement { hero_index: 2, x: 2, y: 0, is_restroom: false },
    ];
    bulk_place_heroes(&gs, &mut ua, placements, 99).unwrap();
    assert_eq!(ua.house_occupied_coords.len(), 3);
    for h in 0..3usize {
        assert_eq!(ua.inventory[h].last_action_time, 99);
    }
    assert!(ua.house_occupied_coords[1].is_restroom);
}

#[test]
fn test_bulk_place_atomicity() {
    let mut gs = fresh_global();
    let mut ua = user_with_heroes(&mut gs, 3);
    place_hero_on_grid(&gs, &mut ua, 2, 3, 3, false, 5).unwrap();
    let before = ua.clone();

    // The second placement's coordinate is outside the 4x4 grid, so the
    // whole batch must be rejected with no partial effect.
    let placements = vec![
        HeroPlacement { hero_index: 0, x: 0, y: 0, is_restroom: false },
        HeroPlacement { hero_index: 1, x: 7, y: 0, is_restroom: false },
    ];
    assert_eq!(
        bulk_place_heroes(&gs, &mut ua, placements, 99).unwrap_err(),
        GameError::InvalidGridCoordinates
    );
    assert_eq!(ua, before);

    // A batch colliding with an existing tile is rejected whole as well.
    let placements = vec![
        HeroPlacement { hero_index: 0, x: 0, y: 0, is_restroom: false },
        HeroPlacement { hero_index: 1, x: 3, y: 3, is_restroom: false },
    ];
    assert_eq!(
        bulk_place_heroes(&gs, &mut ua, placements, 99).unwrap_err(),
        GameError::GridPositionOccupied
    );
    assert_eq!(ua, before);

    // Two placements on one coordinate collide inside the batch itself.
    let placements = vec![
        HeroPlacement { hero_index: 0, x: 0, y: 0, is_restroom: false },
        HeroPlacement { hero_index: 1, x: 0, y: 0, is_restroom: false },
    ];
    assert_eq!(
        bulk_place_heroes(&gs, &mut ua, placements, 99).unwrap_err(),
        GameError::GridPositionOccupied
    );
    assert_eq!(ua, before);

    // A batch exceeding the restroom cap in aggregate is rejected whole.
    let placements = vec![
        HeroPlacement { hero_index: 0, x: 0, y: 0, is_restroom: true },
        HeroPlacement { hero_index: 1, x: 1, y: 0, is_restroom: true },
    ];
    let mut crowded = ua.clone();
    for id in 3..6u16 {
        crowded.inventory.push(bench_hero(id));
    }
    for i in 0..3u16 {
        place_hero_on_grid(&gs, &mut crowded, i + 3, i as u8, 2, true, 5).unwrap();
    }
    let crowded_before = crowded.clone();
    assert_eq!(
        bulk_place_heroes(&gs, &mut crowded, placements, 99).unwrap_err(),
        GameError::RestroomFull
    );
    assert_eq!(crowded, crowded_before);
}

#[test]
fn test_upgrade_house() {
    let mut gs = fresh_global();
    let mut ua = user_with_heroes(&mut gs, 0);

    assert_eq!(upgrade_house(&gs, &mut ua, 100).unwrap_err(), GameError::InsufficientCoins);

    ua.coin_balance = 600;
    upgrade_house(&gs, &mut ua, 100).unwrap();
    assert_eq!(ua.house_level, 2);
    assert_eq!(ua.coin_balance, 100);
    assert_eq!((ua.grid_width, ua.grid_height), (4, 6));
    assert_eq!(ua.last_house_upgrade_timestamp, 100);

    // The level-2 cooldown is 7200 seconds.
    ua.coin_balance = 10_000;
    assert_eq!(
        upgrade_house(&gs, &mut ua, 100 + 7199).unwrap_err(),
        GameError::UpgradeCooldownActive
    );
    upgrade_house(&gs, &mut ua, 100 + 7200).unwrap();
    assert_eq!(ua.house_level, 3);
    assert_eq!((ua.grid_width, ua.grid_height), (5, 6));

    toggle_house_upgrades(&mut gs, false).unwrap();
    assert_eq!(
        upgrade_house(&gs, &mut ua, 1_000_000).unwrap_err(),
        GameError::HouseUpgradesDisabled
    );
    toggle_house_upgrades(&mut gs, true).unwrap();

    // Climb to the cap and hit it.
    ua.coin_balance = 100_000;
    let mut t = 1_000_000;
    while ua.house_level < 6 {
        upgrade_house(&gs, &mut ua, t).unwrap();
        t += 100_000;
    }
    assert_eq!((ua.grid_width, ua.grid_height), (7, 7));
    assert_eq!(upgrade_house(&gs, &mut ua, t).unwrap_err(), GameError::MaxHouseLevelReached);
}

#[test]
fn test_pause_gates_grid_ops() {
    let mut gs = fresh_global();
    let mut ua = user_with_heroes(&mut gs, 2);
    place_hero_on_grid(&gs, &mut ua, 0, 0, 0, false, 5).unwrap();
    toggle_pause(&mut gs, true).unwrap();
    let before = ua.clone();

    assert_eq!(
        place_hero_on_grid(&gs, &mut ua, 1, 1, 1, false, 6).unwrap_err(),
        GameError::GamePaused
    );
    assert_eq!(remove_hero_from_grid(&gs, &mut ua, 0, 0).unwrap_err(), GameError::GamePaused);
    let placements = vec![HeroPlacement { hero_index: 1, x: 1, y: 1, is_restroom: false }];
    assert_eq!(
        bulk_place_heroes(&gs, &mut ua, placements, 6).unwrap_err(),
        GameError::GamePaused
    );
    assert_eq!(ua, before);
}
