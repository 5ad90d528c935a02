use bomber_core::errors::GameError;
use bomber_core::ops::{
    get_game_info, get_grid_state, get_hero_details, get_player_stats, initialize_global_state,
    move_hero_to_map, place_hero_on_grid, purchase_initial_house, start_game,
};
use bomber_core::state::{GlobalState, Hero, HeroRarity, UserAccount};

fn fresh_global() -> GlobalState {
    let mut gs = initialize_global_state(
        [1u8; 32],
        [2u8; 32],
        [3u8; 32],
        1234,
        10,
        100,
        3000,
        250,
        1,
    )
    .unwrap();
    start_game(&mut gs, 7).unwrap();
    gs
}

fn sample_hero(id: u16, hp: u32) -> Hero {
    Hero {
        id,
        skin_id: 2,
        rarity: HeroRarity::Uncommon,
        power: 30,
        speed: 10,
        stamina: 20,
        max_stamina: 20,
        bomb_number: 2,
        bomb_range: 3,
        hp,
        max_hp: 300,
        last_action_time: 0,
    }
}

fn sample_user(gs: &mut GlobalState) -> UserAccount {
    let mut ua = purchase_initial_house(gs, [5u8; 32]).unwrap();
    ua.inventory.push(sample_hero(0, 300));
    ua.inventory.push(sample_hero(1, 0));
    ua.inventory.push(sample_hero(2, 300));
    place_hero_on_grid(gs, &mut ua, 1, 0, 0, true, 0).unwrap();
    move_hero_to_map(gs, &mut ua, 0, 0).unwrap();
    ua
}

#[test]
fn test_player_stats() {
    let mut gs = fresh_global();
    let ua = sample_user(&mut gs);
    let stats = get_player_stats(&ua, 3600).unwrap();

    assert_eq!(stats.owner, [5u8; 32]);
    assert_eq!(stats.house_level, 1);
    assert_eq!((stats.grid_width, stats.grid_height), (4, 4));
    assert_eq!(stats.heroes_total, 3);
    assert_eq!(stats.heroes_on_map, 1);
    assert_eq!(stats.heroes_on_grid, 1);
    assert_eq!(stats.heroes_in_restroom, 1);
    assert_eq!(stats.heroes_sleeping, 1);
    assert_eq!(stats.max_restroom_slots, 4);
    assert_eq!(stats.restroom_slots_used, 1);
    assert_eq!(stats.next_upgrade_cost, 500);
    assert_eq!(stats.upgrade_cooldown_remaining, 0);
    assert!(stats.can_upgrade);
    assert_eq!(stats.referral_count, 0);
}

#[test]
fn test_hero_details() {
    let mut gs = fresh_global();
    let ua = sample_user(&mut gs);

    assert_eq!(get_hero_details(&ua, 9, 3600).unwrap_err(), GameError::InvalidHeroIndex);

    // Hero 0 mines: one hour at speed 10 projects 600 drain but hp clamps at 0.
    let mining = get_hero_details(&ua, 0, 3600).unwrap();
    assert!(mining.is_on_map);
    assert!(!mining.is_on_grid);
    assert_eq!(mining.hp, 300);
    assert_eq!(mining.estimated_current_hp, 0);
    assert_eq!(mining.hmp, 30 * 2 + 1 + 20);
    assert_eq!(mining.elapsed_since_action, 3600);

    // Hero 1 rests in a restroom: 30 ticks x 20 stamina x 3.
    let resting = get_hero_details(&ua, 1, 3600).unwrap();
    assert!(resting.is_on_grid);
    assert!(resting.is_in_restroom);
    assert_eq!(resting.grid_x, Some(0));
    assert_eq!(resting.grid_y, Some(0));
    assert!(resting.is_sleeping);
    assert_eq!(resting.estimated_current_hp, 300.min(30 * 20 * 3));

    // Hero 2 sits in the inventory: nothing changes.
    let idle = get_hero_details(&ua, 2, 3600).unwrap();
    assert!(!idle.is_on_map);
    assert!(!idle.is_on_grid);
    assert_eq!(idle.grid_x, None);
    assert_eq!(idle.estimated_current_hp, 300);
}

#[test]
fn test_grid_state() {
    let mut gs = fresh_global();
    let ua = sample_user(&mut gs);
    let grid = get_grid_state(&ua).unwrap();

    assert_eq!((grid.grid_width, grid.grid_height), (4, 4));
    assert_eq!(grid.house_level, 1);
    assert_eq!(grid.total_tiles, 16);
    assert_eq!(grid.tiles_occupied, 1);
    assert_eq!(grid.occupied_tiles.len(), 1);
    let tile = &grid.occupied_tiles[0];
    assert_eq!((tile.x, tile.y), (0, 0));
    assert_eq!(tile.hero_id, Some(1));
    assert!(tile.is_restroom);
    assert!(!tile.is_empty);
}

#[test]
fn test_game_info() {
    let gs = fresh_global();
    let info = get_game_info(&gs).unwrap();
    assert_eq!(info.authority, [1u8; 32]);
    assert_eq!(info.dev_treasury, [2u8; 32]);
    assert_eq!(info.reward_token_mint, [3u8; 32]);
    assert!(info.game_has_started);
    assert!(!info.paused);
    assert_eq!(info.start_block, 7);
    assert_eq!(info.initial_house_price, 1234);
    assert_eq!(info.initial_bombcoin_per_block, 10);
    assert_eq!(info.current_bombcoin_per_block, 10);
    assert_eq!(info.halving_interval, 100);
    assert_eq!(info.burn_pct, 3000);
    assert_eq!(info.referral_fee, 250);
    assert_eq!(info.blocks_until_next_halving, 100);
}
