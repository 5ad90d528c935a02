use bomber_core::state::{GlobalState, GridDimensions, HouseTile};

fn global_with_rate(initial: u64, interval: u64, mined: u64) -> GlobalState {
    GlobalState {
        authority: [0u8; 32],
        dev_treasury: [1u8; 32],
        reward_token_mint: [2u8; 32],
        game_has_started: true,
        paused: false,
        minting_enabled: true,
        house_upgrades_enabled: true,
        start_block: 0,
        house_count: 0,
        unique_heroes_count: 0,
        total_hash_power: 0,
        initial_house_price: 0,
        initial_bombcoin_per_block: initial,
        halving_interval: interval,
        burn_pct: 0,
        referral_fee: 0,
        rewards_precision: 1,
        total_mined: mined,
        total_burned: 0,
        reward_pool: 0,
    }
}

#[test]
fn test_grid_dimensions_table() {
    let expected = [(1u8, 4u8, 4u8), (2, 4, 6), (3, 5, 6), (4, 6, 6), (5, 6, 7), (6, 7, 7)];
    for (level, w, h) in expected {
        let dims = GridDimensions::for_level(level);
        assert_eq!(dims.width, w);
        assert_eq!(dims.height, h);
    }
    // Levels outside 1-6 fall back to the level-1 grid.
    let dims = GridDimensions::for_level(0);
    assert_eq!((dims.width, dims.height), (4, 4));
}

#[test]
fn test_restroom_slot_table() {
    assert_eq!(GridDimensions::max_restroom_slots(1), 4);
    assert_eq!(GridDimensions::max_restroom_slots(2), 6);
    assert_eq!(GridDimensions::max_restroom_slots(3), 8);
    assert_eq!(GridDimensions::max_restroom_slots(4), 10);
    assert_eq!(GridDimensions::max_restroom_slots(5), 12);
    assert_eq!(GridDimensions::max_restroom_slots(6), 15);
}

#[test]
fn test_upgrade_cost_and_cooldown_tables() {
    assert_eq!(GridDimensions::upgrade_cost(1), 500);
    assert_eq!(GridDimensions::upgrade_cost(2), 1000);
    assert_eq!(GridDimensions::upgrade_cost(3), 2000);
    assert_eq!(GridDimensions::upgrade_cost(4), 4000);
    assert_eq!(GridDimensions::upgrade_cost(5), 8000);
    assert_eq!(GridDimensions::upgrade_cost(6), 0);

    assert_eq!(GridDimensions::upgrade_cooldown(1), 3600);
    assert_eq!(GridDimensions::upgrade_cooldown(2), 7200);
    assert_eq!(GridDimensions::upgrade_cooldown(3), 14400);
    assert_eq!(GridDimensions::upgrade_cooldown(4), 28800);
    assert_eq!(GridDimensions::upgrade_cooldown(5), 57600);
    assert_eq!(GridDimensions::upgrade_cooldown(6), 0);
}

#[test]
fn test_halving_curve_values() {
    // No issuance yet: full rate.
    assert_eq!(global_with_rate(1000, 100, 0).get_bombcoin_per_block(), 1000);
    // Just below the first milestone: still full rate.
    assert_eq!(global_with_rate(1000, 100, 99).get_bombcoin_per_block(), 1000);
    // One halving.
    assert_eq!(global_with_rate(1000, 100, 100).get_bombcoin_per_block(), 500);
    // Two halvings.
    assert_eq!(global_with_rate(1000, 100, 250).get_bombcoin_per_block(), 250);
    // Far past exhaustion: exactly zero, never negative.
    assert_eq!(global_with_rate(1000, 100, 10_000).get_bombcoin_per_block(), 0);
    assert_eq!(global_with_rate(1000, 100, u64::MAX).get_bombcoin_per_block(), 0);
    // Halving disabled: the initial rate, always.
    assert_eq!(global_with_rate(1000, 0, u64::MAX).get_bombcoin_per_block(), 1000);
}

#[test]
fn test_halving_rate_monotone_along_curve() {
    let mut last = u64::MAX;
    for mined in [0u64, 50, 100, 150, 200, 400, 800, 1600, 6400, 1_000_000] {
        let rate = global_with_rate(1000, 100, mined).get_bombcoin_per_block();
        assert!(rate <= last);
        last = rate;
    }
}

#[test]
fn test_blocks_until_next_halving() {
    assert_eq!(global_with_rate(1000, 100, 0).blocks_until_next_halving(), 100);
    assert_eq!(global_with_rate(1000, 100, 30).blocks_until_next_halving(), 70);
    assert_eq!(global_with_rate(1000, 100, 100).blocks_until_next_halving(), 100);
    assert_eq!(global_with_rate(1000, 0, 5).blocks_until_next_halving(), u64::MAX);
}

#[test]
fn test_tile_helpers() {
    let t = HouseTile::empty(3, 2);
    assert!(t.is_empty());
    assert_eq!(t.x, 3);
    assert_eq!(t.y, 2);
    assert!(!t.is_restroom);
    let occupied = HouseTile { x: 0, y: 0, hero_id: 7, is_restroom: true };
    assert!(!occupied.is_empty());
}
