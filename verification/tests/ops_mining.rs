use bomber_core::errors::GameError;
use bomber_core::ops::{
    bulk_move_to_map, claim_rewards, initialize_global_state, move_hero_to_map, pending_rewards,
    place_hero_on_grid, purchase_initial_house, recover_hp, set_referrer, start_game,
    toggle_pause,
};
use bomber_core::state::{GlobalState, Hero, HeroRarity, UserAccount};

fn global_with(burn_bps: u16, referral_bps: u16, rate: u64, precision: u64) -> GlobalState {
    let mut gs = initialize_global_state(
        [1u8; 32],
        [2u8; 32],
        [3u8; 32],
        0,
        rate,
        1_000_000_000,
        burn_bps,
        referral_bps,
        precision,
    )
    .unwrap();
    start_game(&mut gs, 0).unwrap();
    gs
}

fn miner_hero(id: u16, power: u32, speed: u32, hp: u32) -> Hero {
    Hero {
        id,
        skin_id: 1,
        rarity: HeroRarity::Common,
        power,
        speed,
        stamina: 10,
        max_stamina: 10,
        bomb_number: 1,
        bomb_range: 2,
        hp,
        max_hp: hp,
        last_action_time: 0,
    }
}

fn user_with(gs: &mut GlobalState, heroes: Vec<Hero>) -> UserAccount {
    let mut ua = purchase_initial_house(gs, [5u8; 32]).unwrap();
    for h in heroes {
        ua.inventory.push(h);
    }
    ua
}

#[test]
fn test_move_hero_to_map() {
    let mut gs = global_with(0, 0, 10, 1);
    let mut ua = user_with(&mut gs, vec![miner_hero(0, 10, 10, 1000), miner_hero(1, 10, 10, 0)]);

    assert_eq!(
        move_hero_to_map(&gs, &mut ua, 7, 10).unwrap_err(),
        GameError::InvalidHeroIndex
    );
    assert_eq!(move_hero_to_map(&gs, &mut ua, 1, 10).unwrap_err(), GameError::HeroIsSleeping);

    move_hero_to_map(&gs, &mut ua, 0, 10).unwrap();
    assert_eq!(ua.active_map, vec![0]);
    assert_eq!(ua.inventory[0].last_action_time, 10);
    // HMP = 10*1 + 2/2 + 10*2 = 31
    assert_eq!(ua.player_power, 31);

    assert_eq!(move_hero_to_map(&gs, &mut ua, 0, 11).unwrap_err(), GameError::HeroAlreadyOnMap);

    toggle_pause(&mut gs, true).unwrap();
    assert_eq!(move_hero_to_map(&gs, &mut ua, 1, 11).unwrap_err(), GameError::GamePaused);
}

#[test]
fn test_move_hero_leaves_grid() {
    let mut gs = global_with(0, 0, 10, 1);
    let mut ua = user_with(&mut gs, vec![miner_hero(0, 10, 10, 1000)]);
    place_hero_on_grid(&gs, &mut ua, 0, 1, 1, false, 5).unwrap();
    assert_eq!(ua.house_occupied_coords.len(), 1);
    move_hero_to_map(&gs, &mut ua, 0, 10).unwrap();
    assert!(ua.house_occupied_coords.is_empty());
    assert_eq!(ua.active_map, vec![0]);
}

#[test]
fn test_map_capacity() {
    let mut gs = global_with(0, 0, 10, 1);
    let heroes: Vec<Hero> = (0..16u16).map(|i| miner_hero(i, 10, 10, 1000)).collect();
    let mut ua = user_with(&mut gs, heroes);
    for i in 0..15u16 {
        move_hero_to_map(&gs, &mut ua, i, 10).unwrap();
    }
    assert_eq!(move_hero_to_map(&gs, &mut ua, 15, 10).unwrap_err(), GameError::MapFull);
}

#[test]
fn test_bulk_move_to_map() {
    let mut gs = global_with(0, 0, 10, 1);
    let heroes: Vec<Hero> = (0..4u16).map(|i| miner_hero(i, 10, 10, 1000)).collect();
    let mut ua = user_with(&mut gs, heroes);
    place_hero_on_grid(&gs, &mut ua, 0, 0, 0, false, 5).unwrap();
    let before = ua.clone();

    // One sleeping hero poisons the whole batch.
    ua.inventory[3].hp = 0;
    let mut poisoned = ua.clone();
    assert_eq!(
        bulk_move_to_map(&gs, &mut poisoned, vec![0, 3], 10).unwrap_err(),
        GameError::HeroIsSleeping
    );
    assert_eq!(poisoned, ua);
    ua.inventory[3].hp = 1000;
    assert_eq!(ua, before);

    // A duplicate entry poisons the whole batch.
    let mut duplicated = ua.clone();
    assert_eq!(
        bulk_move_to_map(&gs, &mut duplicated, vec![1, 1], 10).unwrap_err(),
        GameError::HeroAlreadyOnMap
    );
    assert_eq!(duplicated, ua);

    bulk_move_to_map(&gs, &mut ua, vec![0, 1, 2], 10).unwrap();
    assert_eq!(ua.active_map, vec![0, 1, 2]);
    assert!(ua.house_occupied_coords.is_empty());
    assert_eq!(ua.player_power, 3 * 31);
    for i in 0..3usize {
        assert_eq!(ua.inventory[i].last_action_time, 10);
    }
}

#[test]
fn test_claim_end_to_end() {
    // Rate 10 per hour, precision 1, referral 250 bps.
    let mut gs = global_with(3000, 250, 10, 1);
    let mut ua = user_with(&mut gs, vec![miner_hero(0, 10, 10, 1000)]);
    set_referrer(&gs, &mut ua, [6u8; 32]).unwrap();
    move_hero_to_map(&gs, &mut ua, 0, 0).unwrap();
    assert_eq!(ua.player_power, 31);

    let outcome = claim_rewards(&mut gs, &mut ua, 3600).unwrap();
    // 1 hour x 31 power x 10 rate = 310 gross.
    assert_eq!(outcome.gross_reward, 310);
    // 2.5% referral = 7 (floored), net = 303.
    assert_eq!(outcome.referral_bonus, 7);
    assert_eq!(outcome.net_reward, 303);
    assert_eq!(outcome.referrer, Some([6u8; 32]));

    // Drain applied before power was summed: speed 10 over 60 minutes.
    assert_eq!(ua.inventory[0].hp, 400);
    assert_eq!(ua.inventory[0].last_action_time, 3600);
    assert_eq!(ua.coin_balance, 303);
    assert_eq!(ua.player_power, 31);
    assert_eq!(gs.total_mined, 310);
}

#[test]
fn test_claim_drained_hero_contributes_nothing() {
    let mut gs = global_with(0, 0, 10, 1);
    // Speed 10 drains 600 hp per hour; 500 hp is gone before the claim.
    let mut ua = user_with(&mut gs, vec![miner_hero(0, 10, 10, 500)]);
    move_hero_to_map(&gs, &mut ua, 0, 0).unwrap();
    let before_gs = gs.clone();
    let before_ua = ua.clone();

    assert_eq!(claim_rewards(&mut gs, &mut ua, 3600).unwrap_err(), GameError::NoActiveHeroes);
    // A failed claim leaves everything untouched.
    assert_eq!(gs, before_gs);
    assert_eq!(ua, before_ua);
}

#[test]
fn test_claim_errors() {
    let mut gs = global_with(0, 0, 10, 1);
    let mut ua = user_with(&mut gs, vec![miner_hero(0, 10, 0, 1000)]);

    assert_eq!(claim_rewards(&mut gs, &mut ua, 100).unwrap_err(), GameError::NoHeroesOnMap);

    move_hero_to_map(&gs, &mut ua, 0, 0).unwrap();
    toggle_pause(&mut gs, true).unwrap();
    assert_eq!(claim_rewards(&mut gs, &mut ua, 100).unwrap_err(), GameError::GamePaused);
    toggle_pause(&mut gs, false).unwrap();

    // A window too short to earn a whole unit yields nothing to claim.
    assert_eq!(claim_rewards(&mut gs, &mut ua, 1).unwrap_err(), GameError::NoRewardsToClaim);
}

#[test]
fn test_claim_overflow_is_rejected() {
    let mut gs = global_with(0, 0, u64::MAX, u64::MAX);
    let mut ua = user_with(&mut gs, vec![miner_hero(0, 10, 0, 1000)]);
    move_hero_to_map(&gs, &mut ua, 0, 0).unwrap();
    let before_gs = gs.clone();
    let before_ua = ua.clone();
    assert_eq!(
        claim_rewards(&mut gs, &mut ua, 3_600_000).unwrap_err(),
        GameError::ArithmeticOverflow
    );
    assert_eq!(gs, before_gs);
    assert_eq!(ua, before_ua);
}

#[test]
fn test_recover_hp_bench_and_restroom() {
    let mut gs = global_with(0, 0, 10, 1);
    let mut ua = user_with(
        &mut gs,
        vec![miner_hero(0, 10, 10, 1000), miner_hero(1, 10, 10, 1000)],
    );
    ua.inventory[0].hp = 0;
    ua.inventory[1].hp = 0;
    place_hero_on_grid(&gs, &mut ua, 0, 0, 0, false, 0).unwrap();
    place_hero_on_grid(&gs, &mut ua, 1, 1, 0, true, 0).unwrap();

    // One 120-second tick: bench recovers stamina, restroom three times it.
    recover_hp(&gs, &mut ua, 120).unwrap();
    assert_eq!(ua.inventory[0].hp, 10);
    assert_eq!(ua.inventory[1].hp, 30);
    assert_eq!(ua.inventory[0].last_action_time, 120);
    assert_eq!(ua.inventory[1].last_action_time, 120);
}

#[test]
fn test_recover_hp_saturates_at_max() {
    let mut gs = global_with(0, 0, 10, 1);
    let mut ua = user_with(&mut gs, vec![miner_hero(0, 10, 10, 1000)]);
    ua.inventory[0].hp = 990;
    place_hero_on_grid(&gs, &mut ua, 0, 0, 0, true, 0).unwrap();

    // Recovery over a vast window clamps at max_hp.
    recover_hp(&gs, &mut ua, 100_000_000).unwrap();
    assert_eq!(ua.inventory[0].hp, 1000);
}

#[test]
fn test_pending_rewards_preview() {
    let mut gs = global_with(0, 250, 10, 1);
    let mut ua = user_with(&mut gs, vec![miner_hero(0, 10, 10, 1000)]);

    // Nothing mining: a zeroed preview.
    let idle = pending_rewards(&gs, &ua, 100).unwrap();
    assert_eq!(idle.gross_reward, 0);
    assert_eq!(idle.active_hero_count, 0);
    assert_eq!(idle.current_bombcoin_per_block, 10);

    move_hero_to_map(&gs, &mut ua, 0, 0).unwrap();
    let before = ua.clone();
    let p = pending_rewards(&gs, &ua, 3600).unwrap();
    assert_eq!(p.total_hmp, 31);
    assert_eq!(p.active_hero_count, 1);
    assert_eq!(p.elapsed_seconds, 3600);
    assert_eq!(p.gross_reward, 310);
    assert_eq!(p.referral_bonus, 7);
    assert_eq!(p.net_reward, 303);
    // The preview never mutates the profile.
    assert_eq!(ua, before);
}

#[test]
fn test_pause_gates_recovery_and_referrer() {
    let mut gs = global_with(0, 0, 10, 1);
    let mut ua = user_with(&mut gs, vec![miner_hero(0, 10, 10, 1000)]);
    ua.inventory[0].hp = 0;
    place_hero_on_grid(&gs, &mut ua, 0, 0, 0, false, 0).unwrap();
    toggle_pause(&mut gs, true).unwrap();
    let before = ua.clone();

    assert_eq!(recover_hp(&gs, &mut ua, 120).unwrap_err(), GameError::GamePaused);
    assert_eq!(set_referrer(&gs, &mut ua, [6u8; 32]).unwrap_err(), GameError::GamePaused);
    assert_eq!(ua, before);
}

#[test]
fn test_pending_rewards_simulates_drain() {
    // The hero will be fully drained before the claim window ends: the
    // preview must show zero value, exactly what a claim would pay.
    let mut gs = global_with(0, 0, 10, 1);
    let mut ua = user_with(&mut gs, vec![miner_hero(0, 10, 10, 100)]);
    move_hero_to_map(&gs, &mut ua, 0, 0).unwrap();

    let p = pending_rewards(&gs, &ua, 3600).unwrap();
    assert_eq!(p.total_hmp, 0);
    assert_eq!(p.active_hero_count, 0);
    assert_eq!(p.gross_reward, 0);
    assert_eq!(p.net_reward, 0);
    assert_eq!(p.referral_bonus, 0);

    // And the claim at the same instant indeed pays nothing.
    assert_eq!(claim_rewards(&mut gs, &mut ua, 3600).unwrap_err(), GameError::NoActiveHeroes);
}
