use bomber_core::errors::GameError;
use bomber_core::ops::{
    buy_hero, initialize_global_state, purchase_initial_house, set_referrer, set_treasury,
    start_game, toggle_house_upgrades, toggle_minting, toggle_pause, update_game_config,
};
use bomber_core::state::{GlobalState, UserAccount};

fn fresh_global() -> GlobalState {
    let mut gs = initialize_global_state(
        [1u8; 32],
        [2u8; 32],
        [3u8; 32],
        1_000_000,
        10,
        1_000_000,
        3000,
        250,
        1,
    )
    .unwrap();
    start_game(&mut gs, 1_000).unwrap();
    gs
}

fn fresh_user(gs: &mut GlobalState, owner: [u8; 32]) -> UserAccount {
    purchase_initial_house(gs, owner).unwrap()
}

#[test]
fn test_initialize_validates_basis_points() {
    let bad_burn = initialize_global_state(
        [1u8; 32],
        [2u8; 32],
        [3u8; 32],
        0,
        10,
        100,
        10_001,
        0,
        1,
    );
    assert_eq!(bad_burn.unwrap_err(), GameError::InvalidBurnPercentage);

    let bad_referral = initialize_global_state(
        [1u8; 32],
        [2u8; 32],
        [3u8; 32],
        0,
        10,
        100,
        0,
        10_001,
        1,
    );
    assert_eq!(bad_referral.unwrap_err(), GameError::InvalidReferralFee);

    let gs = initialize_global_state(
        [1u8; 32],
        [2u8; 32],
        [3u8; 32],
        5,
        10,
        100,
        3000,
        250,
        2,
    )
    .unwrap();
    assert!(!gs.game_has_started);
    assert!(!gs.paused);
    assert!(gs.minting_enabled);
    assert_eq!(gs.initial_house_price, 5);
    assert_eq!(gs.initial_bombcoin_per_block, 10);
    assert_eq!(gs.halving_interval, 100);
    assert_eq!(gs.burn_pct, 3000);
    assert_eq!(gs.referral_fee, 250);
    assert_eq!(gs.rewards_precision, 2);
    assert_eq!(gs.total_mined, 0);
}

#[test]
fn test_start_game_only_once() {
    let mut gs = initialize_global_state(
        [1u8; 32],
        [2u8; 32],
        [3u8; 32],
        0,
        10,
        100,
        0,
        0,
        1,
    )
    .unwrap();
    assert!(start_game(&mut gs, 777).is_ok());
    assert!(gs.game_has_started);
    assert_eq!(gs.start_block, 777);
    assert_eq!(start_game(&mut gs, 778).unwrap_err(), GameError::AlreadyInitialized);
}

#[test]
fn test_admin_toggles_and_treasury() {
    let mut gs = fresh_global();
    toggle_pause(&mut gs, true).unwrap();
    assert!(gs.paused);
    toggle_pause(&mut gs, false).unwrap();
    assert!(!gs.paused);
    toggle_minting(&mut gs, false).unwrap();
    assert!(!gs.minting_enabled);
    toggle_house_upgrades(&mut gs, false).unwrap();
    assert!(!gs.house_upgrades_enabled);
    set_treasury(&mut gs, [9u8; 32]).unwrap();
    assert_eq!(gs.dev_treasury, [9u8; 32]);
}

#[test]
fn test_update_game_config() {
    let mut gs = fresh_global();
    let before = gs.clone();

    // An invalid basis-point value leaves everything untouched.
    let r = update_game_config(&mut gs, Some(1), Some(2), None, Some(10_001), None, None);
    assert_eq!(r.unwrap_err(), GameError::InvalidBurnPercentage);
    assert_eq!(gs, before);

    let r = update_game_config(&mut gs, None, None, None, None, Some(10_001), None);
    assert_eq!(r.unwrap_err(), GameError::InvalidReferralFee);
    assert_eq!(gs, before);

    update_game_config(&mut gs, Some(7), None, Some(500), Some(100), Some(200), Some(3)).unwrap();
    assert_eq!(gs.initial_house_price, 7);
    assert_eq!(gs.initial_bombcoin_per_block, before.initial_bombcoin_per_block);
    assert_eq!(gs.halving_interval, 500);
    assert_eq!(gs.burn_pct, 100);
    assert_eq!(gs.referral_fee, 200);
    assert_eq!(gs.rewards_precision, 3);
}

#[test]
fn test_purchase_initial_house() {
    let mut gs = initialize_global_state(
        [1u8; 32],
        [2u8; 32],
        [3u8; 32],
        0,
        10,
        100,
        0,
        0,
        1,
    )
    .unwrap();
    // The game has to be running.
    assert_eq!(
        purchase_initial_house(&mut gs, [5u8; 32]).unwrap_err(),
        GameError::GameNotStarted
    );
    start_game(&mut gs, 10).unwrap();
    toggle_pause(&mut gs, true).unwrap();
    assert_eq!(purchase_initial_house(&mut gs, [5u8; 32]).unwrap_err(), GameError::GamePaused);
    toggle_pause(&mut gs, false).unwrap();

    let ua = purchase_initial_house(&mut gs, [5u8; 32]).unwrap();
    assert_eq!(gs.house_count, 1);
    assert_eq!(ua.owner, [5u8; 32]);
    assert!(ua.initialized_starter_house);
    assert_eq!(ua.house_level, 1);
    assert_eq!((ua.grid_width, ua.grid_height), (4, 4));
    assert!(ua.house_occupied_coords.is_empty());
    assert!(ua.inventory.is_empty());
    assert!(ua.active_map.is_empty());
    assert_eq!(ua.coin_balance, 0);
    assert!(ua.referrer.is_none());
}

#[test]
fn test_referrer_immutability() {
    let mut gs = fresh_global();
    let mut ua = fresh_user(&mut gs, [5u8; 32]);

    // Referring oneself always fails.
    assert_eq!(set_referrer(&gs, &mut ua, [5u8; 32]).unwrap_err(), GameError::CannotReferSelf);
    assert!(ua.referrer.is_none());

    // The first real referrer sticks.
    set_referrer(&gs, &mut ua, [6u8; 32]).unwrap();
    assert_eq!(ua.referrer, Some([6u8; 32]));

    // A second attempt fails and changes nothing.
    assert_eq!(set_referrer(&gs, &mut ua, [7u8; 32]).unwrap_err(), GameError::ReferrerAlreadySet);
    assert_eq!(ua.referrer, Some([6u8; 32]));
}

#[test]
fn test_buy_hero_accounting() {
    let mut gs = fresh_global();
    let mut ua = fresh_user(&mut gs, [5u8; 32]);

    assert_eq!(buy_hero(&mut gs, &mut ua, 0, 100, 1).unwrap_err(), GameError::InvalidHeroQuantity);
    assert_eq!(
        buy_hero(&mut gs, &mut ua, 11, 100, 1).unwrap_err(),
        GameError::InvalidHeroQuantity
    );
    assert_eq!(buy_hero(&mut gs, &mut ua, 3, 100, 1).unwrap_err(), GameError::InsufficientCoins);

    ua.coin_balance = 1_000;
    buy_hero(&mut gs, &mut ua, 3, 100, 1).unwrap();
    // 3 heroes x 100 coins, 30% burned, the rest pooled.
    assert_eq!(ua.coin_balance, 700);
    assert_eq!(gs.total_burned, 90);
    assert_eq!(gs.reward_pool, 210);
    assert_eq!(gs.unique_heroes_count, 3);
    assert_eq!(ua.inventory.len(), 3);
    assert_eq!(ua.inventory[0].id, 0);
    assert_eq!(ua.inventory[1].id, 1);
    assert_eq!(ua.inventory[2].id, 2);
    for h in &ua.inventory {
        assert_eq!(h.hp, h.max_hp);
        assert_eq!(h.last_action_time, 100);
    }

    toggle_minting(&mut gs, false).unwrap();
    assert_eq!(buy_hero(&mut gs, &mut ua, 1, 100, 1).unwrap_err(), GameError::MintingDisabled);
    toggle_minting(&mut gs, true).unwrap();
    toggle_pause(&mut gs, true).unwrap();
    assert_eq!(buy_hero(&mut gs, &mut ua, 1, 100, 1).unwrap_err(), GameError::GamePaused);
}
