use bomber_core::state::{Hero, HeroRarity};
use bomber_core::utils::{calculate_burn_split, calculate_mining_reward, calculate_referral_bonus};

fn hero_with(power: u32, speed: u32, stamina: u32, hp: u32, max_hp: u32) -> Hero {
    Hero {
        id: 0,
        skin_id: 1,
        rarity: HeroRarity::Common,
        power,
        speed,
        stamina,
        max_stamina: stamina,
        bomb_number: 1,
        bomb_range: 2,
        hp,
        max_hp,
        last_action_time: 0,
    }
}

#[test]
fn test_rarity_distribution() {
    // Test rarity roll boundaries
    assert_eq!(HeroRarity::from_roll(0), HeroRarity::Common);
    assert_eq!(HeroRarity::from_roll(499), HeroRarity::Common);
    assert_eq!(HeroRarity::from_roll(500), HeroRarity::Uncommon);
    assert_eq!(HeroRarity::from_roll(799), HeroRarity::Uncommon);
    assert_eq!(HeroRarity::from_roll(800), HeroRarity::Rare);
    assert_eq!(HeroRarity::from_roll(949), HeroRarity::Rare);
    assert_eq!(HeroRarity::from_roll(950), HeroRarity::SuperRare);
    assert_eq!(HeroRarity::from_roll(989), HeroRarity::SuperRare);
    assert_eq!(HeroRarity::from_roll(990), HeroRarity::Epic);
    assert_eq!(HeroRarity::from_roll(998), HeroRarity::Epic);
    assert_eq!(HeroRarity::from_roll(999), HeroRarity::Legendary);
    assert_eq!(HeroRarity::from_roll(1000), HeroRarity::Legendary);
}

#[test]
fn test_hmp_calculation() {
    let hero = hero_with(10, 10, 10, 100, 100);

    // HMP = (10 * 1) + (2 / 2) + (10 * 2) = 10 + 1 + 20 = 31
    assert_eq!(hero.calculate_hmp(), 31);
}

#[test]
fn test_hp_drain() {
    let hero = hero_with(10, 5, 10, 300, 300);

    // Speed 5 = 5 HP per minute
    // 60 minutes = 300 HP drained
    let drain = hero.calculate_hp_drain(3600);
    assert_eq!(drain, 300);

    // 30 minutes = 150 HP drained
    let drain_30 = hero.calculate_hp_drain(1800);
    assert_eq!(drain_30, 150);
}

#[test]
fn test_hp_recovery() {
    let hero = hero_with(10, 10, 10, 0, 100);

    // Bench (1x): 120 seconds = 1 tick, 10 stamina = 10 HP
    let recovery_bench = hero.calculate_hp_recovery(120, 1);
    assert_eq!(recovery_bench, 10);

    // Restroom (3x): 120 seconds = 1 tick, 10 stamina * 3 = 30 HP
    let recovery_restroom = hero.calculate_hp_recovery(120, 3);
    assert_eq!(recovery_restroom, 30);

    // 240 seconds = 2 ticks, bench = 20 HP
    let recovery_2_ticks = hero.calculate_hp_recovery(240, 1);
    assert_eq!(recovery_2_ticks, 20);
}

#[test]
fn test_burn_split() {
    // 50% burn (5000/10000)
    assert_eq!(calculate_burn_split(1000, 5000), (500, 500));

    // 30% burn (3000/10000)
    assert_eq!(calculate_burn_split(1000, 3000), (300, 700));

    // 0% burn
    assert_eq!(calculate_burn_split(1000, 0), (0, 1000));

    // 100% burn
    assert_eq!(calculate_burn_split(1000, 10000), (1000, 0));
}

#[test]
fn test_referral_bonus() {
    // 2.5% referral (250/10000)
    assert_eq!(calculate_referral_bonus(1000, 250), 25);

    // 5% referral (500/10000)
    assert_eq!(calculate_referral_bonus(1000, 500), 50);

    // 0% referral
    assert_eq!(calculate_referral_bonus(1000, 0), 0);
}

#[test]
fn test_mining_reward() {
    // 1 hour, 100 power, 10 coins/block rate, precision 1
    let reward = calculate_mining_reward(3600, 100, 10, 1);
    assert_eq!(reward, 1000); // 1 hour * 100 power * 10 rate = 1000

    // 2 hours
    let reward_2h = calculate_mining_reward(7200, 100, 10, 1);
    assert_eq!(reward_2h, 2000);

    // Half hour (1800 seconds)
    let reward_half = calculate_mining_reward(1800, 100, 10, 1);
    assert_eq!(reward_half, 500);
}

#[test]
fn test_drain_saturates_at_zero() {
    let hero = hero_with(10, 4_000_000_000, 10, 50, 50);
    // An absurdly long window cannot push the drain value past the hp range.
    let drain = hero.calculate_hp_drain(u64::MAX);
    assert_eq!(drain, u32::MAX);
}

#[test]
fn test_mining_reward_precision_multiplier() {
    // Precision 5 scales the whole reward.
    assert_eq!(calculate_mining_reward(3600, 100, 10, 5), 5000);
    // Precision 0 and 1 leave the reward unscaled.
    assert_eq!(calculate_mining_reward(3600, 100, 10, 0), 1000);
    // Sub-hour windows floor whole reward-seconds.
    assert_eq!(calculate_mining_reward(60, 1, 1, 1), 0);
}
