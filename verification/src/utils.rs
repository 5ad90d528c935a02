//! Hero generation and the economic split/reward formulas.
//!
//! Hero generation is a pure, deterministic function of its inputs: the
//! timestamp, slot, owner identity, hero id and global hero counter are
//! serialized little-endian, folded into a 32-byte seed, and the seed slices
//! drive the rarity roll and every stat roll.

use vstd::prelude::*;
use crate::errors::GameError;
use crate::state::{
    AccountId, Hero, HeroRarity, lemma_take_step, spec_bomb_count_max, spec_bomb_count_min,
    spec_bomb_range_max, spec_bomb_range_min, spec_hp_multiplier, spec_rarity_from_roll,
    spec_stat_max, spec_stat_min,
};

verus! {

// ===========================================================================
// Seed derivation
// ===========================================================================

/// Scale factor selecting little-endian byte `k` of an integer.
pub open spec fn spec_byte_scale(k: int) -> int {
    if k <= 0 {
        1
    } else if k == 1 {
        0x100
    } else if k == 2 {
        0x10000
    } else if k == 3 {
        0x1000000
    } else if k == 4 {
        0x100000000
    } else if k == 5 {
        0x10000000000
    } else if k == 6 {
        0x1000000000000
    } else {
        0x100000000000000
    }
}

/// Little-endian byte `k` of `x`.
pub open spec fn spec_le_byte(x: u64, k: int) -> u8 {
    (((x as int) / spec_byte_scale(k)) % 256) as u8
}

/// The eight little-endian bytes of a 64-bit integer.
pub open spec fn spec_le8(x: u64) -> Seq<u8> {
    seq![
        spec_le_byte(x, 0),
        spec_le_byte(x, 1),
        spec_le_byte(x, 2),
        spec_le_byte(x, 3),
        spec_le_byte(x, 4),
        spec_le_byte(x, 5),
        spec_le_byte(x, 6),
        spec_le_byte(x, 7),
    ]
}

/// The two little-endian bytes of a 16-bit integer.
pub open spec fn spec_le2(x: u16) -> Seq<u8> {
    seq![spec_le_byte(x as u64, 0), spec_le_byte(x as u64, 1)]
}

/// The 58-byte entropy record mixed into a hero seed: timestamp, slot, owner
/// identity, hero id and global hero counter, in that order, little-endian.
pub open spec fn spec_seed_data(
    timestamp: i64,
    slot: u64,
    owner: Seq<u8>,
    id: u16,
    global_hero_count: u64,
) -> Seq<u8> {
    spec_le8(timestamp as u64) + spec_le8(slot) + owner + spec_le2(id) + spec_le8(
        global_hero_count,
    )
}

/// Byte `b` advanced by 17, wrapping at 256.
pub open spec fn spec_wrap_add_17(b: u8) -> u8 {
    ((b as int + 17) % 256) as u8
}

/// XOR-fold of the entropy record into 32 seed bytes: the second 26-byte
/// chunk, each byte advanced by a rotating multiplier step of 17, is XORed
/// onto the first 32-byte chunk.
pub open spec fn spec_mix(data: Seq<u8>) -> Seq<u8> {
    Seq::new(
        32,
        |j: int|
            if j < 26 {
                data[j] ^ spec_wrap_add_17(data[32 + j])
            } else {
                data[j]
            },
    )
}

/// The 32-byte seed of a hero, as a function of the generation inputs alone.
pub open spec fn spec_hero_seed(
    timestamp: i64,
    slot: u64,
    owner: Seq<u8>,
    id: u16,
    global_hero_count: u64,
) -> Seq<u8> {
    spec_mix(spec_seed_data(timestamp, slot, owner, id, global_hero_count))
}

/// Appends the eight little-endian bytes of `x`.
fn push_le8(out: &mut Vec<u8>, x: u64)
    ensures
        final(out)@ == old(out)@ + spec_le8(x),
{
    out.push((x % 0x100) as u8);
    out.push(((x / 0x100) % 0x100) as u8);
    out.push(((x / 0x10000) % 0x100) as u8);
    out.push(((x / 0x1000000) % 0x100) as u8);
    out.push(((x / 0x100000000) % 0x100) as u8);
    out.push(((x / 0x10000000000) % 0x100) as u8);
    out.push(((x / 0x1000000000000) % 0x100) as u8);
    out.push(((x / 0x100000000000000) % 0x100) as u8);
    proof {
        assert(final(out)@ =~= old(out)@ + spec_le8(x));
    }
}

/// Appends the two little-endian bytes of `x`.
fn push_le2(out: &mut Vec<u8>, x: u16)
    ensures
        final(out)@ == old(out)@ + spec_le2(x),
{
    out.push((x % 0x100) as u8);
    out.push(((x / 0x100) % 0x100) as u8);
    proof {
        assert(final(out)@ =~= old(out)@ + spec_le2(x));
    }
}

/// Builds the 32-byte seed for one hero.
fn build_hero_seed(
    timestamp: i64,
    slot: u64,
    user_pubkey: &AccountId,
    id: u16,
    global_hero_count: u64,
) -> (r: Vec<u8>)
    ensures
        r@ == spec_hero_seed(timestamp, slot, user_pubkey@, id, global_hero_count),
        r@.len() == 32,
{
    let mut data: Vec<u8> = Vec::new();
    push_le8(&mut data, timestamp as u64);
    push_le8(&mut data, slot);
    let mut i: usize = 0;
    while i < 32
        invariant
            i <= 32,
            data@ == spec_le8(timestamp as u64) + spec_le8(slot) + user_pubkey@.take(i as int),
        decreases 32 - i,
    {
        proof {
            lemma_take_step(user_pubkey@, i as int);
            assert((spec_le8(timestamp as u64) + spec_le8(slot) + user_pubkey@.take(i + 1)) =~= (
            spec_le8(timestamp as u64) + spec_le8(slot) + user_pubkey@.take(i as int)).push(
                user_pubkey@[i as int],
            ));
        }
        data.push(user_pubkey[i]);
        i = i + 1;
    }
    proof {
        assert(user_pubkey@.take(32) =~= user_pubkey@);
    }
    push_le2(&mut data, id);
    push_le8(&mut data, global_hero_count);
    let ghost sd = spec_seed_data(timestamp, slot, user_pubkey@, id, global_hero_count);
    proof {
        assert(data@ =~= sd);
    }
    let mut seed: Vec<u8> = Vec::new();
    let mut j: usize = 0;
    while j < 32
        invariant
            j <= 32,
            data@ == sd,
            data@.len() == 58,
            seed@.len() == j,
            forall|k: int| 0 <= k < j ==> seed@[k] == spec_mix(sd)[k],
        decreases 32 - j,
    {
        let b: u8 = if j < 26 {
            let shifted: u16 = (data[32 + j] as u16) + 17;
            data[j] ^ ((shifted % 256) as u8)
        } else {
            data[j]
        };
        seed.push(b);
        j = j + 1;
    }
    proof {
        assert(seed@ =~= spec_mix(sd));
    }
    seed
}

// ===========================================================================
// Stat rolls
// ===========================================================================

/// 32-bit value read little-endian from four seed bytes at `offset`.
pub open spec fn spec_seed_u32(seed: Seq<u8>, offset: int) -> int {
    seed[offset] + seed[offset + 1] * 0x100 + seed[offset + 2] * 0x10000 + seed[offset + 3]
        * 0x1000000
}

/// 16-bit value read little-endian from two seed bytes at `offset`.
pub open spec fn spec_seed_u16(seed: Seq<u8>, offset: int) -> int {
    seed[offset] + seed[offset + 1] * 0x100
}

/// Stat drawn from `[min, max]` inclusive by the seed slice at `offset`.
pub open spec fn spec_stat_in_range(seed: Seq<u8>, offset: int, min: u32, max: u32) -> u32 {
    if min == max {
        min
    } else {
        (min + spec_seed_u32(seed, offset) % (max - min + 1)) as u32
    }
}

/// Byte-sized stat drawn from `[min, max]` inclusive by the seed slice at
/// `offset`.
pub open spec fn spec_stat_in_range_u8(seed: Seq<u8>, offset: int, min: u8, max: u8) -> u8 {
    if min == max {
        min
    } else {
        (min + spec_seed_u16(seed, offset) % (max - min + 1)) as u8
    }
}

/// Draws a stat uniformly from `[min, max]` inclusive using four seed bytes.
fn generate_stat_in_range(seed: &Vec<u8>, offset: usize, min: u32, max: u32) -> (r: u32)
    requires
        seed@.len() == 32,
        offset + 4 <= 32,
        min <= max,
        max - min < 0xFFFFFFFF,
    ensures
        r == spec_stat_in_range(seed@, offset as int, min, max),
        min <= r <= max,
{
    if min == max {
        return min;
    }
    let seed_value: u32 = (seed[offset] as u32) + (seed[offset + 1] as u32) * 0x100 + (seed[offset
        + 2] as u32) * 0x10000 + (seed[offset + 3] as u32) * 0x1000000;
    let range_size: u32 = max - min + 1;
    min + seed_value % range_size
}

/// Draws a byte-sized stat uniformly from `[min, max]` inclusive using two
/// seed bytes.
fn generate_stat_in_range_u8(seed: &Vec<u8>, offset: usize, min: u8, max: u8) -> (r: u8)
    requires
        seed@.len() == 32,
        offset + 2 <= 32,
        min <= max,
    ensures
        r == spec_stat_in_range_u8(seed@, offset as int, min, max),
        min <= r <= max,
{
    if min == max {
        return min;
    }
    let seed_value: u16 = (seed[offset] as u16) + (seed[offset + 1] as u16) * 0x100;
    let range_size: u16 = (max - min) as u16 + 1;
    min + (seed_value % range_size) as u8
}

// ===========================================================================
// Hero generation
// ===========================================================================

/// The rarity roll of a seed: its first two bytes, little-endian, reduced to
/// the 0-1000 domain.
pub open spec fn spec_rarity_roll(seed: Seq<u8>) -> u16 {
    (spec_seed_u16(seed, 0) % 1001) as u16
}

/// The skin template of a seed: its third byte reduced to 1-9.
pub open spec fn spec_skin_id(seed: Seq<u8>) -> u8 {
    (seed[2] % 9 + 1) as u8
}

/// The hero generated from the given inputs: rarity from the seed roll, each
/// stat from its own seed slice within the rarity's range, and hp set to the
/// stat sum scaled by the rarity's multiplier.
pub open spec fn spec_generate_hero(
    id: u16,
    timestamp: i64,
    slot: u64,
    owner: Seq<u8>,
    global_hero_count: u64,
) -> Hero {
    let seed = spec_hero_seed(timestamp, slot, owner, id, global_hero_count);
    let rarity = spec_rarity_from_roll(spec_rarity_roll(seed));
    let power = spec_stat_in_range(seed, 3, spec_stat_min(rarity), spec_stat_max(rarity));
    let speed = spec_stat_in_range(seed, 7, spec_stat_min(rarity), spec_stat_max(rarity));
    let stamina = spec_stat_in_range(seed, 11, spec_stat_min(rarity), spec_stat_max(rarity));
    let hp = ((power + speed + stamina) * spec_hp_multiplier(rarity)) as u32;
    Hero {
        id,
        skin_id: spec_skin_id(seed),
        rarity,
        power,
        speed,
        stamina,
        max_stamina: stamina,
        bomb_number: spec_stat_in_range_u8(
            seed,
            15,
            spec_bomb_count_min(rarity),
            spec_bomb_count_max(rarity),
        ),
        bomb_range: spec_stat_in_range_u8(
            seed,
            17,
            spec_bomb_range_min(rarity),
            spec_bomb_range_max(rarity),
        ),
        hp,
        max_hp: hp,
        last_action_time: timestamp,
    }
}

/// Generates a hero deterministically from its inputs. Never fails: every
/// intermediate value is bounded by the rarity tables.
///
/// The result's stats all lie within the ranges its rarity declares, and it
/// is created at full hit points.
#[verifier::rlimit(50)]
pub fn generate_hero(
    id: u16,
    timestamp: i64,
    slot: u64,
    user_pubkey: AccountId,
    global_hero_count: u64,
) -> (r: Result<Hero, GameError>)
    ensures
        r == Ok::<Hero, GameError>(
            spec_generate_hero(id, timestamp, slot, user_pubkey@, global_hero_count),
        ),
        ({
            let h = spec_generate_hero(id, timestamp, slot, user_pubkey@, global_hero_count);
            &&& spec_stat_min(h.rarity) <= h.power <= spec_stat_max(h.rarity)
            &&& spec_stat_min(h.rarity) <= h.speed <= spec_stat_max(h.rarity)
            &&& spec_stat_min(h.rarity) <= h.stamina <= spec_stat_max(h.rarity)
            &&& spec_bomb_count_min(h.rarity) <= h.bomb_number <= spec_bomb_count_max(h.rarity)
            &&& spec_bomb_range_min(h.rarity) <= h.bomb_range <= spec_bomb_range_max(h.rarity)
            &&& h.hp == h.max_hp
            &&& h.max_hp <= 2400
            &&& h.max_stamina == h.stamina
            &&& h.id == id
            &&& h.last_action_time == timestamp
        }),
{
    let seed: Vec<u8> = build_hero_seed(timestamp, slot, &user_pubkey, id, global_hero_count);

    let rarity_roll: u16 = ((seed[0] as u16) + (seed[1] as u16) * 0x100) % 1001;
    let rarity: HeroRarity = HeroRarity::from_roll(rarity_roll);

    let skin_id: u8 = seed[2] % 9 + 1;

    let (stat_min, stat_max): (u32, u32) = rarity.stat_range();
    let (bomb_min, bomb_max): (u8, u8) = rarity.bomb_count_range();
    let (range_min, range_max): (u8, u8) = rarity.bomb_range_range();

    let power: u32 = generate_stat_in_range(&seed, 3, stat_min, stat_max);
    let speed: u32 = generate_stat_in_range(&seed, 7, stat_min, stat_max);
    let stamina: u32 = generate_stat_in_range(&seed, 11, stat_min, stat_max);
    let bomb_number: u8 = generate_stat_in_range_u8(&seed, 15, bomb_min, bomb_max);
    let bomb_range: u8 = generate_stat_in_range_u8(&seed, 17, range_min, range_max);

    let hp_multiplier: u32 = match rarity {
        HeroRarity::Common => 2,
        HeroRarity::Uncommon => 3,
        HeroRarity::Rare => 3,
        HeroRarity::SuperRare => 4,
        HeroRarity::Epic => 4,
        HeroRarity::Legendary => 5,
    };

    let stat_sum: u32 = power + speed + stamina;
    proof {
        assert(stat_sum * hp_multiplier <= 2400) by (nonlinear_arith)
            requires
                0 <= stat_sum <= 480,
                0 <= hp_multiplier <= 5,
        ;
    }
    let hp: u32 = stat_sum * hp_multiplier;

    Ok(
        Hero {
            id,
            skin_id,
            rarity,
            power,
            speed,
            stamina,
            max_stamina: stamina,
            bomb_number,
            bomb_range,
            hp,
            max_hp: hp,
            last_action_time: timestamp,
        },
    )
}

// ===========================================================================
// Economic formulas
// ===========================================================================

/// Burn share of `total` at `burn_pct` basis points, floored.
pub open spec fn spec_burn_amount(total: u64, burn_pct: u16) -> int {
    total * burn_pct / 10000
}

/// Referral share of `amount` at `referral_pct` basis points, floored.
pub open spec fn spec_referral_bonus(amount: u64, referral_pct: u16) -> int {
    amount * referral_pct / 10000
}

/// Gross mining reward: whole reward-hours (seconds times power times rate,
/// divided by 3600, floored), scaled by the precision multiplier when that
/// multiplier exceeds one.
pub open spec fn spec_mining_reward(
    elapsed_seconds: u64,
    player_power: u64,
    bombcoin_per_block: u64,
    rewards_precision: u64,
) -> int {
    let base = elapsed_seconds * player_power * bombcoin_per_block / 3600;
    if rewards_precision > 1 {
        base * rewards_precision
    } else {
        base
    }
}

/// Splits `total` into its burn share and the remaining treasury share.
/// The two shares always add back up to `total`.
pub fn calculate_burn_split(total: u64, burn_pct: u16) -> (r: (u64, u64))
    requires
        burn_pct <= 10000,
    ensures
        r.0 == spec_burn_amount(total, burn_pct),
        r.1 == total - r.0,
        r.0 + r.1 == total,
{
    proof {
        lemma_bps_share_bounded(total, burn_pct);
    }
    let burn_amount: u64 = ((total as u128) * (burn_pct as u128) / 10000) as u64;
    let treasury_amount: u64 = total - burn_amount;
    (burn_amount, treasury_amount)
}

/// Basis-point shares never exceed the whole.
proof fn lemma_bps_share_bounded(total: u64, pct: u16)
    requires
        pct <= 10000,
    ensures
        0 <= total * pct / 10000 <= total,
        total * pct <= 0xFFFFFFFFFFFFFFFFu64 * 10000,
{
    assert(total * pct <= total * 10000 && total * pct >= 0 && total * pct
        <= 0xFFFFFFFFFFFFFFFFu64 * 10000) by (nonlinear_arith)
        requires
            0 <= total <= 0xFFFFFFFFFFFFFFFFu64,
            0 <= pct <= 10000,
    ;
    vstd::arithmetic::div_mod::lemma_div_is_ordered(
        (total * pct) as int,
        (total * 10000) as int,
        10000,
    );
    vstd::arithmetic::div_mod::lemma_div_by_multiple(total as int, 10000);
}

/// Referral bonus owed on `amount` at `referral_pct` basis points.
pub fn calculate_referral_bonus(amount: u64, referral_pct: u16) -> (r: u64)
    requires
        referral_pct <= 10000,
    ensures
        r == spec_referral_bonus(amount, referral_pct),
        r <= amount,
{
    proof {
        lemma_bps_share_bounded(amount, referral_pct);
    }
    ((amount as u128) * (referral_pct as u128) / 10000) as u64
}

/// Gross mining reward when it fits the 64-bit range, `None` otherwise.
pub fn checked_mining_reward(
    elapsed_seconds: u64,
    player_power: u64,
    bombcoin_per_block: u64,
    rewards_precision: u64,
) -> (r: Option<u64>)
    ensures
        ({
            let g = spec_mining_reward(
                elapsed_seconds,
                player_power,
                bombcoin_per_block,
                rewards_precision,
            );
            match r {
                Some(v) => v == g,
                None => g > u64::MAX,
            }
        }),
{
    let ghost g = spec_mining_reward(
        elapsed_seconds,
        player_power,
        bombcoin_per_block,
        rewards_precision,
    );
    proof {
        assert((elapsed_seconds as int) * (player_power as int)
            < 0x100000000000000000000000000000000int) by (nonlinear_arith)
            requires
                0 <= elapsed_seconds < 0x10000000000000000int,
                0 <= player_power < 0x10000000000000000int,
        ;
    }
    let a: u128 = (elapsed_seconds as u128) * (player_power as u128);
    let b: Option<u128> = a.checked_mul(bombcoin_per_block as u128);
    match b {
        None => {
            proof {
                lemma_reward_product_huge(
                    a as int,
                    bombcoin_per_block as int,
                    rewards_precision as int,
                );
            }
            None
        },
        Some(product) => {
            let base: u128 = product / 3600;
            if rewards_precision > 1 {
                let c: Option<u128> = base.checked_mul(rewards_precision as u128);
                match c {
                    None => {
                        proof {
                            assert(g == base * rewards_precision);
                            assert(g > u64::MAX);
                        }
                        None
                    },
                    Some(total) => {
                        if total > u64::MAX as u128 {
                            None
                        } else {
                            Some(total as u64)
                        }
                    },
                }
            } else {
                if base > u64::MAX as u128 {
                    None
                } else {
                    Some(base as u64)
                }
            }
        },
    }
}

/// A product too large for 128 bits stays too large for 64 bits after the
/// division by 3600 and the precision scaling.
proof fn lemma_reward_product_huge(a: int, rate: int, precision: int)
    requires
        a * rate > 0xFFFFFFFFFFFFFFFFFFFFFFFFFFFFFFFFint,
        precision >= 0,
    ensures
        a * rate / 3600 > 0xFFFFFFFFFFFFFFFFint,
        precision > 1 ==> (a * rate / 3600) * precision > 0xFFFFFFFFFFFFFFFFint,
{
    vstd::arithmetic::div_mod::lemma_div_is_ordered(
        0x100000000000000000000000000000000int,
        a * rate,
        3600,
    );
    assert(0x100000000000000000000000000000000int / 3600 > 0xFFFFFFFFFFFFFFFFint);
    lemma_scaled_product_huge(a * rate / 3600, precision);
}

/// Scaling a value beyond the 64-bit range by a multiplier above one keeps it
/// beyond the 64-bit range.
proof fn lemma_scaled_product_huge(base: int, precision: int)
    requires
        base > 0xFFFFFFFFFFFFFFFFint,
    ensures
        precision > 1 ==> base * precision > 0xFFFFFFFFFFFFFFFFint,
{
    if precision > 1 {
        assert(base * precision >= base) by (nonlinear_arith)
            requires
                base > 0,
                precision >= 1,
        ;
    }
}

/// Gross mining reward; callers establish that the result fits 64 bits.
pub fn calculate_mining_reward(
    elapsed_seconds: u64,
    player_power: u64,
    bombcoin_per_block: u64,
    rewards_precision: u64,
) -> (r: u64)
    requires
        spec_mining_reward(elapsed_seconds, player_power, bombcoin_per_block, rewards_precision)
            <= u64::MAX,
    ensures
        r == spec_mining_reward(
            elapsed_seconds,
            player_power,
            bombcoin_per_block,
            rewards_precision,
        ),
{
    let r: Option<u64> = checked_mining_reward(
        elapsed_seconds,
        player_power,
        bombcoin_per_block,
        rewards_precision,
    );
    match r {
        Some(v) => v,
        None => 0,
    }
}

} // verus!
