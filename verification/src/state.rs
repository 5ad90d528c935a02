//! Data model: global economic state, the player profile with its house grid,
//! heroes with rarity-driven stats, and the level tables.

use vstd::prelude::*;

verus! {

/// A 32-byte identity (a wallet or account key). The engine never interprets
/// it; it only mixes its bytes into hero seeds and compares it for equality.
pub type AccountId = [u8; 32];

/// Sentinel stored in a tile whose slot holds no hero.
pub const EMPTY_TILE: u16 = 0xFFFF;

/// Capacity of the mining map.
pub const MAX_MAP_HEROES: usize = 15;

/// Highest house level.
pub const MAX_HOUSE_LEVEL: u8 = 6;

// ===========================================================================
// Global economic state
// ===========================================================================

/// Process-wide economic state: identities, lifecycle flags, cumulative
/// counters, the economic parameters, and the accounting totals.
#[derive(Clone, Debug, PartialEq, Eq)]
pub struct GlobalState {
    /// Admin authority.
    pub authority: AccountId,
    /// Treasury identity receiving entry fees.
    pub dev_treasury: AccountId,
    /// Identity of the emitted currency on the external ledger.
    pub reward_token_mint: AccountId,
    /// Has the game started?
    pub game_has_started: bool,
    /// Emergency pause flag; gates every state-mutating player operation.
    pub paused: bool,
    /// Is hero minting enabled?
    pub minting_enabled: bool,
    /// Are house upgrades enabled?
    pub house_upgrades_enabled: bool,
    /// Timestamp at which the game started.
    pub start_block: i64,
    /// Total number of houses initialized.
    pub house_count: u64,
    /// Total unique heroes generated globally.
    pub unique_heroes_count: u64,
    /// Sum of all active players' power (informational).
    pub total_hash_power: u64,
    /// Initial house purchase price, in native units.
    pub initial_house_price: u64,
    /// Base issuance rate (currency per hour before any halving).
    pub initial_bombcoin_per_block: u64,
    /// Supply milestone after which the rate halves again; 0 disables halving.
    pub halving_interval: u64,
    /// Burn share of hero-purchase costs, in basis points (0-10000).
    pub burn_pct: u16,
    /// Referral share of claimed rewards, in basis points (0-10000).
    pub referral_fee: u16,
    /// Reward precision multiplier; values of 0 or 1 leave rewards unscaled.
    pub rewards_precision: u64,
    /// Cumulative currency issued (drives the halving curve).
    pub total_mined: u64,
    /// Cumulative coins burned from hero purchases.
    pub total_burned: u64,
    /// Cumulative coins routed to the reward pool from hero purchases.
    pub reward_pool: u64,
}

/// Issuance rate after `halvings` halvings of `initial`: each step divides by
/// two, flooring; once the rate reaches zero it stays zero.
pub open spec fn spec_halved_rate(initial: u64, halvings: nat) -> u64
    decreases halvings,
{
    if halvings == 0 {
        initial
    } else {
        (spec_halved_rate(initial, (halvings - 1) as nat) / 2) as u64
    }
}

/// Current issuance rate of `gs`: the initial rate halved once per completed
/// halving interval of cumulative issuance. A zero interval disables halving.
pub open spec fn spec_bombcoin_per_block(gs: GlobalState) -> u64 {
    if gs.halving_interval == 0 {
        gs.initial_bombcoin_per_block
    } else {
        spec_halved_rate(
            gs.initial_bombcoin_per_block,
            (gs.total_mined / gs.halving_interval) as nat,
        )
    }
}

/// Once the halved rate reaches zero, further halvings keep it at zero.
pub proof fn lemma_halved_rate_zero_absorbs(initial: u64, k: nat, n: nat)
    requires
        spec_halved_rate(initial, k) == 0,
        k <= n,
    ensures
        spec_halved_rate(initial, n) == 0,
    decreases n,
{
    if n > k {
        lemma_halved_rate_zero_absorbs(initial, k, (n - 1) as nat);
    }
}

/// The halved rate is non-increasing in the number of halvings.
pub proof fn lemma_halved_rate_monotone(initial: u64, k: nat, n: nat)
    requires
        k <= n,
    ensures
        spec_halved_rate(initial, n) <= spec_halved_rate(initial, k),
    decreases n,
{
    if n > k {
        lemma_halved_rate_monotone(initial, k, (n - 1) as nat);
    }
}

/// After each halving the rate fits under a power of two one bit smaller.
proof fn lemma_halved_rate_bound(initial: u64, k: nat)
    requires
        k <= 64,
    ensures
        spec_halved_rate(initial, k) < vstd::arithmetic::power2::pow2((64 - k) as nat),
    decreases k,
{
    if k == 0 {
        vstd::arithmetic::power2::lemma2_to64();
        vstd::arithmetic::power2::lemma2_to64_rest();
        assert(initial < vstd::arithmetic::power2::pow2(64));
    } else {
        lemma_halved_rate_bound(initial, (k - 1) as nat);
        vstd::arithmetic::power2::lemma_pow2_unfold((64 - k + 1) as nat);
    }
}

/// Sixty-four halvings exhaust any 64-bit initial rate.
pub proof fn lemma_halved_rate_exhausts(initial: u64, n: nat)
    requires
        n >= 64,
    ensures
        spec_halved_rate(initial, n) == 0,
{
    lemma_halved_rate_bound(initial, 64);
    vstd::arithmetic::power2::lemma2_to64();
    assert(spec_halved_rate(initial, 64) == 0);
    lemma_halved_rate_zero_absorbs(initial, 64, n);
}

impl GlobalState {
    /// The configured percentage splits stay inside the basis-point domain.
    pub open spec fn wf(self) -> bool {
        &&& self.burn_pct <= 10000
        &&& self.referral_fee <= 10000
    }

    /// Current issuance rate after applying the halving curve to the
    /// cumulative issuance counter.
    pub fn get_bombcoin_per_block(&self) -> (r: u64)
        ensures
            r == spec_bombcoin_per_block(*self),
    {
        if self.halving_interval == 0 {
            return self.initial_bombcoin_per_block;
        }
        let halvings: u64 = self.total_mined / self.halving_interval;
        let mut rate: u64 = self.initial_bombcoin_per_block;
        let mut i: u64 = 0;
        while i < halvings
            invariant
                i <= halvings,
                rate == spec_halved_rate(self.initial_bombcoin_per_block, i as nat),
            ensures
                rate == spec_halved_rate(self.initial_bombcoin_per_block, halvings as nat),
            decreases halvings - i,
        {
            rate = rate / 2;
            i = i + 1;
            if rate == 0 {
                proof {
                    lemma_halved_rate_zero_absorbs(
                        self.initial_bombcoin_per_block,
                        i as nat,
                        halvings as nat,
                    );
                }
                break;
            }
        }
        rate
    }

    /// Remaining issuance until the next halving milestone; `u64::MAX` when
    /// halving is disabled. Equals the interval minus the progress into the
    /// current interval.
    pub fn blocks_until_next_halving(&self) -> (r: u64)
        ensures
            self.halving_interval == 0 ==> r == u64::MAX,
            self.halving_interval != 0 ==> r == (self.total_mined / self.halving_interval + 1)
                * self.halving_interval - self.total_mined,
            self.halving_interval != 0 ==> r == self.halving_interval - self.total_mined
                % self.halving_interval,
    {
        if self.halving_interval == 0 {
            return u64::MAX;
        }
        let rem: u64 = self.total_mined % self.halving_interval;
        proof {
            let t = self.total_mined as int;
            let iv = self.halving_interval as int;
            vstd::arithmetic::div_mod::lemma_fundamental_div_mod(t, iv);
            assert((t / iv + 1) * iv == (t / iv) * iv + iv) by (nonlinear_arith);
        }
        self.halving_interval - rem
    }
}

// ===========================================================================
// House grid
// ===========================================================================

/// One occupied slot of the house grid.
#[derive(Clone, Copy, Debug, PartialEq, Eq, Structural)]
pub struct HouseTile {
    /// Column within the grid.
    pub x: u8,
    /// Row within the grid.
    pub y: u8,
    /// Inventory index of the occupant, or `EMPTY_TILE`.
    pub hero_id: u16,
    /// Does this tile grant the boosted recovery multiplier?
    pub is_restroom: bool,
}

impl HouseTile {
    /// Does this tile hold no hero?
    pub fn is_empty(&self) -> (r: bool)
        ensures
            r == (self.hero_id == EMPTY_TILE),
    {
        self.hero_id == EMPTY_TILE
    }

    /// An unoccupied bench tile at `(x, y)`.
    pub fn empty(x: u8, y: u8) -> (r: Self)
        ensures
            r == (HouseTile { x, y, hero_id: EMPTY_TILE, is_restroom: false }),
    {
        Self { x, y, hero_id: EMPTY_TILE, is_restroom: false }
    }
}

/// Grid width for a house level (levels outside 1-6 fall back to level 1).
pub open spec fn spec_grid_width(level: u8) -> u8 {
    if level == 2 {
        4
    } else if level == 3 {
        5
    } else if level == 4 || level == 5 {
        6
    } else if level == 6 {
        7
    } else {
        4
    }
}

/// Grid height for a house level (levels outside 1-6 fall back to level 1).
pub open spec fn spec_grid_height(level: u8) -> u8 {
    if level == 1 {
        4
    } else if level == 5 || level == 6 {
        7
    } else if 2 <= level && level <= 4 {
        6
    } else {
        4
    }
}

/// Restroom-slot cap for a house level.
pub open spec fn spec_max_restroom_slots(level: u8) -> usize {
    if level == 2 {
        6
    } else if level == 3 {
        8
    } else if level == 4 {
        10
    } else if level == 5 {
        12
    } else if level == 6 {
        15
    } else {
        4
    }
}

/// Coin cost of upgrading away from `current_level`.
pub open spec fn spec_upgrade_cost(current_level: u8) -> u64 {
    if current_level == 1 {
        500
    } else if current_level == 2 {
        1000
    } else if current_level == 3 {
        2000
    } else if current_level == 4 {
        4000
    } else if current_level == 5 {
        8000
    } else {
        0
    }
}

/// Cooldown in seconds before the next upgrade from `current_level`.
pub open spec fn spec_upgrade_cooldown(current_level: u8) -> i64 {
    if current_level == 1 {
        3600
    } else if current_level == 2 {
        7200
    } else if current_level == 3 {
        14400
    } else if current_level == 4 {
        28800
    } else if current_level == 5 {
        57600
    } else {
        0
    }
}

/// House grid dimensions, together with the level lookup tables.
#[derive(Clone, Copy, Debug, PartialEq, Eq, Structural)]
pub struct GridDimensions {
    /// Number of columns.
    pub width: u8,
    /// Number of rows.
    pub height: u8,
}

impl GridDimensions {
    /// Grid size for a house level.
    pub fn for_level(level: u8) -> (r: Self)
        ensures
            r.width == spec_grid_width(level),
            r.height == spec_grid_height(level),
    {
        if level == 2 {
            Self { width: 4, height: 6 }
        } else if level == 3 {
            Self { width: 5, height: 6 }
        } else if level == 4 {
            Self { width: 6, height: 6 }
        } else if level == 5 {
            Self { width: 6, height: 7 }
        } else if level == 6 {
            Self { width: 7, height: 7 }
        } else {
            Self { width: 4, height: 4 }
        }
    }

    /// Maximum restroom slots for a house level.
    pub fn max_restroom_slots(level: u8) -> (r: usize)
        ensures
            r == spec_max_restroom_slots(level),
    {
        if level == 2 {
            6
        } else if level == 3 {
            8
        } else if level == 4 {
            10
        } else if level == 5 {
            12
        } else if level == 6 {
            15
        } else {
            4
        }
    }

    /// Coin cost of the next upgrade from `current_level`.
    pub fn upgrade_cost(current_level: u8) -> (r: u64)
        ensures
            r == spec_upgrade_cost(current_level),
    {
        if current_level == 1 {
            500
        } else if current_level == 2 {
            1000
        } else if current_level == 3 {
            2000
        } else if current_level == 4 {
            4000
        } else if current_level == 5 {
            8000
        } else {
            0
        }
    }

    /// Cooldown in seconds before the next upgrade from `current_level`.
    pub fn upgrade_cooldown(current_level: u8) -> (r: i64)
        ensures
            r == spec_upgrade_cooldown(current_level),
    {
        if current_level == 1 {
            3600
        } else if current_level == 2 {
            7200
        } else if current_level == 3 {
            14400
        } else if current_level == 4 {
            28800
        } else if current_level == 5 {
            57600
        } else {
            0
        }
    }
}

// ===========================================================================
// Heroes
// ===========================================================================

/// Hero rarity tiers; higher tiers are strictly rarer and roll higher stats.
#[derive(Clone, Copy, Debug, PartialEq, Eq, Structural)]
pub enum HeroRarity {
    /// 50% of rolls.
    Common,
    /// 30% of rolls.
    Uncommon,
    /// 15% of rolls.
    Rare,
    /// 4% of rolls.
    SuperRare,
    /// 0.9% of rolls.
    Epic,
    /// 0.2% of rolls (999 and 1000).
    Legendary,
}

/// First roll selecting a rarity tier.
pub open spec fn spec_rarity_lo(r: HeroRarity) -> u16 {
    match r {
        HeroRarity::Common => 0,
        HeroRarity::Uncommon => 500,
        HeroRarity::Rare => 800,
        HeroRarity::SuperRare => 950,
        HeroRarity::Epic => 990,
        HeroRarity::Legendary => 999,
    }
}

/// Last roll selecting a rarity tier.
pub open spec fn spec_rarity_hi(r: HeroRarity) -> u16 {
    match r {
        HeroRarity::Common => 499,
        HeroRarity::Uncommon => 799,
        HeroRarity::Rare => 949,
        HeroRarity::SuperRare => 989,
        HeroRarity::Epic => 998,
        HeroRarity::Legendary => 1000,
    }
}

/// Rarity tier selected by a bounded roll; rolls beyond the declared domain
/// fall back to `Common`.
pub open spec fn spec_rarity_from_roll(roll: u16) -> HeroRarity {
    if roll <= 499 {
        HeroRarity::Common
    } else if roll <= 799 {
        HeroRarity::Uncommon
    } else if roll <= 949 {
        HeroRarity::Rare
    } else if roll <= 989 {
        HeroRarity::SuperRare
    } else if roll <= 998 {
        HeroRarity::Epic
    } else if roll <= 1000 {
        HeroRarity::Legendary
    } else {
        HeroRarity::Common
    }
}

/// Lower bound of the power/speed/stamina range for a rarity.
pub open spec fn spec_stat_min(r: HeroRarity) -> u32 {
    match r {
        HeroRarity::Common => 10,
        HeroRarity::Uncommon => 25,
        HeroRarity::Rare => 45,
        HeroRarity::SuperRare => 70,
        HeroRarity::Epic => 95,
        HeroRarity::Legendary => 125,
    }
}

/// Upper bound of the power/speed/stamina range for a rarity.
pub open spec fn spec_stat_max(r: HeroRarity) -> u32 {
    match r {
        HeroRarity::Common => 30,
        HeroRarity::Uncommon => 50,
        HeroRarity::Rare => 75,
        HeroRarity::SuperRare => 100,
        HeroRarity::Epic => 130,
        HeroRarity::Legendary => 160,
    }
}

/// Lower bound of the bomb-count range for a rarity.
pub open spec fn spec_bomb_count_min(r: HeroRarity) -> u8 {
    match r {
        HeroRarity::Common => 1,
        HeroRarity::Uncommon => 1,
        HeroRarity::Rare => 2,
        HeroRarity::SuperRare => 2,
        HeroRarity::Epic => 3,
        HeroRarity::Legendary => 4,
    }
}

/// Upper bound of the bomb-count range for a rarity.
pub open spec fn spec_bomb_count_max(r: HeroRarity) -> u8 {
    match r {
        HeroRarity::Common => 1,
        HeroRarity::Uncommon => 2,
        HeroRarity::Rare => 2,
        HeroRarity::SuperRare => 3,
        HeroRarity::Epic => 4,
        HeroRarity::Legendary => 5,
    }
}

/// Lower bound of the bomb-range range for a rarity.
pub open spec fn spec_bomb_range_min(r: HeroRarity) -> u8 {
    match r {
        HeroRarity::Common => 1,
        HeroRarity::Uncommon => 2,
        HeroRarity::Rare => 3,
        HeroRarity::SuperRare => 4,
        HeroRarity::Epic => 5,
        HeroRarity::Legendary => 6,
    }
}

/// Upper bound of the bomb-range range for a rarity.
pub open spec fn spec_bomb_range_max(r: HeroRarity) -> u8 {
    match r {
        HeroRarity::Common => 2,
        HeroRarity::Uncommon => 3,
        HeroRarity::Rare => 4,
        HeroRarity::SuperRare => 5,
        HeroRarity::Epic => 6,
        HeroRarity::Legendary => 7,
    }
}

/// Hit-point multiplier applied to the stat sum at creation.
pub open spec fn spec_hp_multiplier(r: HeroRarity) -> u32 {
    match r {
        HeroRarity::Common => 2,
        HeroRarity::Uncommon => 3,
        HeroRarity::Rare => 3,
        HeroRarity::SuperRare => 4,
        HeroRarity::Epic => 4,
        HeroRarity::Legendary => 5,
    }
}

impl HeroRarity {
    /// Rarity selected by a roll in the 0-1000 domain.
    pub fn from_roll(roll: u16) -> (r: Self)
        ensures
            r == spec_rarity_from_roll(roll),
    {
        if roll <= 499 {
            HeroRarity::Common
        } else if roll <= 799 {
            HeroRarity::Uncommon
        } else if roll <= 949 {
            HeroRarity::Rare
        } else if roll <= 989 {
            HeroRarity::SuperRare
        } else if roll <= 998 {
            HeroRarity::Epic
        } else if roll <= 1000 {
            HeroRarity::Legendary
        } else {
            HeroRarity::Common
        }
    }

    /// Inclusive power/speed/stamina range for this rarity.
    pub fn stat_range(&self) -> (r: (u32, u32))
        ensures
            r.0 == spec_stat_min(*self),
            r.1 == spec_stat_max(*self),
    {
        match self {
            HeroRarity::Common => (10, 30),
            HeroRarity::Uncommon => (25, 50),
            HeroRarity::Rare => (45, 75),
            HeroRarity::SuperRare => (70, 100),
            HeroRarity::Epic => (95, 130),
            HeroRarity::Legendary => (125, 160),
        }
    }

    /// Inclusive bomb-count range for this rarity.
    pub fn bomb_count_range(&self) -> (r: (u8, u8))
        ensures
            r.0 == spec_bomb_count_min(*self),
            r.1 == spec_bomb_count_max(*self),
    {
        match self {
            HeroRarity::Common => (1, 1),
            HeroRarity::Uncommon => (1, 2),
            HeroRarity::Rare => (2, 2),
            HeroRarity::SuperRare => (2, 3),
            HeroRarity::Epic => (3, 4),
            HeroRarity::Legendary => (4, 5),
        }
    }

    /// Inclusive bomb-range range for this rarity.
    pub fn bomb_range_range(&self) -> (r: (u8, u8))
        ensures
            r.0 == spec_bomb_range_min(*self),
            r.1 == spec_bomb_range_max(*self),
    {
        match self {
            HeroRarity::Common => (1, 2),
            HeroRarity::Uncommon => (2, 3),
            HeroRarity::Rare => (3, 4),
            HeroRarity::SuperRare => (4, 5),
            HeroRarity::Epic => (5, 6),
            HeroRarity::Legendary => (6, 7),
        }
    }
}

/// One hero. Stats are fixed at creation; only `hp` and `last_action_time`
/// change afterwards.
#[derive(Clone, Copy, Debug, PartialEq, Eq, Structural)]
pub struct Hero {
    /// Unique id within the owner's inventory.
    pub id: u16,
    /// Visual skin template (1-9).
    pub skin_id: u8,
    /// Rarity tier.
    pub rarity: HeroRarity,
    /// Power stat.
    pub power: u32,
    /// Speed stat; drives both mining power and hp drain.
    pub speed: u32,
    /// Stamina stat; drives hp recovery.
    pub stamina: u32,
    /// Stamina cap.
    pub max_stamina: u32,
    /// Bomb count; multiplies power.
    pub bomb_number: u8,
    /// Bomb range.
    pub bomb_range: u8,
    /// Current hit points; 0 means the hero sleeps.
    pub hp: u32,
    /// Hit-point cap.
    pub max_hp: u32,
    /// Timestamp of the last placement, mining move, claim or recovery.
    pub last_action_time: i64,
}

/// Mining power of a hero: power times bomb count, plus half the bomb range
/// (floored), plus twice the speed.
pub open spec fn spec_hmp(h: Hero) -> int {
    h.power * h.bomb_number + h.bomb_range / 2 + h.speed * 2
}

/// Mining power never exceeds this bound (a consequence of the field widths).
pub proof fn lemma_hmp_bound(h: Hero)
    ensures
        0 <= spec_hmp(h) < 0x20000000000,
{
    assert(h.power * h.bomb_number <= 0xFFFFFFFFu64 * 0xFF) by (nonlinear_arith)
        requires
            h.power <= 0xFFFFFFFFu64,
            h.bomb_number <= 0xFF,
    ;
    assert(h.power * h.bomb_number >= 0) by (nonlinear_arith);
}

/// Hit points drained by `elapsed_seconds` of mining: whole minutes times
/// speed, capped at the hp field's range.
pub open spec fn spec_hp_drain(h: Hero, elapsed_seconds: u64) -> u32 {
    let d = (elapsed_seconds / 60) * h.speed;
    if d > u32::MAX {
        u32::MAX
    } else {
        d as u32
    }
}

/// Hit points recovered over `elapsed_seconds` on a grid tile: whole
/// 120-second ticks times stamina times the location multiplier, capped at
/// the hp field's range.
pub open spec fn spec_hp_recovery(h: Hero, elapsed_seconds: u64, location_multiplier: u32) -> u32 {
    let g = (elapsed_seconds / 120) * h.stamina * location_multiplier;
    if g > u32::MAX {
        u32::MAX
    } else {
        g as u32
    }
}

impl Hero {
    /// Mining power contributed while this hero is awake on the map.
    pub fn calculate_hmp(&self) -> (r: u64)
        ensures
            r == spec_hmp(*self),
            r < 0x20000000000,
    {
        proof {
            lemma_hmp_bound(*self);
        }
        let power_component: u64 = (self.power as u64) * (self.bomb_number as u64);
        let range_component: u64 = (self.bomb_range as u64) / 2;
        let speed_component: u64 = (self.speed as u64) * 2;
        power_component + range_component + speed_component
    }

    /// Hit points drained by `elapsed_seconds` of active mining.
    pub fn calculate_hp_drain(&self, elapsed_seconds: u64) -> (r: u32)
        ensures
            r == spec_hp_drain(*self, elapsed_seconds),
    {
        let minutes: u64 = elapsed_seconds / 60;
        proof {
            assert((minutes as int) * (self.speed as int) < 0x1000000000000000000000000int)
                by (nonlinear_arith)
                requires
                    0 <= minutes < 0x10000000000000000int,
                    0 <= self.speed < 0x100000000int,
            ;
        }
        let d: u128 = (minutes as u128) * (self.speed as u128);
        if d > u32::MAX as u128 {
            u32::MAX
        } else {
            d as u32
        }
    }

    /// Hit points recovered over `elapsed_seconds` on a tile whose location
    /// multiplier is `location_multiplier` (bench 1, restroom 3).
    pub fn calculate_hp_recovery(&self, elapsed_seconds: u64, location_multiplier: u32) -> (r:
        u32)
        ensures
            r == spec_hp_recovery(*self, elapsed_seconds, location_multiplier),
    {
        let ticks: u64 = elapsed_seconds / 120;
        proof {
            assert((ticks as int) * (self.stamina as int) < 0x1000000000000000000000000int)
                by (nonlinear_arith)
                requires
                    0 <= ticks < 0x10000000000000000int,
                    0 <= self.stamina < 0x100000000int,
            ;
        }
        let base: u128 = (ticks as u128) * (self.stamina as u128);
        proof {
            assert((base as int) * (location_multiplier as int)
                < 0x100000000000000000000000000000000int) by (nonlinear_arith)
                requires
                    0 <= base < 0x1000000000000000000000000int,
                    0 <= location_multiplier < 0x100000000int,
            ;
        }
        let g: u128 = base * (location_multiplier as u128);
        if g > u32::MAX as u128 {
            u32::MAX
        } else {
            g as u32
        }
    }

    /// Is this hero asleep (0 hp)?
    pub fn is_sleeping(&self) -> (r: bool)
        ensures
            r == (self.hp == 0),
    {
        self.hp == 0
    }

    /// Is this hero awake (positive hp)?
    pub fn is_active(&self) -> (r: bool)
        ensures
            r == (self.hp > 0),
    {
        self.hp > 0
    }
}

// ===========================================================================
// Player profile
// ===========================================================================

/// Number of occupied restroom tiles in a grid.
pub open spec fn spec_restroom_count(tiles: Seq<HouseTile>) -> int
    decreases tiles.len(),
{
    if tiles.len() == 0 {
        0
    } else {
        spec_restroom_count(tiles.drop_last()) + if tiles.last().is_restroom
            && tiles.last().hero_id != EMPTY_TILE {
            1int
        } else {
            0int
        }
    }
}

/// Is some tile of `tiles` assigned to hero `hero_index`?
pub open spec fn spec_on_grid(tiles: Seq<HouseTile>, hero_index: u16) -> bool {
    exists|i: int| 0 <= i < tiles.len() && tiles[i].hero_id == hero_index
}

/// Does a non-empty tile of `tiles` sit at `(x, y)`?
pub open spec fn spec_coord_occupied(tiles: Seq<HouseTile>, x: u8, y: u8) -> bool {
    exists|i: int|
        0 <= i < tiles.len() && tiles[i].x == x && tiles[i].y == y && tiles[i].hero_id
            != EMPTY_TILE
}

/// Is hero `hero_index` on the mining map?
pub open spec fn spec_on_map(map: Seq<u16>, hero_index: u16) -> bool {
    exists|i: int| 0 <= i < map.len() && map[i] == hero_index
}

/// Stepping a prefix of a sequence: taking one more element appends exactly
/// the element at the old boundary.
pub proof fn lemma_take_step<T>(s: Seq<T>, i: int)
    requires
        0 <= i < s.len(),
    ensures
        s.take(i + 1).drop_last() =~= s.take(i),
        s.take(i + 1).last() == s[i],
{
}

/// One player's whole game state: house grid, hero inventory, mining map,
/// internal balances, and the referral record.
#[derive(Clone, Debug, PartialEq, Eq)]
pub struct UserAccount {
    /// Owner identity.
    pub owner: AccountId,
    /// Has the player purchased the initial house?
    pub initialized_starter_house: bool,
    /// Current house level (1-6).
    pub house_level: u8,
    /// Timestamp of the last house upgrade, or 0 before the first one.
    pub last_house_upgrade_timestamp: i64,
    /// Grid width derived from the house level.
    pub grid_width: u8,
    /// Grid height derived from the house level.
    pub grid_height: u8,
    /// Occupied grid tiles.
    pub house_occupied_coords: Vec<HouseTile>,
    /// All owned heroes.
    pub inventory: Vec<Hero>,
    /// Inventory indices of the heroes currently mining.
    pub active_map: Vec<u16>,
    /// Internal, non-transferable coin balance.
    pub coin_balance: u64,
    /// Cached sum of the mining heroes' power.
    pub player_power: u64,
    /// Pending unclaimed rewards (informational).
    pub player_pending_rewards: u64,
    /// Timestamp of the last reward claim.
    pub last_reward_block: i64,
    /// Reward-debt accumulator (informational).
    pub reward_debt: u128,
    /// Referrer identity; set at most once, never cleared.
    pub referrer: Option<AccountId>,
    /// Total referral bonus paid out through this profile.
    pub referral_bonus_paid: u64,
    /// Identities this player referred.
    pub referrals: Vec<AccountId>,
}

impl UserAccount {
    /// Structural invariant of a profile: the level is in range and the grid
    /// dimensions follow it; tiles sit inside the grid, hold valid and
    /// pairwise-distinct heroes at pairwise-distinct coordinates, and respect
    /// the restroom cap; the mining map holds at most 15 valid, distinct
    /// heroes, none of which is also on the grid; and every hero's hp is
    /// within its cap with a non-negative action timestamp.
    pub open spec fn wf(self) -> bool {
        &&& 1 <= self.house_level <= MAX_HOUSE_LEVEL
        &&& self.grid_width == spec_grid_width(self.house_level)
        &&& self.grid_height == spec_grid_height(self.house_level)
        &&& self.inventory@.len() <= 0xFFFF
        &&& forall|i: int|
            0 <= i < self.house_occupied_coords@.len() ==> {
                &&& self.house_occupied_coords@[i].hero_id < self.inventory@.len()
                &&& self.house_occupied_coords@[i].x < self.grid_width
                &&& self.house_occupied_coords@[i].y < self.grid_height
            }
        &&& forall|i: int, j: int|
            0 <= i < self.house_occupied_coords@.len() && 0 <= j
                < self.house_occupied_coords@.len() && i != j ==> !(
            self.house_occupied_coords@[i].x == self.house_occupied_coords@[j].x
                && self.house_occupied_coords@[i].y == self.house_occupied_coords@[j].y)
        &&& forall|i: int, j: int|
            0 <= i < self.house_occupied_coords@.len() && 0 <= j
                < self.house_occupied_coords@.len() && i != j
                ==> self.house_occupied_coords@[i].hero_id
                != self.house_occupied_coords@[j].hero_id
        &&& spec_restroom_count(self.house_occupied_coords@) <= spec_max_restroom_slots(
            self.house_level,
        )
        &&& self.active_map@.len() <= MAX_MAP_HEROES
        &&& forall|i: int|
            0 <= i < self.active_map@.len() ==> self.active_map@[i] < self.inventory@.len()
        &&& forall|i: int, j: int|
            0 <= i < self.active_map@.len() && 0 <= j < self.active_map@.len() && i != j
                ==> self.active_map@[i] != self.active_map@[j]
        &&& forall|i: int, j: int|
            0 <= i < self.house_occupied_coords@.len() && 0 <= j < self.active_map@.len()
                ==> self.house_occupied_coords@[i].hero_id != self.active_map@[j]
        &&& forall|i: int|
            0 <= i < self.inventory@.len() ==> self.inventory@[i].hp <= self.inventory@[i].max_hp
        &&& forall|i: int| 0 <= i < self.inventory@.len() ==> self.inventory@[i].last_action_time >= 0
        &&& self.last_house_upgrade_timestamp >= 0
    }

    /// No recorded action of this profile lies in the future of `now`.
    pub open spec fn times_ok(self, now: i64) -> bool {
        &&& forall|i: int|
            0 <= i < self.inventory@.len() ==> self.inventory@[i].last_action_time <= now
        &&& self.last_house_upgrade_timestamp <= now
    }

    /// Coin cost of the next house upgrade.
    pub fn get_upgrade_cost(&self) -> (r: u64)
        ensures
            r == spec_upgrade_cost(self.house_level),
    {
        GridDimensions::upgrade_cost(self.house_level)
    }

    /// Cooldown before the next house upgrade.
    pub fn get_upgrade_cooldown(&self) -> (r: i64)
        ensures
            r == spec_upgrade_cooldown(self.house_level),
    {
        GridDimensions::upgrade_cooldown(self.house_level)
    }

    /// Restroom-slot cap at the current house level.
    pub fn get_max_restroom_slots(&self) -> (r: usize)
        ensures
            r == spec_max_restroom_slots(self.house_level),
    {
        GridDimensions::max_restroom_slots(self.house_level)
    }

    /// Number of occupied restroom tiles.
    pub fn count_restroom_slots(&self) -> (r: usize)
        ensures
            r == spec_restroom_count(self.house_occupied_coords@),
    {
        let tiles: &Vec<HouseTile> = &self.house_occupied_coords;
        let mut count: usize = 0;
        let mut i: usize = 0;
        while i < tiles.len()
            invariant
                tiles@ == self.house_occupied_coords@,
                i <= tiles@.len(),
                count == spec_restroom_count(tiles@.take(i as int)),
                count <= i,
            decreases tiles@.len() - i,
        {
            proof {
                lemma_take_step(tiles@, i as int);
            }
            if tiles[i].is_restroom && !tiles[i].is_empty() {
                count = count + 1;
            }
            i = i + 1;
        }
        proof {
            assert(tiles@.take(tiles@.len() as int) =~= tiles@);
        }
        count
    }

    /// The tile holding hero `hero_index`, if any.
    pub fn find_hero_on_grid(&self, hero_index: u16) -> (r: Option<HouseTile>)
        ensures
            match r {
                Some(t) => spec_on_grid(self.house_occupied_coords@, hero_index)
                    && t.hero_id == hero_index && self.house_occupied_coords@.contains(t),
                None => !spec_on_grid(self.house_occupied_coords@, hero_index),
            },
    {
        let tiles: &Vec<HouseTile> = &self.house_occupied_coords;
        let mut i: usize = 0;
        while i < tiles.len()
            invariant
                tiles@ == self.house_occupied_coords@,
                i <= tiles@.len(),
                forall|j: int| 0 <= j < i ==> tiles@[j].hero_id != hero_index,
            decreases tiles@.len() - i,
        {
            if tiles[i].hero_id == hero_index {
                proof {
                    assert(0 <= i < tiles@.len() && tiles@[i as int].hero_id == hero_index);
                    assert(tiles@.contains(tiles@[i as int]));
                }
                return Some(tiles[i]);
            }
            i = i + 1;
        }
        None
    }

    /// Does `(x, y)` lie inside the current grid?
    pub fn is_valid_coord(&self, x: u8, y: u8) -> (r: bool)
        ensures
            r == (x < self.grid_width && y < self.grid_height),
    {
        x < self.grid_width && y < self.grid_height
    }

    /// Is `(x, y)` occupied by a hero?
    pub fn is_coord_occupied(&self, x: u8, y: u8) -> (r: bool)
        ensures
            r == spec_coord_occupied(self.house_occupied_coords@, x, y),
    {
        let tiles: &Vec<HouseTile> = &self.house_occupied_coords;
        let mut i: usize = 0;
        while i < tiles.len()
            invariant
                tiles@ == self.house_occupied_coords@,
                i <= tiles@.len(),
                forall|j: int|
                    0 <= j < i ==> !(tiles@[j].x == x && tiles@[j].y == y && tiles@[j].hero_id
                        != EMPTY_TILE),
            decreases tiles@.len() - i,
        {
            if tiles[i].x == x && tiles[i].y == y && !tiles[i].is_empty() {
                proof {
                    assert(0 <= i < tiles@.len() && tiles@[i as int].x == x && tiles@[i as int].y
                        == y && tiles@[i as int].hero_id != EMPTY_TILE);
                }
                return true;
            }
            i = i + 1;
        }
        false
    }
}

} // verus!
