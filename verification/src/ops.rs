//! Game operations: every player- or admin-facing action, as a function of
//! the global state, one player profile, and the current timestamp.
//!
//! Every operation validates all of its preconditions before mutating
//! anything, so a failed operation leaves both the global state and the
//! profile exactly as they were. Amounts owed to the external value ledger
//! (minted rewards, referral credits) are returned as data; the engine never
//! holds custody itself.

use vstd::prelude::*;
use vstd::pervasive::VecAdditionalExecFns;
use crate::errors::GameError;
use crate::state::{
    AccountId, EMPTY_TILE, GlobalState, GridDimensions, Hero, HouseTile, MAX_HOUSE_LEVEL,
    MAX_MAP_HEROES, UserAccount, lemma_take_step, spec_coord_occupied, spec_grid_height,
    spec_grid_width, spec_hmp, spec_max_restroom_slots, spec_on_grid, spec_restroom_count,
    spec_upgrade_cooldown, spec_upgrade_cost,
};

verus! {

// ===========================================================================
// Identity helpers
// ===========================================================================

/// Byte-for-byte equality of two identities.
pub fn account_id_eq(a: &AccountId, b: &AccountId) -> (r: bool)
    ensures
        r == (a@ == b@),
{
    let mut i: usize = 0;
    while i < 32
        invariant
            i <= 32,
            forall|j: int| 0 <= j < i ==> a@[j] == b@[j],
        decreases 32 - i,
    {
        if a[i] != b[i] {
            return false;
        }
        i = i + 1;
    }
    proof {
        assert(a@ =~= b@);
    }
    true
}

// ===========================================================================
// Admin operations
// ===========================================================================

/// The freshly initialized global state for the given configuration.
pub open spec fn spec_initial_global_state(
    authority: AccountId,
    dev_treasury: AccountId,
    reward_token_mint: AccountId,
    initial_house_price: u64,
    initial_bombcoin_per_block: u64,
    halving_interval: u64,
    burn_pct: u16,
    referral_fee: u16,
    rewards_precision: u64,
) -> GlobalState {
    GlobalState {
        authority,
        dev_treasury,
        reward_token_mint,
        game_has_started: false,
        paused: false,
        minting_enabled: true,
        house_upgrades_enabled: true,
        start_block: 0,
        house_count: 0,
        unique_heroes_count: 0,
        total_hash_power: 0,
        initial_house_price,
        initial_bombcoin_per_block,
        halving_interval,
        burn_pct,
        referral_fee,
        rewards_precision,
        total_mined: 0,
        total_burned: 0,
        reward_pool: 0,
    }
}

/// Creates the global state once, validating the basis-point parameters.
pub fn initialize_global_state(
    authority: AccountId,
    dev_treasury: AccountId,
    reward_token_mint: AccountId,
    initial_house_price: u64,
    initial_bombcoin_per_block: u64,
    halving_interval: u64,
    burn_pct: u16,
    referral_fee: u16,
    rewards_precision: u64,
) -> (r: Result<GlobalState, GameError>)
    ensures
        burn_pct > 10000 ==> r == Err::<GlobalState, GameError>(GameError::InvalidBurnPercentage),
        burn_pct <= 10000 && referral_fee > 10000 ==> r == Err::<GlobalState, GameError>(
            GameError::InvalidReferralFee,
        ),
        burn_pct <= 10000 && referral_fee <= 10000 ==> r == Ok::<GlobalState, GameError>(
            spec_initial_global_state(
                authority,
                dev_treasury,
                reward_token_mint,
                initial_house_price,
                initial_bombcoin_per_block,
                halving_interval,
                burn_pct,
                referral_fee,
                rewards_precision,
            ),
        ),
        r matches Ok(gs) ==> gs.wf(),
{
    if burn_pct > 10000 {
        return Err(GameError::InvalidBurnPercentage);
    }
    if referral_fee > 10000 {
        return Err(GameError::InvalidReferralFee);
    }
    Ok(
        GlobalState {
            authority,
            dev_treasury,
            reward_token_mint,
            game_has_started: false,
            paused: false,
            minting_enabled: true,
            house_upgrades_enabled: true,
            start_block: 0,
            house_count: 0,
            unique_heroes_count: 0,
            total_hash_power: 0,
            initial_house_price,
            initial_bombcoin_per_block,
            halving_interval,
            burn_pct,
            referral_fee,
            rewards_precision,
            total_mined: 0,
            total_burned: 0,
            reward_pool: 0,
        },
    )
}

/// The global state with every provided parameter replaced.
pub open spec fn spec_with_config(
    gs: GlobalState,
    initial_house_price: Option<u64>,
    initial_bombcoin_per_block: Option<u64>,
    halving_interval: Option<u64>,
    burn_pct: Option<u16>,
    referral_fee: Option<u16>,
    rewards_precision: Option<u64>,
) -> GlobalState {
    GlobalState {
        initial_house_price: if initial_house_price is Some {
            initial_house_price->0
        } else {
            gs.initial_house_price
        },
        initial_bombcoin_per_block: if initial_bombcoin_per_block is Some {
            initial_bombcoin_per_block->0
        } else {
            gs.initial_bombcoin_per_block
        },
        halving_interval: if halving_interval is Some {
            halving_interval->0
        } else {
            gs.halving_interval
        },
        burn_pct: if burn_pct is Some {
            burn_pct->0
        } else {
            gs.burn_pct
        },
        referral_fee: if referral_fee is Some {
            referral_fee->0
        } else {
            gs.referral_fee
        },
        rewards_precision: if rewards_precision is Some {
            rewards_precision->0
        } else {
            gs.rewards_precision
        },
        ..gs
    }
}

/// Replaces the provided economic parameters, validating the basis-point
/// ones; an invalid parameter leaves the whole configuration untouched.
pub fn update_game_config(
    gs: &mut GlobalState,
    initial_house_price: Option<u64>,
    initial_bombcoin_per_block: Option<u64>,
    halving_interval: Option<u64>,
    burn_pct: Option<u16>,
    referral_fee: Option<u16>,
    rewards_precision: Option<u64>,
) -> (r: Result<(), GameError>)
    requires
        old(gs).wf(),
    ensures
        ({
            let bad_burn = burn_pct matches Some(b) && b > 10000;
            let bad_referral = referral_fee matches Some(f) && f > 10000;
            &&& bad_burn ==> r == Err::<(), GameError>(GameError::InvalidBurnPercentage)
                && *final(gs) == *old(gs)
            &&& !bad_burn && bad_referral ==> r == Err::<(), GameError>(
                GameError::InvalidReferralFee,
            ) && *final(gs) == *old(gs)
            &&& !bad_burn && !bad_referral ==> r == Ok::<(), GameError>(()) && *final(gs)
                == spec_with_config(
                *old(gs),
                initial_house_price,
                initial_bombcoin_per_block,
                halving_interval,
                burn_pct,
                referral_fee,
                rewards_precision,
            )
        }),
        final(gs).wf(),
{
    match burn_pct {
        Some(b) => {
            if b > 10000 {
                return Err(GameError::InvalidBurnPercentage);
            }
        },
        None => {},
    }
    match referral_fee {
        Some(f) => {
            if f > 10000 {
                return Err(GameError::InvalidReferralFee);
            }
        },
        None => {},
    }
    match initial_house_price {
        Some(price) => {
            gs.initial_house_price = price;
        },
        None => {},
    }
    match initial_bombcoin_per_block {
        Some(rate) => {
            gs.initial_bombcoin_per_block = rate;
        },
        None => {},
    }
    match halving_interval {
        Some(interval) => {
            gs.halving_interval = interval;
        },
        None => {},
    }
    match burn_pct {
        Some(b) => {
            gs.burn_pct = b;
        },
        None => {},
    }
    match referral_fee {
        Some(f) => {
            gs.referral_fee = f;
        },
        None => {},
    }
    match rewards_precision {
        Some(precision) => {
            gs.rewards_precision = precision;
        },
        None => {},
    }
    Ok(())
}

/// Points the treasury at a new identity.
pub fn set_treasury(gs: &mut GlobalState, new_treasury: AccountId) -> (r: Result<(), GameError>)
    ensures
        r == Ok::<(), GameError>(()),
        *final(gs) == (GlobalState { dev_treasury: new_treasury, ..*old(gs) }),
{
    gs.dev_treasury = new_treasury;
    Ok(())
}

/// Starts the game once; a second start fails.
pub fn start_game(gs: &mut GlobalState, now: i64) -> (r: Result<(), GameError>)
    ensures
        old(gs).game_has_started ==> r == Err::<(), GameError>(GameError::AlreadyInitialized)
            && *final(gs) == *old(gs),
        !old(gs).game_has_started ==> r == Ok::<(), GameError>(()) && *final(gs) == (GlobalState {
            game_has_started: true,
            start_block: now,
            ..*old(gs)
        }),
{
    if gs.game_has_started {
        return Err(GameError::AlreadyInitialized);
    }
    gs.game_has_started = true;
    gs.start_block = now;
    Ok(())
}

/// Sets the pause flag.
pub fn toggle_pause(gs: &mut GlobalState, paused: bool) -> (r: Result<(), GameError>)
    ensures
        r == Ok::<(), GameError>(()),
        *final(gs) == (GlobalState { paused, ..*old(gs) }),
{
    gs.paused = paused;
    Ok(())
}

/// Sets the hero-minting flag.
pub fn toggle_minting(gs: &mut GlobalState, enabled: bool) -> (r: Result<(), GameError>)
    ensures
        r == Ok::<(), GameError>(()),
        *final(gs) == (GlobalState { minting_enabled: enabled, ..*old(gs) }),
{
    gs.minting_enabled = enabled;
    Ok(())
}

/// Sets the house-upgrades flag.
pub fn toggle_house_upgrades(gs: &mut GlobalState, enabled: bool) -> (r: Result<(), GameError>)
    ensures
        r == Ok::<(), GameError>(()),
        *final(gs) == (GlobalState { house_upgrades_enabled: enabled, ..*old(gs) }),
{
    gs.house_upgrades_enabled = enabled;
    Ok(())
}

// ===========================================================================
// Profile lifecycle
// ===========================================================================

/// Is `ua` the fresh profile created by the initial house purchase: level 1,
/// a 4x4 grid, and empty inventories and balances?
pub open spec fn spec_is_new_user_account(ua: UserAccount, owner: AccountId) -> bool {
    &&& ua.owner == owner
    &&& ua.initialized_starter_house == true
    &&& ua.house_level == 1
    &&& ua.last_house_upgrade_timestamp == 0
    &&& ua.grid_width == 4
    &&& ua.grid_height == 4
    &&& ua.house_occupied_coords@ == Seq::<HouseTile>::empty()
    &&& ua.inventory@ == Seq::<Hero>::empty()
    &&& ua.active_map@ == Seq::<u16>::empty()
    &&& ua.coin_balance == 0
    &&& ua.player_power == 0
    &&& ua.player_pending_rewards == 0
    &&& ua.last_reward_block == 0
    &&& ua.reward_debt == 0
    &&& ua.referrer is None
    &&& ua.referral_bonus_paid == 0
    &&& ua.referrals@ == Seq::<AccountId>::empty()
}

/// Creates the caller's profile against the one-time entry fee. The fee
/// itself (the current `initial_house_price`, payable to the treasury) is
/// transferred by the hosting environment before this call.
pub fn purchase_initial_house(gs: &mut GlobalState, owner: AccountId) -> (r: Result<
    UserAccount,
    GameError,
>)
    ensures
        !old(gs).game_has_started ==> r == Err::<UserAccount, GameError>(GameError::GameNotStarted)
            && *final(gs) == *old(gs),
        old(gs).game_has_started && old(gs).paused ==> r == Err::<UserAccount, GameError>(
            GameError::GamePaused,
        ) && *final(gs) == *old(gs),
        old(gs).game_has_started && !old(gs).paused && old(gs).house_count == u64::MAX ==> r
            == Err::<UserAccount, GameError>(GameError::ArithmeticOverflow) && *final(gs) == *old(
            gs,
        ),
        old(gs).game_has_started && !old(gs).paused && old(gs).house_count < u64::MAX ==> {
            &&& r matches Ok(ua)
            &&& (r matches Ok(ua) ==> spec_is_new_user_account(ua, owner) && ua.wf())
            &&& *final(gs) == (GlobalState {
                house_count: (old(gs).house_count + 1) as u64,
                ..*old(gs)
            })
        },
{
    if !gs.game_has_started {
        return Err(GameError::GameNotStarted);
    }
    if gs.paused {
        return Err(GameError::GamePaused);
    }
    if gs.house_count == u64::MAX {
        return Err(GameError::ArithmeticOverflow);
    }
    let dims: GridDimensions = GridDimensions::for_level(1);
    let ua = UserAccount {
        owner,
        initialized_starter_house: true,
        house_level: 1,
        last_house_upgrade_timestamp: 0,
        grid_width: dims.width,
        grid_height: dims.height,
        house_occupied_coords: Vec::new(),
        inventory: Vec::new(),
        active_map: Vec::new(),
        coin_balance: 0,
        player_power: 0,
        player_pending_rewards: 0,
        last_reward_block: 0,
        reward_debt: 0,
        referrer: None,
        referral_bonus_paid: 0,
        referrals: Vec::new(),
    };
    gs.house_count = gs.house_count + 1;
    Ok(ua)
}

/// What recording a referrer does: it fails on a profile whose referrer is
/// already set, fails when the profile would refer itself, and otherwise
/// records the referrer; in every case the rest of the profile is untouched.
pub open spec fn spec_set_referrer(ua: UserAccount, referrer: AccountId) -> (Result<
    (),
    GameError,
>, UserAccount) {
    if ua.referrer is Some {
        (Err(GameError::ReferrerAlreadySet), ua)
    } else if referrer@ == ua.owner@ {
        (Err(GameError::CannotReferSelf), ua)
    } else {
        (Ok(()), UserAccount { referrer: Some(referrer), ..ua })
    }
}

/// Records the caller's referrer, at most once and never the caller itself,
/// gated by the pause flag. A profile whose referrer is set keeps it
/// forever.
pub fn set_referrer(gs: &GlobalState, ua: &mut UserAccount, referrer_pubkey: AccountId) -> (r:
    Result<(), GameError>)
    ensures
        gs.paused ==> r == Err::<(), GameError>(GameError::GamePaused),
        !gs.paused ==> r == spec_set_referrer(*old(ua), referrer_pubkey).0 && *final(ua)
            == spec_set_referrer(*old(ua), referrer_pubkey).1,
        r is Err ==> *final(ua) == *old(ua),
        old(ua).wf() ==> final(ua).wf(),
{
    if gs.paused {
        return Err(GameError::GamePaused);
    }
    if ua.referrer.is_some() {
        return Err(GameError::ReferrerAlreadySet);
    }
    if account_id_eq(&referrer_pubkey, &ua.owner) {
        return Err(GameError::CannotReferSelf);
    }
    ua.referrer = Some(referrer_pubkey);
    Ok(())
}

// ===========================================================================
// House upgrades
// ===========================================================================

/// Upgrades the house one level: gated by the pause and upgrade flags, the
/// maximum level, the level's cooldown and the level's coin cost; on success
/// the cost is deducted and the grid grows to the next level's dimensions.
pub fn upgrade_house(gs: &GlobalState, ua: &mut UserAccount, now: i64) -> (r: Result<
    (),
    GameError,
>)
    requires
        old(ua).wf(),
        old(ua).times_ok(now),
        now >= 0,
    ensures
        r is Err ==> *final(ua) == *old(ua),
        gs.paused ==> r == Err::<(), GameError>(GameError::GamePaused),
        !gs.paused && !gs.house_upgrades_enabled ==> r == Err::<(), GameError>(
            GameError::HouseUpgradesDisabled,
        ),
        !gs.paused && gs.house_upgrades_enabled && old(ua).house_level >= MAX_HOUSE_LEVEL ==> r
            == Err::<(), GameError>(GameError::MaxHouseLevelReached),
        ({
            let cooldown_active = old(ua).last_house_upgrade_timestamp > 0 && now - old(
                ua,
            ).last_house_upgrade_timestamp < spec_upgrade_cooldown(old(ua).house_level);
            &&& !gs.paused && gs.house_upgrades_enabled && old(ua).house_level < MAX_HOUSE_LEVEL
                && cooldown_active ==> r == Err::<(), GameError>(GameError::UpgradeCooldownActive)
            &&& !gs.paused && gs.house_upgrades_enabled && old(ua).house_level < MAX_HOUSE_LEVEL
                && !cooldown_active && old(ua).coin_balance < spec_upgrade_cost(
                old(ua).house_level,
            ) ==> r == Err::<(), GameError>(GameError::InsufficientCoins)
            &&& !gs.paused && gs.house_upgrades_enabled && old(ua).house_level < MAX_HOUSE_LEVEL
                && !cooldown_active && old(ua).coin_balance >= spec_upgrade_cost(
                old(ua).house_level,
            ) ==> r == Ok::<(), GameError>(()) && *final(ua) == (UserAccount {
                coin_balance: (old(ua).coin_balance - spec_upgrade_cost(
                    old(ua).house_level,
                )) as u64,
                house_level: (old(ua).house_level + 1) as u8,
                last_house_upgrade_timestamp: now,
                grid_width: spec_grid_width((old(ua).house_level + 1) as u8),
                grid_height: spec_grid_height((old(ua).house_level + 1) as u8),
                ..*old(ua)
            })
        }),
        final(ua).wf(),
        final(ua).times_ok(now),
{
    if gs.paused {
        return Err(GameError::GamePaused);
    }
    if !gs.house_upgrades_enabled {
        return Err(GameError::HouseUpgradesDisabled);
    }
    if ua.house_level >= MAX_HOUSE_LEVEL {
        return Err(GameError::MaxHouseLevelReached);
    }
    if ua.last_house_upgrade_timestamp > 0 {
        let cooldown: i64 = ua.get_upgrade_cooldown();
        let time_since_upgrade: i64 = now - ua.last_house_upgrade_timestamp;
        if time_since_upgrade < cooldown {
            return Err(GameError::UpgradeCooldownActive);
        }
    }
    let cost: u64 = ua.get_upgrade_cost();
    if ua.coin_balance < cost {
        return Err(GameError::InsufficientCoins);
    }
    ua.coin_balance = ua.coin_balance - cost;
    ua.house_level = ua.house_level + 1;
    ua.last_house_upgrade_timestamp = now;
    let new_dims: GridDimensions = GridDimensions::for_level(ua.house_level);
    ua.grid_width = new_dims.width;
    ua.grid_height = new_dims.height;
    Ok(())
}

// ===========================================================================
// Order-preserving removal
// ===========================================================================

/// The subsequence of `s` whose elements satisfy `p`, in their original
/// order.
pub open spec fn spec_retain<T>(s: Seq<T>, p: spec_fn(T) -> bool) -> Seq<T>
    decreases s.len(),
{
    if s.len() == 0 {
        Seq::empty()
    } else if p(s.last()) {
        spec_retain(s.drop_last(), p).push(s.last())
    } else {
        spec_retain(s.drop_last(), p)
    }
}

/// Retaining keeps a subset of the elements, each satisfying the predicate.
pub proof fn lemma_retain_props<T>(s: Seq<T>, p: spec_fn(T) -> bool)
    ensures
        spec_retain(s, p).len() <= s.len(),
        forall|i: int| 0 <= i < spec_retain(s, p).len() ==> s.contains(#[trigger] spec_retain(s, p)[i]),
        forall|i: int| 0 <= i < spec_retain(s, p).len() ==> p(#[trigger] spec_retain(s, p)[i]),
    decreases s.len(),
{
    if s.len() > 0 {
        let tl = s.drop_last();
        lemma_retain_props(tl, p);
        let r = spec_retain(s, p);
        let rp = spec_retain(tl, p);
        assert forall|i: int| 0 <= i < r.len() implies s.contains(#[trigger] r[i]) && p(r[i]) by {
            if p(s.last()) && i == r.len() - 1 {
                assert(r[i] == s.last());
                assert(s[s.len() - 1] == s.last());
            } else {
                assert(r[i] == rp[i]);
                assert(tl.contains(rp[i]));
                let k = choose|k: int| 0 <= k < tl.len() && tl[k] == rp[i];
                assert(s[k] == rp[i]);
            }
        }
    }
}

/// Retaining preserves pairwise distinctness under any projection `g`.
pub proof fn lemma_retain_distinct<T, K>(s: Seq<T>, p: spec_fn(T) -> bool, g: spec_fn(T) -> K)
    requires
        forall|i: int, j: int| 0 <= i < s.len() && 0 <= j < s.len() && i != j ==> g(s[i]) != g(s[j]),
    ensures
        forall|i: int, j: int|
            0 <= i < spec_retain(s, p).len() && 0 <= j < spec_retain(s, p).len() && i != j ==> g(
                spec_retain(s, p)[i],
            ) != g(spec_retain(s, p)[j]),
    decreases s.len(),
{
    if s.len() > 0 {
        let tl = s.drop_last();
        assert(forall|i: int, j: int|
            0 <= i < tl.len() && 0 <= j < tl.len() && i != j ==> g(tl[i]) != g(tl[j]));
        lemma_retain_distinct(tl, p, g);
        lemma_retain_props(tl, p);
        let r = spec_retain(s, p);
        let rp = spec_retain(tl, p);
        if p(s.last()) {
            assert forall|i: int, j: int|
                0 <= i < r.len() && 0 <= j < r.len() && i != j implies g(r[i]) != g(r[j]) by {
                if i < r.len() - 1 && j < r.len() - 1 {
                    assert(r[i] == rp[i] && r[j] == rp[j]);
                } else {
                    let a = if i == r.len() - 1 { j } else { i };
                    assert(r[a] == rp[a]);
                    assert(tl.contains(rp[a]));
                    let k = choose|k: int| 0 <= k < tl.len() && tl[k] == rp[a];
                    assert(s[k] == rp[a]);
                    assert(g(s[k]) != g(s[s.len() - 1]));
                    assert(r[r.len() - 1] == s.last());
                }
            }
        }
    }
}

/// Retaining never increases the count of occupied restroom tiles.
pub proof fn lemma_retain_restroom_count(tiles: Seq<HouseTile>, p: spec_fn(HouseTile) -> bool)
    ensures
        spec_restroom_count(spec_retain(tiles, p)) <= spec_restroom_count(tiles),
        spec_restroom_count(spec_retain(tiles, p)) >= 0,
        spec_restroom_count(tiles) >= 0,
    decreases tiles.len(),
{
    if tiles.len() == 0 {
    } else {
        let tl = tiles.drop_last();
        lemma_retain_restroom_count(tl, p);
        let r = spec_retain(tiles, p);
        let rp = spec_retain(tl, p);
        if p(tiles.last()) {
            assert(r == rp.push(tiles.last()));
            assert(r.drop_last() =~= rp);
            assert(r.last() == tiles.last());
        }
    }
}

// ===========================================================================
// Grid removal
// ===========================================================================

/// Keeps every tile that is not a non-empty tile at `(x, y)`.
pub open spec fn spec_not_at_coord(x: u8, y: u8) -> spec_fn(HouseTile) -> bool {
    |t: HouseTile| !(t.x == x && t.y == y && t.hero_id != EMPTY_TILE)
}

/// Keeps every tile not belonging to hero `h`.
pub open spec fn spec_not_hero(h: u16) -> spec_fn(HouseTile) -> bool {
    |t: HouseTile| t.hero_id != h
}

/// The grid with every non-empty tile at `(x, y)` removed; the relative
/// order of the remaining tiles is preserved.
pub open spec fn spec_grid_without_coord(tiles: Seq<HouseTile>, x: u8, y: u8) -> Seq<HouseTile> {
    spec_retain(tiles, spec_not_at_coord(x, y))
}

/// The grid with every tile of hero `h` removed; the relative order of the
/// remaining tiles is preserved.
pub open spec fn spec_grid_without_hero(tiles: Seq<HouseTile>, h: u16) -> Seq<HouseTile> {
    spec_retain(tiles, spec_not_hero(h))
}

/// Builds the grid with every non-empty tile at `(x, y)` removed.
fn grid_without_coord(tiles: &Vec<HouseTile>, x: u8, y: u8) -> (r: Vec<HouseTile>)
    ensures
        r@ == spec_grid_without_coord(tiles@, x, y),
{
    let mut out: Vec<HouseTile> = Vec::new();
    let mut i: usize = 0;
    while i < tiles.len()
        invariant
            i <= tiles@.len(),
            out@ == spec_retain(tiles@.take(i as int), spec_not_at_coord(x, y)),
        decreases tiles@.len() - i,
    {
        proof {
            lemma_take_step(tiles@, i as int);
        }
        let t: HouseTile = tiles[i];
        if !(t.x == x && t.y == y && !t.is_empty()) {
            out.push(t);
        }
        i = i + 1;
    }
    proof {
        assert(tiles@.take(tiles@.len() as int) =~= tiles@);
    }
    out
}

/// Builds the grid with every tile of hero `h` removed.
fn grid_without_hero(tiles: &Vec<HouseTile>, h: u16) -> (r: Vec<HouseTile>)
    ensures
        r@ == spec_grid_without_hero(tiles@, h),
{
    let mut out: Vec<HouseTile> = Vec::new();
    let mut i: usize = 0;
    while i < tiles.len()
        invariant
            i <= tiles@.len(),
            out@ == spec_retain(tiles@.take(i as int), spec_not_hero(h)),
        decreases tiles@.len() - i,
    {
        proof {
            lemma_take_step(tiles@, i as int);
        }
        let t: HouseTile = tiles[i];
        if t.hero_id != h {
            out.push(t);
        }
        i = i + 1;
    }
    proof {
        assert(tiles@.take(tiles@.len() as int) =~= tiles@);
    }
    out
}

/// A grid produced by retaining tiles of a well-formed profile's grid keeps
/// every structural grid invariant of that profile.
proof fn lemma_retained_grid_keeps_wf(ua: UserAccount, p: spec_fn(HouseTile) -> bool)
    requires
        ua.wf(),
    ensures
        ({
            let nt = spec_retain(ua.house_occupied_coords@, p);
            &&& forall|i: int|
                0 <= i < nt.len() ==> (#[trigger] nt[i]).hero_id < ua.inventory@.len()
                    && nt[i].x < ua.grid_width && nt[i].y < ua.grid_height
            &&& forall|i: int, j: int|
                0 <= i < nt.len() && 0 <= j < nt.len() && i != j ==> !(nt[i].x == nt[j].x
                    && nt[i].y == nt[j].y)
            &&& forall|i: int, j: int|
                0 <= i < nt.len() && 0 <= j < nt.len() && i != j ==> nt[i].hero_id != nt[j].hero_id
            &&& spec_restroom_count(nt) <= spec_max_restroom_slots(ua.house_level)
            &&& forall|i: int, j: int|
                0 <= i < nt.len() && 0 <= j < ua.active_map@.len() ==> (
                #[trigger] nt[i]).hero_id != #[trigger] ua.active_map@[j]
        }),
{
    let tiles = ua.house_occupied_coords@;
    let nt = spec_retain(tiles, p);
    lemma_retain_props(tiles, p);
    lemma_retain_restroom_count(tiles, p);
    lemma_retain_distinct(tiles, p, |t: HouseTile| t.hero_id);
    lemma_retain_distinct(tiles, p, |t: HouseTile| (t.x, t.y));
    assert forall|i: int|
        0 <= i < nt.len() implies (#[trigger] nt[i]).hero_id < ua.inventory@.len() && nt[i].x
        < ua.grid_width && nt[i].y < ua.grid_height && (forall|j: int|
        0 <= j < ua.active_map@.len() ==> nt[i].hero_id != #[trigger] ua.active_map@[j]) by {
        assert(tiles.contains(nt[i]));
        let k = choose|k: int| 0 <= k < tiles.len() && tiles[k] == nt[i];
        assert(tiles[k].hero_id < ua.inventory@.len());
    }
    assert forall|i: int, j: int|
        0 <= i < nt.len() && 0 <= j < nt.len() && i != j implies !(nt[i].x == nt[j].x && nt[i].y
        == nt[j].y) && nt[i].hero_id != nt[j].hero_id by {
        let gc = |t: HouseTile| (t.x, t.y);
        let gh = |t: HouseTile| t.hero_id;
        assert(gc(nt[i]) != gc(nt[j]));
        assert(gh(nt[i]) != gh(nt[j]));
    }
}

/// Removes the hero at `(x, y)` from the grid, gated by the pause flag.
pub fn remove_hero_from_grid(gs: &GlobalState, ua: &mut UserAccount, x: u8, y: u8) -> (r: Result<
    (),
    GameError,
>)
    requires
        old(ua).wf(),
    ensures
        r is Err ==> *final(ua) == *old(ua),
        gs.paused ==> r == Err::<(), GameError>(GameError::GamePaused),
        !gs.paused && !(x < old(ua).grid_width && y < old(ua).grid_height) ==> r == Err::<(),
            GameError,
        >(GameError::InvalidGridCoordinates),
        !gs.paused && x < old(ua).grid_width && y < old(ua).grid_height && !spec_coord_occupied(
            old(ua).house_occupied_coords@,
            x,
            y,
        ) ==> r == Err::<(), GameError>(GameError::GridPositionEmpty),
        !gs.paused && x < old(ua).grid_width && y < old(ua).grid_height && spec_coord_occupied(
            old(ua).house_occupied_coords@,
            x,
            y,
        ) ==> r == Ok::<(), GameError>(()) && final(ua).house_occupied_coords@
            == spec_grid_without_coord(old(ua).house_occupied_coords@, x, y) && *final(ua)
            == (UserAccount {
            house_occupied_coords: final(ua).house_occupied_coords,
            ..*old(ua)
        }),
        final(ua).wf(),
{
    if gs.paused {
        return Err(GameError::GamePaused);
    }
    if !ua.is_valid_coord(x, y) {
        return Err(GameError::InvalidGridCoordinates);
    }
    if !ua.is_coord_occupied(x, y) {
        return Err(GameError::GridPositionEmpty);
    }
    proof {
        lemma_retained_grid_keeps_wf(*ua, spec_not_at_coord(x, y));
    }
    let new_tiles: Vec<HouseTile> = grid_without_coord(&ua.house_occupied_coords, x, y);
    ua.house_occupied_coords = new_tiles;
    Ok(())
}


// ===========================================================================
// Mining-map removal and player power
// ===========================================================================

/// Keeps every map entry other than hero `h`.
pub open spec fn spec_not_entry(h: u16) -> spec_fn(u16) -> bool {
    |e: u16| e != h
}

/// The mining map with hero `h` removed; the relative order of the remaining
/// entries is preserved.
pub open spec fn spec_map_without(map: Seq<u16>, h: u16) -> Seq<u16> {
    spec_retain(map, spec_not_entry(h))
}

/// Builds the mining map with hero `h` removed.
fn map_without(map: &Vec<u16>, h: u16) -> (r: Vec<u16>)
    ensures
        r@ == spec_map_without(map@, h),
{
    let mut out: Vec<u16> = Vec::new();
    let mut i: usize = 0;
    while i < map.len()
        invariant
            i <= map@.len(),
            out@ == spec_retain(map@.take(i as int), spec_not_entry(h)),
        decreases map@.len() - i,
    {
        proof {
            lemma_take_step(map@, i as int);
        }
        let e: u16 = map[i];
        if e != h {
            out.push(e);
        }
        i = i + 1;
    }
    proof {
        assert(map@.take(map@.len() as int) =~= map@);
    }
    out
}

/// A mining map produced by retaining entries of a well-formed profile's map
/// keeps every structural map invariant of that profile.
proof fn lemma_retained_map_keeps_wf(ua: UserAccount, p: spec_fn(u16) -> bool)
    requires
        ua.wf(),
    ensures
        ({
            let nm = spec_retain(ua.active_map@, p);
            &&& nm.len() <= ua.active_map@.len()
            &&& forall|i: int| 0 <= i < nm.len() ==> #[trigger] nm[i] < ua.inventory@.len()
            &&& forall|i: int, j: int|
                0 <= i < nm.len() && 0 <= j < nm.len() && i != j ==> nm[i] != nm[j]
            &&& forall|i: int, j: int|
                0 <= i < ua.house_occupied_coords@.len() && 0 <= j < nm.len() ==> (
                #[trigger] ua.house_occupied_coords@[i]).hero_id != #[trigger] nm[j]
            &&& forall|i: int| 0 <= i < nm.len() ==> p(#[trigger] nm[i])
        }),
{
    let map = ua.active_map@;
    let nm = spec_retain(map, p);
    lemma_retain_props(map, p);
    lemma_retain_distinct(map, p, |e: u16| e);
    assert forall|i: int| 0 <= i < nm.len() implies #[trigger] nm[i] < ua.inventory@.len() && (
    forall|t: int|
        0 <= t < ua.house_occupied_coords@.len() ==> (
        #[trigger] ua.house_occupied_coords@[t]).hero_id != nm[i]) by {
        assert(map.contains(nm[i]));
        let k = choose|k: int| 0 <= k < map.len() && map[k] == nm[i];
        assert(map[k] < ua.inventory@.len());
    }
    assert forall|i: int, j: int|
        0 <= i < nm.len() && 0 <= j < nm.len() && i != j implies nm[i] != nm[j] by {
        let g = |e: u16| e;
        assert(g(nm[i]) != g(nm[j]));
    }
}

/// Total mining power of the heroes on the map: every entry with positive
/// hit points contributes its mining power.
pub open spec fn spec_player_power(map: Seq<u16>, inv: Seq<Hero>) -> int
    decreases map.len(),
{
    if map.len() == 0 {
        0
    } else {
        spec_player_power(map.drop_last(), inv) + if inv[map.last() as int].hp > 0 {
            spec_hmp(inv[map.last() as int])
        } else {
            0
        }
    }
}

/// Computes the cached player power: the summed mining power of every awake
/// hero on the map.
fn compute_player_power(map: &Vec<u16>, inv: &Vec<Hero>) -> (r: u64)
    requires
        map@.len() <= MAX_MAP_HEROES,
        forall|i: int| 0 <= i < map@.len() ==> #[trigger] map@[i] < inv@.len(),
    ensures
        r == spec_player_power(map@, inv@),
        r <= 0x1E0000000000,
{
    let mut total: u64 = 0;
    let mut i: usize = 0;
    while i < map.len()
        invariant
            i <= map@.len(),
            map@.len() <= MAX_MAP_HEROES,
            forall|k: int| 0 <= k < map@.len() ==> #[trigger] map@[k] < inv@.len(),
            total == spec_player_power(map@.take(i as int), inv@),
            total <= i * 0x20000000000,
        decreases map@.len() - i,
    {
        proof {
            lemma_take_step(map@, i as int);
        }
        let idx: usize = map[i] as usize;
        let contribution: u64 = if inv[idx].hp > 0 {
            inv[idx].calculate_hmp()
        } else {
            0
        };
        total = total + contribution;
        i = i + 1;
    }
    proof {
        assert(map@.take(map@.len() as int) =~= map@);
    }
    total
}

// ===========================================================================
// Placement and mining moves
// ===========================================================================

/// Places a hero on the grid, gated by the pause flag. On success the hero
/// leaves the mining map if it was there, the tile is inserted, and the
/// hero's action timestamp is advanced; cached player power is left as it
/// was.
pub fn place_hero_on_grid(
    gs: &GlobalState,
    ua: &mut UserAccount,
    hero_index: u16,
    x: u8,
    y: u8,
    is_restroom: bool,
    now: i64,
) -> (r: Result<(), GameError>)
    requires
        old(ua).wf(),
        now >= 0,
    ensures
        r is Err ==> *final(ua) == *old(ua),
        gs.paused ==> r == Err::<(), GameError>(GameError::GamePaused),
        !gs.paused && hero_index >= old(ua).inventory@.len() ==> r == Err::<(), GameError>(
            GameError::InvalidHeroIndex,
        ),
        ({
            let tiles = old(ua).house_occupied_coords@;
            let index_ok = !gs.paused && hero_index < old(ua).inventory@.len();
            let coord_ok = x < old(ua).grid_width && y < old(ua).grid_height;
            let free = !spec_coord_occupied(tiles, x, y);
            let unplaced = !spec_on_grid(tiles, hero_index);
            let restroom_ok = !is_restroom || spec_restroom_count(tiles)
                < spec_max_restroom_slots(old(ua).house_level);
            &&& index_ok && !coord_ok ==> r == Err::<(), GameError>(
                GameError::InvalidGridCoordinates,
            )
            &&& index_ok && coord_ok && !free ==> r == Err::<(), GameError>(
                GameError::GridPositionOccupied,
            )
            &&& index_ok && coord_ok && free && !unplaced ==> r == Err::<(), GameError>(
                GameError::HeroAlreadyOnMap,
            )
            &&& index_ok && coord_ok && free && unplaced && !restroom_ok ==> r == Err::<(),
                GameError,
            >(GameError::RestroomFull)
            &&& index_ok && coord_ok && free && unplaced && restroom_ok ==> {
                &&& r == Ok::<(), GameError>(())
                &&& final(ua).house_occupied_coords@ == tiles.push(
                    HouseTile { x, y, hero_id: hero_index, is_restroom },
                )
                &&& final(ua).active_map@ == spec_map_without(old(ua).active_map@, hero_index)
                &&& final(ua).inventory@ == old(ua).inventory@.update(
                    hero_index as int,
                    (Hero {
                        last_action_time: now,
                        ..old(ua).inventory@[hero_index as int]
                    }),
                )
                &&& *final(ua) == (UserAccount {
                    house_occupied_coords: final(ua).house_occupied_coords,
                    active_map: final(ua).active_map,
                    inventory: final(ua).inventory,
                    ..*old(ua)
                })
            }
        }),
        final(ua).wf(),
        old(ua).times_ok(now) ==> final(ua).times_ok(now),
{
    if gs.paused {
        return Err(GameError::GamePaused);
    }
    if !((hero_index as usize) < ua.inventory.len()) {
        return Err(GameError::InvalidHeroIndex);
    }
    if !ua.is_valid_coord(x, y) {
        return Err(GameError::InvalidGridCoordinates);
    }
    if ua.is_coord_occupied(x, y) {
        return Err(GameError::GridPositionOccupied);
    }
    if ua.find_hero_on_grid(hero_index).is_some() {
        return Err(GameError::HeroAlreadyOnMap);
    }
    if is_restroom {
        let max_restroom: usize = ua.get_max_restroom_slots();
        let current_restroom: usize = ua.count_restroom_slots();
        if !(current_restroom < max_restroom) {
            return Err(GameError::RestroomFull);
        }
    }
    proof {
        lemma_retained_map_keeps_wf(*ua, spec_not_entry(hero_index));
    }
    let new_map: Vec<u16> = map_without(&ua.active_map, hero_index);
    ua.active_map = new_map;
    let tile = HouseTile { x, y, hero_id: hero_index, is_restroom };
    proof {
        let tiles = old(ua).house_occupied_coords@;
        assert(tiles.push(tile).drop_last() =~= tiles);
        assert(tiles.push(tile).last() == tile);
    }
    ua.house_occupied_coords.push(tile);
    let idx: usize = hero_index as usize;
    let mut h: Hero = ua.inventory[idx];
    h.last_action_time = now;
    ua.inventory.set(idx, h);
    Ok(())
}

/// Moves a hero from the grid (or the bench) onto the mining map, stamping
/// its action time and recomputing the cached player power.
pub fn move_hero_to_map(gs: &GlobalState, ua: &mut UserAccount, hero_index: u16, now: i64) -> (r:
    Result<(), GameError>)
    requires
        old(ua).wf(),
        now >= 0,
    ensures
        r is Err ==> *final(ua) == *old(ua),
        gs.paused ==> r == Err::<(), GameError>(GameError::GamePaused),
        !gs.paused && hero_index >= old(ua).inventory@.len() ==> r == Err::<(), GameError>(
            GameError::InvalidHeroIndex,
        ),
        ({
            let index_ok = hero_index < old(ua).inventory@.len();
            let has_room = old(ua).active_map@.len() < MAX_MAP_HEROES;
            let not_mining = !crate::state::spec_on_map(old(ua).active_map@, hero_index);
            let awake = old(ua).inventory@[hero_index as int].hp > 0;
            &&& !gs.paused && index_ok && !has_room ==> r == Err::<(), GameError>(
                GameError::MapFull,
            )
            &&& !gs.paused && index_ok && has_room && !not_mining ==> r == Err::<(), GameError>(
                GameError::HeroAlreadyOnMap,
            )
            &&& !gs.paused && index_ok && has_room && not_mining && !awake ==> r == Err::<(),
                GameError,
            >(GameError::HeroIsSleeping)
            &&& !gs.paused && index_ok && has_room && not_mining && awake ==> {
                &&& r == Ok::<(), GameError>(())
                &&& final(ua).house_occupied_coords@ == spec_grid_without_hero(
                    old(ua).house_occupied_coords@,
                    hero_index,
                )
                &&& final(ua).inventory@ == old(ua).inventory@.update(
                    hero_index as int,
                    (Hero {
                        last_action_time: now,
                        ..old(ua).inventory@[hero_index as int]
                    }),
                )
                &&& final(ua).active_map@ == old(ua).active_map@.push(hero_index)
                &&& final(ua).player_power == spec_player_power(
                    final(ua).active_map@,
                    final(ua).inventory@,
                )
                &&& *final(ua) == (UserAccount {
                    house_occupied_coords: final(ua).house_occupied_coords,
                    active_map: final(ua).active_map,
                    inventory: final(ua).inventory,
                    player_power: final(ua).player_power,
                    ..*old(ua)
                })
            }
        }),
        final(ua).wf(),
        old(ua).times_ok(now) ==> final(ua).times_ok(now),
{
    if gs.paused {
        return Err(GameError::GamePaused);
    }
    if !((hero_index as usize) < ua.inventory.len()) {
        return Err(GameError::InvalidHeroIndex);
    }
    if !(ua.active_map.len() < MAX_MAP_HEROES) {
        return Err(GameError::MapFull);
    }
    if contains_u16(&ua.active_map, hero_index) {
        return Err(GameError::HeroAlreadyOnMap);
    }
    if ua.inventory[hero_index as usize].is_sleeping() {
        return Err(GameError::HeroIsSleeping);
    }
    proof {
        lemma_retained_grid_keeps_wf(*ua, spec_not_hero(hero_index));
        lemma_retain_props(old(ua).house_occupied_coords@, spec_not_hero(hero_index));
    }
    let new_tiles: Vec<HouseTile> = grid_without_hero(&ua.house_occupied_coords, hero_index);
    ua.house_occupied_coords = new_tiles;
    let idx: usize = hero_index as usize;
    let mut h: Hero = ua.inventory[idx];
    h.last_action_time = now;
    ua.inventory.set(idx, h);
    ua.active_map.push(hero_index);
    ua.player_power = compute_player_power(&ua.active_map, &ua.inventory);
    Ok(())
}

/// Does the map contain this entry?
fn contains_u16(map: &Vec<u16>, h: u16) -> (r: bool)
    ensures
        r == crate::state::spec_on_map(map@, h),
{
    let mut i: usize = 0;
    while i < map.len()
        invariant
            i <= map@.len(),
            forall|j: int| 0 <= j < i ==> map@[j] != h,
        decreases map@.len() - i,
    {
        if map[i] == h {
            proof {
                assert(0 <= i < map@.len() && map@[i as int] == h);
            }
            return true;
        }
        i = i + 1;
    }
    false
}


// ===========================================================================
// Hero purchase
// ===========================================================================

/// Buys `quantity` heroes at 100 coins each: the cost is deducted, split
/// into the burn share and the reward-pool share, and each hero is generated
/// deterministically from the timestamp, slot, owner and the global hero
/// counter at its position in the batch.
pub fn buy_hero(
    gs: &mut GlobalState,
    ua: &mut UserAccount,
    quantity: u8,
    now: i64,
    slot: u64,
) -> (r: Result<(), GameError>)
    requires
        old(gs).wf(),
        old(ua).wf(),
        now >= 0,
        old(ua).inventory@.len() + quantity <= 0xFFFF,
    ensures
        r is Err ==> *final(ua) == *old(ua) && *final(gs) == *old(gs),
        final(gs).wf(),
        final(ua).wf(),
        old(gs).paused ==> r == Err::<(), GameError>(GameError::GamePaused),
        !old(gs).paused && !old(gs).minting_enabled ==> r == Err::<(), GameError>(
            GameError::MintingDisabled,
        ),
        !old(gs).paused && old(gs).minting_enabled && !(1 <= quantity <= 10) ==> r == Err::<(),
            GameError,
        >(GameError::InvalidHeroQuantity),
        ({
            let cost = quantity * 100;
            let burn = crate::utils::spec_burn_amount((quantity * 100) as u64, old(gs).burn_pct);
            let gates_ok = !old(gs).paused && old(gs).minting_enabled && 1 <= quantity <= 10;
            let fits = old(gs).unique_heroes_count + quantity <= u64::MAX && old(gs).total_burned
                + burn <= u64::MAX && old(gs).reward_pool + (cost - burn) <= u64::MAX;
            &&& gates_ok && old(ua).coin_balance < cost ==> r == Err::<(), GameError>(
                GameError::InsufficientCoins,
            )
            &&& gates_ok && old(ua).coin_balance >= cost && !fits ==> r == Err::<(), GameError>(
                GameError::ArithmeticOverflow,
            )
            &&& gates_ok && old(ua).coin_balance >= cost && fits ==> {
                &&& r == Ok::<(), GameError>(())
                &&& final(ua).coin_balance == old(ua).coin_balance - cost
                &&& final(ua).inventory@.len() == old(ua).inventory@.len() + quantity
                &&& forall|j: int|
                    0 <= j < old(ua).inventory@.len() ==> final(ua).inventory@[j] == old(
                        ua,
                    ).inventory@[j]
                &&& forall|k: int|
                    0 <= k < quantity ==> #[trigger] final(ua).inventory@[old(
                        ua,
                    ).inventory@.len() + k] == crate::utils::spec_generate_hero(
                        (old(ua).inventory@.len() + k) as u16,
                        now,
                        slot,
                        old(ua).owner@,
                        (old(gs).unique_heroes_count + k) as u64,
                    )
                &&& *final(ua) == (UserAccount {
                    coin_balance: final(ua).coin_balance,
                    inventory: final(ua).inventory,
                    ..*old(ua)
                })
                &&& *final(gs) == (GlobalState {
                    total_burned: (old(gs).total_burned + burn) as u64,
                    reward_pool: (old(gs).reward_pool + (cost - burn)) as u64,
                    unique_heroes_count: (old(gs).unique_heroes_count + quantity) as u64,
                    ..*old(gs)
                })
            }
        }),
        old(ua).times_ok(now) ==> final(ua).times_ok(now),
{
    if gs.paused {
        return Err(GameError::GamePaused);
    }
    if !gs.minting_enabled {
        return Err(GameError::MintingDisabled);
    }
    if !(quantity >= 1 && quantity <= 10) {
        return Err(GameError::InvalidHeroQuantity);
    }
    let total_cost: u64 = (quantity as u64) * 100;
    if ua.coin_balance < total_cost {
        return Err(GameError::InsufficientCoins);
    }
    let (burn_amount, treasury_amount): (u64, u64) = crate::utils::calculate_burn_split(
        total_cost,
        gs.burn_pct,
    );
    if gs.unique_heroes_count > u64::MAX - (quantity as u64) {
        return Err(GameError::ArithmeticOverflow);
    }
    if gs.total_burned > u64::MAX - burn_amount {
        return Err(GameError::ArithmeticOverflow);
    }
    if gs.reward_pool > u64::MAX - treasury_amount {
        return Err(GameError::ArithmeticOverflow);
    }

    let base_len: usize = ua.inventory.len();
    let base_count: u64 = gs.unique_heroes_count;
    let mut minted: Vec<Hero> = Vec::new();
    let mut k: u8 = 0;
    while k < quantity
        invariant
            k <= quantity,
            base_len + quantity <= 0xFFFF,
            base_count + quantity <= u64::MAX,
            minted@.len() == k as int,
            forall|j: int|
                0 <= j < k ==> #[trigger] minted@[j] == crate::utils::spec_generate_hero(
                    (base_len + j) as u16,
                    now,
                    slot,
                    ua.owner@,
                    (base_count + j) as u64,
                ),
            ua.owner == old(ua).owner,
        decreases quantity - k,
    {
        let hero_id: u16 = (base_len + (k as usize)) as u16;
        let hero: Hero = match crate::utils::generate_hero(
            hero_id,
            now,
            slot,
            ua.owner,
            base_count + (k as u64),
        ) {
            Ok(h) => h,
            Err(e) => {
                return Err(e);
            },
        };
        minted.push(hero);
        k = k + 1;
    }

    ua.coin_balance = ua.coin_balance - total_cost;
    gs.total_burned = gs.total_burned + burn_amount;
    gs.reward_pool = gs.reward_pool + treasury_amount;
    gs.unique_heroes_count = gs.unique_heroes_count + (quantity as u64);
    let ghost minted_view = minted@;
    ua.inventory.append(&mut minted);
    proof {
        assert(final(ua).inventory@ =~= old(ua).inventory@ + minted_view);
    }
    Ok(())
}

// ===========================================================================
// Recovery
// ===========================================================================

/// The hit-point recovery multiplier of a tile: benches recover at the base
/// rate, restrooms at three times it.
pub open spec fn spec_tile_multiplier(t: HouseTile) -> u32 {
    if t.is_restroom {
        3
    } else {
        1
    }
}

/// Hero `h` after recovering on tile `t` from its last action until `now`:
/// hp rises by the tile-scaled recovery, clamped to the cap, and the action
/// timestamp advances.
pub open spec fn spec_recovered_hero(h: Hero, t: HouseTile, now: i64) -> Hero {
    let elapsed = (now - h.last_action_time) as u64;
    let rec = crate::state::spec_hp_recovery(h, elapsed, spec_tile_multiplier(t));
    Hero {
        hp: if h.hp + rec > h.max_hp {
            h.max_hp
        } else {
            (h.hp + rec) as u32
        },
        last_action_time: now,
        ..h
    }
}

/// The tile holding hero `h` (meaningful when exactly one such tile exists).
pub open spec fn spec_tile_for(tiles: Seq<HouseTile>, h: u16) -> HouseTile {
    tiles[choose|i: int| 0 <= i < tiles.len() && tiles[i].hero_id == h]
}

/// One more tile covers exactly its occupant.
proof fn lemma_on_grid_take_step(tiles: Seq<HouseTile>, i: int, x: u16)
    requires
        0 <= i < tiles.len(),
    ensures
        spec_on_grid(tiles.take(i + 1), x) <==> (spec_on_grid(tiles.take(i), x)
            || tiles[i].hero_id == x),
{
    let a = tiles.take(i);
    let b = tiles.take(i + 1);
    assert(forall|m: int| 0 <= m < b.len() ==> b[m] == tiles[m]);
    if spec_on_grid(b, x) {
        let m = choose|m: int| 0 <= m < b.len() && b[m].hero_id == x;
        if m < i {
            assert(a[m].hero_id == x);
        }
    }
    if spec_on_grid(a, x) {
        let m = choose|m: int| 0 <= m < a.len() && a[m].hero_id == x;
        assert(b[m].hero_id == x);
    }
    if tiles[i].hero_id == x {
        assert(b[i].hero_id == x);
    }
}

/// Recovers hit points for every hero placed on the grid, gated by the
/// pause flag: each hero recovers according to its own elapsed time and its
/// tile's multiplier, clamped to its hp cap, and its action timestamp
/// advances to `now`.
pub fn recover_hp(gs: &GlobalState, ua: &mut UserAccount, now: i64) -> (r: Result<(), GameError>)
    requires
        old(ua).wf(),
        old(ua).times_ok(now),
        now >= 0,
    ensures
        gs.paused ==> r == Err::<(), GameError>(GameError::GamePaused) && *final(ua) == *old(ua),
        !gs.paused ==> r == Ok::<(), GameError>(()) && final(ua).inventory@.len() == old(
            ua,
        ).inventory@.len() && (forall|j: int|
            0 <= j < old(ua).inventory@.len() ==> final(ua).inventory@[j] == (if spec_on_grid(
                old(ua).house_occupied_coords@,
                j as u16,
            ) {
                spec_recovered_hero(
                    old(ua).inventory@[j],
                    spec_tile_for(old(ua).house_occupied_coords@, j as u16),
                    now,
                )
            } else {
                old(ua).inventory@[j]
            })) && *final(ua) == (UserAccount { inventory: final(ua).inventory, ..*old(ua) }),
        final(ua).wf(),
        final(ua).times_ok(now),
{
    if gs.paused {
        return Err(GameError::GamePaused);
    }
    let ghost tiles = old(ua).house_occupied_coords@;
    let ghost old_inv = old(ua).inventory@;
    let n: usize = ua.house_occupied_coords.len();
    let mut i: usize = 0;
    while i < n
        invariant
            i <= n,
            n == tiles.len(),
            ua.house_occupied_coords@ == tiles,
            old(ua).wf(),
            old(ua).times_ok(now),
            now >= 0,
            ua.inventory@.len() == old_inv.len(),
            tiles == old(ua).house_occupied_coords@,
            old_inv == old(ua).inventory@,
            forall|j: int|
                0 <= j < old_inv.len() ==> ua.inventory@[j] == (if spec_on_grid(
                    tiles.take(i as int),
                    j as u16,
                ) {
                    spec_recovered_hero(old_inv[j], spec_tile_for(tiles, j as u16), now)
                } else {
                    old_inv[j]
                }),
            *ua == (UserAccount { inventory: ua.inventory, ..*old(ua) }),
        decreases n - i,
    {
        let tile: HouseTile = ua.house_occupied_coords[i];
        proof {
            assert(tiles[i as int] == tile);
        }
        if !tile.is_empty() {
            let idx: usize = tile.hero_id as usize;
            proof {
                assert(tiles[i as int].hero_id < old_inv.len());
                assert(!spec_on_grid(tiles.take(i as int), tile.hero_id)) by {
                    if spec_on_grid(tiles.take(i as int), tile.hero_id) {
                        let m = choose|m: int|
                            0 <= m < tiles.take(i as int).len()
                                && tiles.take(i as int)[m].hero_id == tile.hero_id;
                        assert(tiles[m].hero_id == tiles[i as int].hero_id);
                    }
                }
                assert(ua.inventory@[idx as int] == old_inv[idx as int]);
            }
            let mut h: Hero = ua.inventory[idx];
            let elapsed_seconds: u64 = (now - h.last_action_time) as u64;
            if elapsed_seconds > 0 {
                let location_multiplier: u32 = if tile.is_restroom {
                    3
                } else {
                    1
                };
                let recovery: u32 = h.calculate_hp_recovery(elapsed_seconds, location_multiplier);
                let raw: u64 = (h.hp as u64) + (recovery as u64);
                h.hp = if raw > (h.max_hp as u64) {
                    h.max_hp
                } else {
                    raw as u64 as u32
                };
                h.last_action_time = now;
                ua.inventory.set(idx, h);
            }
            proof {
                let hid = tile.hero_id;
                assert(spec_tile_for(tiles, hid) == tile) by {
                    let m = choose|m: int| 0 <= m < tiles.len() && tiles[m].hero_id == hid;
                    assert(tiles[i as int].hero_id == hid);
                    assert(m == i as int);
                }
                assert(ua.inventory@[idx as int] == spec_recovered_hero(
                    old_inv[idx as int],
                    tile,
                    now,
                ));
                assert forall|j: int| 0 <= j < old_inv.len() implies ua.inventory@[j] == (
                if spec_on_grid(tiles.take(i + 1), j as u16) {
                    spec_recovered_hero(old_inv[j], spec_tile_for(tiles, j as u16), now)
                } else {
                    old_inv[j]
                }) by {
                    lemma_on_grid_take_step(tiles, i as int, j as u16);
                }
            }
        } else {
            proof {
                assert(tiles[i as int].hero_id < old_inv.len());
                assert(false);
            }
        }
        i = i + 1;
    }
    proof {
        assert(tiles.take(n as int) =~= tiles);
        assert forall|j: int|
            0 <= j < old_inv.len() && spec_on_grid(tiles, j as u16) implies ua.inventory@[j]
            == spec_recovered_hero(old_inv[j], spec_tile_for(tiles, j as u16), now) by {
        }
    }
    Ok(())
}


// ===========================================================================
// Bulk placement
// ===========================================================================

/// One requested placement within a batch.
#[derive(Clone, Copy, Debug, PartialEq, Eq, Structural)]
pub struct HeroPlacement {
    /// Inventory index of the hero to place.
    pub hero_index: u16,
    /// Column of the target tile.
    pub x: u8,
    /// Row of the target tile.
    pub y: u8,
    /// Whether the target tile is a restroom slot.
    pub is_restroom: bool,
}

/// The tile a placement inserts.
pub open spec fn spec_tile_of(p: HeroPlacement) -> HouseTile {
    HouseTile { x: p.x, y: p.y, hero_id: p.hero_index, is_restroom: p.is_restroom }
}

/// The grid after the first `k` placements of the batch have been applied.
pub open spec fn spec_grid_after(
    tiles: Seq<HouseTile>,
    ps: Seq<HeroPlacement>,
    k: int,
) -> Seq<HouseTile>
    decreases k,
{
    if k <= 0 {
        tiles
    } else {
        spec_grid_after(tiles, ps, k - 1).push(spec_tile_of(ps[k - 1]))
    }
}

/// The failure of placement `k`, validated against the profile's grid with
/// the previous placements of the batch already staged, or `None`.
pub open spec fn spec_placement_check(
    ua: UserAccount,
    ps: Seq<HeroPlacement>,
    k: int,
) -> Option<GameError> {
    let g = spec_grid_after(ua.house_occupied_coords@, ps, k);
    let p = ps[k];
    if p.hero_index >= ua.inventory@.len() {
        Some(GameError::InvalidHeroIndex)
    } else if !(p.x < ua.grid_width && p.y < ua.grid_height) {
        Some(GameError::InvalidGridCoordinates)
    } else if spec_coord_occupied(g, p.x, p.y) {
        Some(GameError::GridPositionOccupied)
    } else if spec_on_grid(g, p.hero_index) {
        Some(GameError::HeroAlreadyOnMap)
    } else {
        None
    }
}

/// The first failure of the batch from placement `k` on: the placements'
/// own failures in order, then the aggregate restroom-capacity check.
pub open spec fn spec_bulk_place_error(
    ua: UserAccount,
    ps: Seq<HeroPlacement>,
    k: int,
) -> Option<GameError>
    decreases ps.len() - k,
{
    if k < 0 || k >= ps.len() {
        if spec_restroom_count(spec_grid_after(ua.house_occupied_coords@, ps, ps.len() as int))
            > spec_max_restroom_slots(ua.house_level) {
            Some(GameError::RestroomFull)
        } else {
            None
        }
    } else if spec_placement_check(ua, ps, k) is Some {
        spec_placement_check(ua, ps, k)
    } else {
        spec_bulk_place_error(ua, ps, k + 1)
    }
}

/// Is hero `h` placed by the batch?
pub open spec fn spec_placed(ps: Seq<HeroPlacement>, h: u16) -> bool {
    exists|i: int| 0 <= i < ps.len() && ps[i].hero_index == h
}

/// One more placement covers exactly its hero.
proof fn lemma_placed_take_step(ps: Seq<HeroPlacement>, i: int, x: u16)
    requires
        0 <= i < ps.len(),
    ensures
        spec_placed(ps.take(i + 1), x) <==> (spec_placed(ps.take(i), x) || ps[i].hero_index == x),
{
    let a = ps.take(i);
    let b = ps.take(i + 1);
    assert(forall|m: int| 0 <= m < b.len() ==> b[m] == ps[m]);
    if spec_placed(b, x) {
        let m = choose|m: int| 0 <= m < b.len() && b[m].hero_index == x;
        if m < i {
            assert(a[m].hero_index == x);
        }
    }
    if spec_placed(a, x) {
        let m = choose|m: int| 0 <= m < a.len() && a[m].hero_index == x;
        assert(b[m].hero_index == x);
    }
    if ps[i].hero_index == x {
        assert(b[i].hero_index == x);
    }
}

/// Does the batch place hero `h`?
fn placements_contain(ps: &Vec<HeroPlacement>, h: u16) -> (r: bool)
    ensures
        r == spec_placed(ps@, h),
{
    let mut i: usize = 0;
    while i < ps.len()
        invariant
            i <= ps@.len(),
            forall|j: int| 0 <= j < i ==> ps@[j].hero_index != h,
        decreases ps@.len() - i,
    {
        if ps[i].hero_index == h {
            proof {
                assert(0 <= i < ps@.len() && ps@[i as int].hero_index == h);
            }
            return true;
        }
        i = i + 1;
    }
    false
}

/// Does a non-empty tile of `tiles` sit at `(x, y)`?
fn tiles_coord_occupied(tiles: &Vec<HouseTile>, x: u8, y: u8) -> (r: bool)
    ensures
        r == spec_coord_occupied(tiles@, x, y),
{
    let mut i: usize = 0;
    while i < tiles.len()
        invariant
            i <= tiles@.len(),
            forall|j: int|
                0 <= j < i ==> !(tiles@[j].x == x && tiles@[j].y == y && tiles@[j].hero_id
                    != EMPTY_TILE),
        decreases tiles@.len() - i,
    {
        let t: HouseTile = tiles[i];
        if t.x == x && t.y == y && t.hero_id != EMPTY_TILE {
            proof {
                assert(0 <= i < tiles@.len() && tiles@[i as int].x == x && tiles@[i as int].y == y
                    && tiles@[i as int].hero_id != EMPTY_TILE);
            }
            return true;
        }
        i = i + 1;
    }
    false
}

/// Is some tile of `tiles` assigned to hero `h`?
fn tiles_has_hero(tiles: &Vec<HouseTile>, h: u16) -> (r: bool)
    ensures
        r == spec_on_grid(tiles@, h),
{
    let mut i: usize = 0;
    while i < tiles.len()
        invariant
            i <= tiles@.len(),
            forall|j: int| 0 <= j < i ==> tiles@[j].hero_id != h,
        decreases tiles@.len() - i,
    {
        if tiles[i].hero_id == h {
            proof {
                assert(0 <= i < tiles@.len() && tiles@[i as int].hero_id == h);
            }
            return true;
        }
        i = i + 1;
    }
    false
}

/// Number of occupied restroom tiles of `tiles`.
fn tiles_restroom_count(tiles: &Vec<HouseTile>) -> (r: usize)
    ensures
        r == spec_restroom_count(tiles@),
{
    let mut count: usize = 0;
    let mut i: usize = 0;
    while i < tiles.len()
        invariant
            i <= tiles@.len(),
            count == spec_restroom_count(tiles@.take(i as int)),
            count <= i,
        decreases tiles@.len() - i,
    {
        proof {
            lemma_take_step(tiles@, i as int);
        }
        let t: HouseTile = tiles[i];
        if t.is_restroom && t.hero_id != EMPTY_TILE {
            count = count + 1;
        }
        i = i + 1;
    }
    proof {
        assert(tiles@.take(tiles@.len() as int) =~= tiles@);
    }
    count
}

/// The staged grid is the original grid followed by the batch's tiles.
pub proof fn lemma_grid_after_index(tiles: Seq<HouseTile>, ps: Seq<HeroPlacement>, k: int)
    requires
        0 <= k <= ps.len(),
    ensures
        spec_grid_after(tiles, ps, k).len() == tiles.len() + k,
        forall|t: int| 0 <= t < tiles.len() ==> #[trigger] spec_grid_after(tiles, ps, k)[t] == tiles[t],
        forall|m: int|
            0 <= m < k ==> #[trigger] spec_grid_after(tiles, ps, k)[tiles.len() + m]
                == spec_tile_of(ps[m]),
    decreases k,
{
    if k > 0 {
        lemma_grid_after_index(tiles, ps, k - 1);
    }
}

/// Places a whole batch of heroes atomically, gated by the pause flag:
/// every placement is validated (hero index, coordinates, occupancy against
/// both the grid and the earlier placements of the batch, the hero not
/// already placed) and the aggregate restroom capacity is checked before
/// anything is mutated; a batch with any invalid placement leaves the
/// profile exactly as it was.
pub fn bulk_place_heroes(
    gs: &GlobalState,
    ua: &mut UserAccount,
    placements: Vec<HeroPlacement>,
    now: i64,
) -> (r: Result<(), GameError>)
    requires
        old(ua).wf(),
        now >= 0,
    ensures
        r is Err ==> *final(ua) == *old(ua),
        gs.paused ==> r == Err::<(), GameError>(GameError::GamePaused),
        ({
            let ps = placements@;
            &&& (!gs.paused ==> (spec_bulk_place_error(*old(ua), ps, 0) matches Some(e) ==> r
                == Err::<(), GameError>(e)))
            &&& (!gs.paused && spec_bulk_place_error(*old(ua), ps, 0) is None ==> {
                &&& r == Ok::<(), GameError>(())
                &&& final(ua).house_occupied_coords@ == spec_grid_after(
                    old(ua).house_occupied_coords@,
                    ps,
                    ps.len() as int,
                )
                &&& final(ua).active_map@ == spec_retain(
                    old(ua).active_map@,
                    |e: u16| !spec_placed(ps, e),
                )
                &&& final(ua).inventory@.len() == old(ua).inventory@.len()
                &&& forall|j: int|
                    0 <= j < old(ua).inventory@.len() ==> final(ua).inventory@[j] == (
                    if spec_placed(ps, j as u16) {
                        (Hero { last_action_time: now, ..old(ua).inventory@[j] })
                    } else {
                        old(ua).inventory@[j]
                    })
                &&& *final(ua) == (UserAccount {
                    house_occupied_coords: final(ua).house_occupied_coords,
                    active_map: final(ua).active_map,
                    inventory: final(ua).inventory,
                    ..*old(ua)
                })
            })
        }),
        final(ua).wf(),
        old(ua).times_ok(now) ==> final(ua).times_ok(now),
{
    if gs.paused {
        return Err(GameError::GamePaused);
    }
    let ghost tiles0 = old(ua).house_occupied_coords@;
    let ghost ps = placements@;
    let mut work: Vec<HouseTile> = Vec::new();
    let mut c: usize = 0;
    while c < ua.house_occupied_coords.len()
        invariant
            *ua == *old(ua),
            tiles0 == ua.house_occupied_coords@,
            c <= tiles0.len(),
            work@ == tiles0.take(c as int),
        decreases tiles0.len() - c,
    {
        proof {
            lemma_take_step(tiles0, c as int);
        }
        work.push(ua.house_occupied_coords[c]);
        c = c + 1;
    }
    proof {
        assert(tiles0.take(tiles0.len() as int) =~= tiles0);
    }

    let mut k: usize = 0;
    while k < placements.len()
        invariant
            *ua == *old(ua),
            old(ua).wf(),
            !gs.paused,
            ps == placements@,
            k <= ps.len(),
            work@ == spec_grid_after(tiles0, ps, k as int),
            tiles0 == old(ua).house_occupied_coords@,
            spec_bulk_place_error(*old(ua), ps, 0) == spec_bulk_place_error(*old(ua), ps, k as int),
            forall|m: int|
                0 <= m < k ==> (#[trigger] ps[m]).hero_index < old(ua).inventory@.len()
                    && ps[m].x < old(ua).grid_width && ps[m].y < old(ua).grid_height,
            forall|a: int, b: int| 0 <= a < b < k ==> ps[a].hero_index != ps[b].hero_index,
            forall|t: int|
                0 <= t < work@.len() ==> (#[trigger] work@[t]).hero_id < old(ua).inventory@.len()
                    && work@[t].x < old(ua).grid_width && work@[t].y < old(ua).grid_height,
            forall|t: int, u: int|
                0 <= t < work@.len() && 0 <= u < work@.len() && t != u ==> !(work@[t].x
                    == work@[u].x && work@[t].y == work@[u].y),
            forall|t: int, u: int|
                0 <= t < work@.len() && 0 <= u < work@.len() && t != u ==> work@[t].hero_id
                    != work@[u].hero_id,
        decreases ps.len() - k,
    {
        proof {
            lemma_grid_after_index(tiles0, ps, k as int);
        }
        let p: HeroPlacement = placements[k];
        if !((p.hero_index as usize) < ua.inventory.len()) {
            return Err(GameError::InvalidHeroIndex);
        }
        if !(p.x < ua.grid_width && p.y < ua.grid_height) {
            return Err(GameError::InvalidGridCoordinates);
        }
        if tiles_coord_occupied(&work, p.x, p.y) {
            return Err(GameError::GridPositionOccupied);
        }
        if tiles_has_hero(&work, p.hero_index) {
            return Err(GameError::HeroAlreadyOnMap);
        }
        proof {
            assert(spec_placement_check(*old(ua), ps, k as int) is None);
            assert(work@.push(spec_tile_of(ps[k as int])).drop_last() =~= work@);
            assert forall|a: int, b: int| 0 <= a < b < k + 1 implies ps[a].hero_index
                != ps[b].hero_index by {
                if b == k {
                    assert(work@[tiles0.len() + a] == spec_tile_of(ps[a]));
                    assert(!spec_on_grid(work@, ps[k as int].hero_index));
                    if ps[a].hero_index == ps[b].hero_index {
                        assert(work@[tiles0.len() + a].hero_id == ps[k as int].hero_index);
                    }
                }
            }
        }
        work.push(HouseTile { x: p.x, y: p.y, hero_id: p.hero_index, is_restroom: p.is_restroom });
        k = k + 1;
    }

    let max_restroom: usize = ua.get_max_restroom_slots();
    let used: usize = tiles_restroom_count(&work);
    if used > max_restroom {
        proof {
            assert(spec_bulk_place_error(*old(ua), ps, ps.len() as int) == Some(
                GameError::RestroomFull,
            ));
        }
        return Err(GameError::RestroomFull);
    }
    proof {
        assert(spec_bulk_place_error(*old(ua), ps, ps.len() as int) is None);
    }

    // Commit: stage the new grid, drop the placed heroes from the mining
    // map, and stamp their action times.
    let ghost map0 = old(ua).active_map@;
    let mut new_map: Vec<u16> = Vec::new();
    let mut m: usize = 0;
    while m < ua.active_map.len()
        invariant
            *ua == *old(ua),
            ps == placements@,
            m <= map0.len(),
            map0 == ua.active_map@,
            new_map@ == spec_retain(map0.take(m as int), |e: u16| !spec_placed(ps, e)),
        decreases map0.len() - m,
    {
        proof {
            lemma_take_step(map0, m as int);
        }
        let e: u16 = ua.active_map[m];
        if !placements_contain(&placements, e) {
            new_map.push(e);
        }
        m = m + 1;
    }
    proof {
        assert(map0.take(map0.len() as int) =~= map0);
    }

    ua.house_occupied_coords = work;
    ua.active_map = new_map;
    let ghost tiles1 = ua.house_occupied_coords@;
    let ghost map1 = ua.active_map@;

    let ghost inv0 = old(ua).inventory@;
    let mut t: usize = 0;
    while t < placements.len()
        invariant
            t <= ps.len(),
            ps == placements@,
            now >= 0,
            inv0 == old(ua).inventory@,
            inv0.len() <= 0xFFFF,
            forall|i: int| 0 <= i < ps.len() ==> (#[trigger] ps[i]).hero_index < inv0.len(),
            forall|a: int, b: int| 0 <= a < b < ps.len() ==> ps[a].hero_index != ps[b].hero_index,
            ua.inventory@.len() == inv0.len(),
            forall|j: int|
                0 <= j < inv0.len() ==> ua.inventory@[j] == (if spec_placed(
                    ps.take(t as int),
                    j as u16,
                ) {
                    (Hero { last_action_time: now, ..inv0[j] })
                } else {
                    inv0[j]
                }),
            ua.house_occupied_coords@ == tiles1,
            ua.active_map@ == map1,
            *ua == (UserAccount {
                house_occupied_coords: ua.house_occupied_coords,
                active_map: ua.active_map,
                inventory: ua.inventory,
                ..*old(ua)
            }),
        decreases ps.len() - t,
    {
        let p: HeroPlacement = placements[t];
        let idx: usize = p.hero_index as usize;
        proof {
            assert(!spec_placed(ps.take(t as int), p.hero_index)) by {
                if spec_placed(ps.take(t as int), p.hero_index) {
                    let w = choose|w: int|
                        0 <= w < t && ps.take(t as int)[w].hero_index == p.hero_index;
                    assert(ps[w].hero_index == ps[t as int].hero_index);
                }
            }
        }
        let mut h: Hero = ua.inventory[idx];
        h.last_action_time = now;
        ua.inventory.set(idx, h);
        proof {
            assert forall|j: int| 0 <= j < inv0.len() implies ua.inventory@[j] == (
            if spec_placed(ps.take(t + 1), j as u16) {
                (Hero { last_action_time: now, ..inv0[j] })
            } else {
                inv0[j]
            }) by {
                lemma_placed_take_step(ps, t as int, j as u16);
            }
        }
        t = t + 1;
    }
    proof {
        assert(ps.take(ps.len() as int) =~= ps);
        lemma_grid_after_index(tiles0, ps, ps.len() as int);
        assert forall|t2: int|
            0 <= t2 < tiles1.len() implies spec_on_grid(tiles0, (#[trigger] tiles1[t2]).hero_id)
            || spec_placed(ps, tiles1[t2].hero_id) by {
            let ga = spec_grid_after(tiles0, ps, ps.len() as int);
            if t2 < tiles0.len() {
                assert(ga[t2] == tiles0[t2]);
                assert(tiles1[t2] == tiles0[t2]);
                assert(0 <= t2 < tiles0.len() && tiles0[t2].hero_id == tiles1[t2].hero_id);
            } else {
                let m2 = t2 - tiles0.len();
                assert(ga[tiles0.len() + m2] == spec_tile_of(ps[m2]));
                assert(tiles1[t2] == spec_tile_of(ps[m2]));
                assert(0 <= m2 < ps.len() && ps[m2].hero_index == tiles1[t2].hero_id);
            }
        }
        lemma_bulk_place_commit_wf(*old(ua), *ua, ps, now);
    }
    Ok(())
}

/// The committed state of a validated bulk placement is well-formed.
proof fn lemma_bulk_place_commit_wf(
    ua0: UserAccount,
    ua1: UserAccount,
    ps: Seq<HeroPlacement>,
    now: i64,
)
    requires
        ua0.wf(),
        now >= 0,
        ua1.active_map@ == spec_retain(ua0.active_map@, |e: u16| !spec_placed(ps, e)),
        ua1.inventory@.len() == ua0.inventory@.len(),
        forall|j: int|
            0 <= j < ua0.inventory@.len() ==> ua1.inventory@[j] == (if spec_placed(ps, j as u16) {
                (Hero { last_action_time: now, ..ua0.inventory@[j] })
            } else {
                ua0.inventory@[j]
            }),
        forall|t: int|
            0 <= t < ua1.house_occupied_coords@.len() ==> spec_on_grid(
                ua0.house_occupied_coords@,
                (#[trigger] ua1.house_occupied_coords@[t]).hero_id,
            ) || spec_placed(ps, ua1.house_occupied_coords@[t].hero_id),
    ensures
        ua1.active_map@.len() <= ua0.active_map@.len(),
        forall|u: int|
            0 <= u < ua1.active_map@.len() ==> #[trigger] ua1.active_map@[u]
                < ua0.inventory@.len(),
        forall|t: int, u: int|
            0 <= t < ua1.active_map@.len() && 0 <= u < ua1.active_map@.len() && t != u
                ==> ua1.active_map@[t] != ua1.active_map@[u],
        forall|t: int, u: int|
            0 <= t < ua1.house_occupied_coords@.len() && 0 <= u < ua1.active_map@.len() ==> (
            #[trigger] ua1.house_occupied_coords@[t]).hero_id != #[trigger] ua1.active_map@[u],
        forall|j: int|
            0 <= j < ua1.inventory@.len() ==> (#[trigger] ua1.inventory@[j]).hp
                <= ua1.inventory@[j].max_hp && ua1.inventory@[j].last_action_time >= 0,
{
    let p_keep = |e: u16| !spec_placed(ps, e);
    let nm = ua1.active_map@;
    let nt = ua1.house_occupied_coords@;
    lemma_retain_props(ua0.active_map@, p_keep);
    lemma_retain_distinct(ua0.active_map@, p_keep, |e: u16| e);
    assert forall|u: int| 0 <= u < nm.len() implies #[trigger] nm[u] < ua0.inventory@.len() by {
        assert(ua0.active_map@.contains(nm[u]));
        let w = choose|w: int| 0 <= w < ua0.active_map@.len() && ua0.active_map@[w] == nm[u];
        assert(ua0.active_map@[w] < ua0.inventory@.len());
    }
    assert forall|t: int, u: int|
        0 <= t < nm.len() && 0 <= u < nm.len() && t != u implies nm[t] != nm[u] by {
        let g = |e: u16| e;
        assert(g(nm[t]) != g(nm[u]));
    }
    assert forall|t: int, u: int|
        0 <= t < nt.len() && 0 <= u < nm.len() implies (#[trigger] nt[t]).hero_id
        != #[trigger] nm[u] by {
        assert(p_keep(nm[u]));
        assert(!spec_placed(ps, nm[u]));
        if spec_on_grid(ua0.house_occupied_coords@, nt[t].hero_id) {
            let w = choose|w: int|
                0 <= w < ua0.house_occupied_coords@.len() && ua0.house_occupied_coords@[
                    w
                ].hero_id == nt[t].hero_id;
            assert(ua0.active_map@.contains(nm[u]));
            let v = choose|v: int| 0 <= v < ua0.active_map@.len() && ua0.active_map@[v] == nm[u];
            assert(ua0.house_occupied_coords@[w].hero_id != ua0.active_map@[v]);
        }
    }
    assert forall|j: int|
        0 <= j < ua1.inventory@.len() implies (#[trigger] ua1.inventory@[j]).hp
        <= ua1.inventory@[j].max_hp && ua1.inventory@[j].last_action_time >= 0 by {
        assert(ua0.inventory@[j].hp <= ua0.inventory@[j].max_hp);
        assert(ua0.inventory@[j].last_action_time >= 0);
    }
}

// ===========================================================================
// Bulk mining moves
// ===========================================================================

/// The failure of batch entry `k`, validated against the current map and the
/// earlier entries of the batch, or `None`.
pub open spec fn spec_move_check(ua: UserAccount, hs: Seq<u16>, k: int) -> Option<GameError> {
    if hs[k] >= ua.inventory@.len() {
        Some(GameError::InvalidHeroIndex)
    } else if crate::state::spec_on_map(ua.active_map@, hs[k]) || hs.take(k).contains(hs[k]) {
        Some(GameError::HeroAlreadyOnMap)
    } else if ua.inventory@[hs[k] as int].hp == 0 {
        Some(GameError::HeroIsSleeping)
    } else {
        None
    }
}

/// The first failure of a bulk mining move from entry `k` on: the entries'
/// own failures in order, then the aggregate map-capacity check.
pub open spec fn spec_bulk_move_error(ua: UserAccount, hs: Seq<u16>, k: int) -> Option<GameError>
    decreases hs.len() - k,
{
    if k < 0 || k >= hs.len() {
        if ua.active_map@.len() + hs.len() > MAX_MAP_HEROES {
            Some(GameError::MapFull)
        } else {
            None
        }
    } else if spec_move_check(ua, hs, k) is Some {
        spec_move_check(ua, hs, k)
    } else {
        spec_bulk_move_error(ua, hs, k + 1)
    }
}

/// One more entry covers exactly its value.
proof fn lemma_contains_take_step(hs: Seq<u16>, i: int, x: u16)
    requires
        0 <= i < hs.len(),
    ensures
        hs.take(i + 1).contains(x) <==> (hs.take(i).contains(x) || hs[i] == x),
{
    let a = hs.take(i);
    let b = hs.take(i + 1);
    assert(forall|m: int| 0 <= m < b.len() ==> b[m] == hs[m]);
    if b.contains(x) {
        let m = choose|m: int| 0 <= m < b.len() && b[m] == x;
        if m < i {
            assert(a[m] == x);
        }
    }
    if a.contains(x) {
        let m = choose|m: int| 0 <= m < a.len() && a[m] == x;
        assert(b[m] == x);
    }
    if hs[i] == x {
        assert(b[i] == x);
    }
}

/// Does the batch prefix of length `k` contain `h`?
fn contains_u16_upto(v: &Vec<u16>, k: usize, h: u16) -> (r: bool)
    requires
        k <= v@.len(),
    ensures
        r == v@.take(k as int).contains(h),
{
    let mut i: usize = 0;
    while i < k
        invariant
            i <= k,
            k <= v@.len(),
            forall|j: int| 0 <= j < i ==> v@[j] != h,
        decreases k - i,
    {
        if v[i] == h {
            proof {
                assert(v@.take(k as int)[i as int] == h);
            }
            return true;
        }
        i = i + 1;
    }
    proof {
        if v@.take(k as int).contains(h) {
            let m = choose|m: int| 0 <= m < k && v@.take(k as int)[m] == h;
            assert(v@[m] == h);
        }
    }
    false
}

/// Builds the grid with every tile of a batch hero removed.
fn tiles_without_heroes(tiles: &Vec<HouseTile>, hs: &Vec<u16>) -> (r: Vec<HouseTile>)
    ensures
        r@ == spec_retain(tiles@, |t: HouseTile| !hs@.contains(t.hero_id)),
{
    let mut out: Vec<HouseTile> = Vec::new();
    let mut i: usize = 0;
    while i < tiles.len()
        invariant
            i <= tiles@.len(),
            out@ == spec_retain(tiles@.take(i as int), |t: HouseTile| !hs@.contains(t.hero_id)),
        decreases tiles@.len() - i,
    {
        proof {
            lemma_take_step(tiles@, i as int);
        }
        let t: HouseTile = tiles[i];
        if !contains_u16_upto(hs, hs.len(), t.hero_id) {
            proof {
                assert(hs@.take(hs@.len() as int) =~= hs@);
            }
            out.push(t);
        } else {
            proof {
                assert(hs@.take(hs@.len() as int) =~= hs@);
            }
        }
        i = i + 1;
    }
    proof {
        assert(tiles@.take(tiles@.len() as int) =~= tiles@);
    }
    out
}

/// Moves a whole batch of heroes onto the mining map atomically: every entry
/// is validated (hero index, not already mining, not twice in the batch,
/// awake) and the aggregate map capacity is checked before anything is
/// mutated; a batch with any invalid entry leaves the profile exactly as it
/// was. On success every batch hero leaves the grid, its action time is
/// stamped, and the cached player power is recomputed.
pub fn bulk_move_to_map(
    gs: &GlobalState,
    ua: &mut UserAccount,
    hero_indices: Vec<u16>,
    now: i64,
) -> (r: Result<(), GameError>)
    requires
        old(ua).wf(),
        now >= 0,
    ensures
        r is Err ==> *final(ua) == *old(ua),
        gs.paused ==> r == Err::<(), GameError>(GameError::GamePaused),
        ({
            let hs = hero_indices@;
            &&& (!gs.paused ==> (spec_bulk_move_error(*old(ua), hs, 0) matches Some(e) ==> r
                == Err::<(), GameError>(e)))
            &&& (!gs.paused && spec_bulk_move_error(*old(ua), hs, 0) is None ==> {
                &&& r == Ok::<(), GameError>(())
                &&& final(ua).house_occupied_coords@ == spec_retain(
                    old(ua).house_occupied_coords@,
                    |t: HouseTile| !hs.contains(t.hero_id),
                )
                &&& final(ua).active_map@ == old(ua).active_map@ + hs
                &&& final(ua).inventory@.len() == old(ua).inventory@.len()
                &&& forall|j: int|
                    0 <= j < old(ua).inventory@.len() ==> final(ua).inventory@[j] == (
                    if hs.contains(j as u16) {
                        (Hero { last_action_time: now, ..old(ua).inventory@[j] })
                    } else {
                        old(ua).inventory@[j]
                    })
                &&& final(ua).player_power == spec_player_power(
                    final(ua).active_map@,
                    final(ua).inventory@,
                )
                &&& *final(ua) == (UserAccount {
                    house_occupied_coords: final(ua).house_occupied_coords,
                    active_map: final(ua).active_map,
                    inventory: final(ua).inventory,
                    player_power: final(ua).player_power,
                    ..*old(ua)
                })
            })
        }),
        final(ua).wf(),
        old(ua).times_ok(now) ==> final(ua).times_ok(now),
{
    if gs.paused {
        return Err(GameError::GamePaused);
    }
    let ghost hs = hero_indices@;
    let ghost map0 = old(ua).active_map@;
    let ghost tiles0 = old(ua).house_occupied_coords@;
    let ghost inv0 = old(ua).inventory@;

    let mut k: usize = 0;
    while k < hero_indices.len()
        invariant
            *ua == *old(ua),
            old(ua).wf(),
            !gs.paused,
            hs == hero_indices@,
            k <= hs.len(),
            spec_bulk_move_error(*old(ua), hs, 0) == spec_bulk_move_error(*old(ua), hs, k as int),
            forall|m: int| 0 <= m < k ==> #[trigger] hs[m] < old(ua).inventory@.len(),
            forall|m: int|
                0 <= m < k ==> !crate::state::spec_on_map(old(ua).active_map@, #[trigger] hs[m]),
            forall|a: int, b: int| 0 <= a < b < k ==> hs[a] != hs[b],
            forall|m: int|
                0 <= m < k ==> (#[trigger] old(ua).inventory@[hs[m] as int]).hp > 0,
        decreases hs.len() - k,
    {
        let h: u16 = hero_indices[k];
        if !((h as usize) < ua.inventory.len()) {
            return Err(GameError::InvalidHeroIndex);
        }
        if contains_u16(&ua.active_map, h) {
            return Err(GameError::HeroAlreadyOnMap);
        }
        if contains_u16_upto(&hero_indices, k, h) {
            return Err(GameError::HeroAlreadyOnMap);
        }
        if ua.inventory[h as usize].is_sleeping() {
            return Err(GameError::HeroIsSleeping);
        }
        proof {
            assert(spec_move_check(*old(ua), hs, k as int) is None);
            assert forall|a: int, b: int| 0 <= a < b < k + 1 implies hs[a] != hs[b] by {
                if b == k && hs[a] == hs[b] {
                    assert(hs.take(k as int)[a] == hs[k as int]);
                }
            }
        }
        k = k + 1;
    }
    if hero_indices.len() > MAX_MAP_HEROES || ua.active_map.len() + hero_indices.len()
        > MAX_MAP_HEROES {
        return Err(GameError::MapFull);
    }

    // Commit: drop the batch heroes from the grid, stamp their action times,
    // extend the map and recompute the cached power.
    proof {
        lemma_retain_props(tiles0, |t: HouseTile| !hs.contains(t.hero_id));
        lemma_retain_restroom_count(tiles0, |t: HouseTile| !hs.contains(t.hero_id));
        lemma_retained_grid_keeps_wf(*ua, |t: HouseTile| !hs.contains(t.hero_id));
    }
    let new_tiles: Vec<HouseTile> = tiles_without_heroes(&ua.house_occupied_coords, &hero_indices);
    ua.house_occupied_coords = new_tiles;
    let ghost tiles1 = ua.house_occupied_coords@;

    let mut t: usize = 0;
    while t < hero_indices.len()
        invariant
            t <= hs.len(),
            hs == hero_indices@,
            now >= 0,
            inv0 == old(ua).inventory@,
            inv0.len() <= 0xFFFF,
            forall|i: int| 0 <= i < hs.len() ==> #[trigger] hs[i] < inv0.len(),
            forall|a: int, b: int| 0 <= a < b < hs.len() ==> hs[a] != hs[b],
            ua.inventory@.len() == inv0.len(),
            forall|j: int|
                0 <= j < inv0.len() ==> ua.inventory@[j] == (if hs.take(t as int).contains(
                    j as u16,
                ) {
                    (Hero { last_action_time: now, ..inv0[j] })
                } else {
                    inv0[j]
                }),
            ua.house_occupied_coords@ == tiles1,
            ua.active_map@ == map0,
            *ua == (UserAccount {
                house_occupied_coords: ua.house_occupied_coords,
                inventory: ua.inventory,
                ..*old(ua)
            }),
        decreases hs.len() - t,
    {
        let h: u16 = hero_indices[t];
        let idx: usize = h as usize;
        proof {
            assert(!hs.take(t as int).contains(h)) by {
                if hs.take(t as int).contains(h) {
                    let w = choose|w: int| 0 <= w < t && hs.take(t as int)[w] == h;
                    assert(hs[w] == hs[t as int]);
                }
            }
        }
        let mut hero: Hero = ua.inventory[idx];
        hero.last_action_time = now;
        ua.inventory.set(idx, hero);
        proof {
            assert forall|j: int| 0 <= j < inv0.len() implies ua.inventory@[j] == (
            if hs.take(t + 1).contains(j as u16) {
                (Hero { last_action_time: now, ..inv0[j] })
            } else {
                inv0[j]
            }) by {
                lemma_contains_take_step(hs, t as int, j as u16);
            }
        }
        t = t + 1;
    }
    proof {
        assert(hs.take(hs.len() as int) =~= hs);
    }

    let mut q: usize = 0;
    while q < hero_indices.len()
        invariant
            q <= hs.len(),
            hs == hero_indices@,
            ua.active_map@ == map0 + hs.take(q as int),
            ua.house_occupied_coords@ == tiles1,
            *ua == (UserAccount {
                house_occupied_coords: ua.house_occupied_coords,
                active_map: ua.active_map,
                inventory: ua.inventory,
                ..*old(ua)
            }),
            ua.inventory@.len() == inv0.len(),
            inv0 == old(ua).inventory@,
            forall|j: int|
                0 <= j < inv0.len() ==> ua.inventory@[j] == (if hs.contains(j as u16) {
                    (Hero { last_action_time: now, ..inv0[j] })
                } else {
                    inv0[j]
                }),
        decreases hs.len() - q,
    {
        proof {
            lemma_take_step(hs, q as int);
            assert((map0 + hs.take(q + 1)) =~= (map0 + hs.take(q as int)).push(hs[q as int]));
        }
        ua.active_map.push(hero_indices[q]);
        q = q + 1;
    }
    proof {
        assert(hs.take(hs.len() as int) =~= hs);
        lemma_bulk_move_commit_wf(*old(ua), *ua, hs, now);
    }
    let power: u64 = compute_player_power(&ua.active_map, &ua.inventory);
    ua.player_power = power;
    Ok(())
}

/// The committed state of a validated bulk mining move is well-formed.
proof fn lemma_bulk_move_commit_wf(ua0: UserAccount, ua1: UserAccount, hs: Seq<u16>, now: i64)
    requires
        ua0.wf(),
        now >= 0,
        ua0.active_map@.len() + hs.len() <= MAX_MAP_HEROES,
        forall|i: int| 0 <= i < hs.len() ==> #[trigger] hs[i] < ua0.inventory@.len(),
        forall|a: int, b: int| 0 <= a < b < hs.len() ==> hs[a] != hs[b],
        forall|m: int|
            0 <= m < hs.len() ==> !crate::state::spec_on_map(ua0.active_map@, #[trigger] hs[m]),
        ua1.active_map@ == ua0.active_map@ + hs,
        ua1.house_occupied_coords@ == spec_retain(
            ua0.house_occupied_coords@,
            |t: HouseTile| !hs.contains(t.hero_id),
        ),
        ua1.inventory@.len() == ua0.inventory@.len(),
        forall|j: int|
            0 <= j < ua0.inventory@.len() ==> ua1.inventory@[j] == (if hs.contains(j as u16) {
                (Hero { last_action_time: now, ..ua0.inventory@[j] })
            } else {
                ua0.inventory@[j]
            }),
    ensures
        ua1.active_map@.len() <= MAX_MAP_HEROES,
        forall|u: int|
            0 <= u < ua1.active_map@.len() ==> #[trigger] ua1.active_map@[u]
                < ua0.inventory@.len(),
        forall|t: int, u: int|
            0 <= t < ua1.active_map@.len() && 0 <= u < ua1.active_map@.len() && t != u
                ==> ua1.active_map@[t] != ua1.active_map@[u],
        forall|t: int, u: int|
            0 <= t < ua1.house_occupied_coords@.len() && 0 <= u < ua1.active_map@.len() ==> (
            #[trigger] ua1.house_occupied_coords@[t]).hero_id != #[trigger] ua1.active_map@[u],
        forall|j: int|
            0 <= j < ua1.inventory@.len() ==> (#[trigger] ua1.inventory@[j]).hp
                <= ua1.inventory@[j].max_hp && ua1.inventory@[j].last_action_time >= 0,
{
    let p_keep = |t: HouseTile| !hs.contains(t.hero_id);
    let nm = ua1.active_map@;
    let nt = ua1.house_occupied_coords@;
    let map0 = ua0.active_map@;
    lemma_retain_props(ua0.house_occupied_coords@, p_keep);
    assert forall|t: int, u: int|
        0 <= t < nm.len() && 0 <= u < nm.len() && t != u implies nm[t] != nm[u] by {
        if t < map0.len() && u >= map0.len() {
            assert(nm[u] == hs[u - map0.len()]);
            assert(!crate::state::spec_on_map(map0, hs[u - map0.len()]));
            if nm[t] == nm[u] {
                assert(map0[t] == hs[u - map0.len()]);
            }
        } else if u < map0.len() && t >= map0.len() {
            assert(nm[t] == hs[t - map0.len()]);
            assert(!crate::state::spec_on_map(map0, hs[t - map0.len()]));
            if nm[t] == nm[u] {
                assert(map0[u] == hs[t - map0.len()]);
            }
        }
    }
    assert forall|t: int, u: int|
        0 <= t < nt.len() && 0 <= u < nm.len() implies (#[trigger] nt[t]).hero_id
        != #[trigger] nm[u] by {
        assert(ua0.house_occupied_coords@.contains(nt[t]));
        assert(p_keep(nt[t]));
        let w = choose|w: int|
            0 <= w < ua0.house_occupied_coords@.len() && ua0.house_occupied_coords@[w] == nt[t];
        if u < map0.len() {
            assert(ua0.house_occupied_coords@[w].hero_id != map0[u]);
        } else {
            assert(nm[u] == hs[u - map0.len()]);
            assert(!hs.contains(nt[t].hero_id));
            if nt[t].hero_id == nm[u] {
                assert(0 <= u - map0.len() < hs.len() && hs[u - map0.len()] == nt[t].hero_id);
            }
        }
    }
    assert forall|j: int|
        0 <= j < ua1.inventory@.len() implies (#[trigger] ua1.inventory@[j]).hp
        <= ua1.inventory@[j].max_hp && ua1.inventory@[j].last_action_time >= 0 by {
        assert(ua0.inventory@[j].hp <= ua0.inventory@[j].max_hp);
        assert(ua0.inventory@[j].last_action_time >= 0);
    }
}


// ===========================================================================
// Claiming rewards
// ===========================================================================

/// Hero `h` after mining from its last action until `now`: hp falls by the
/// speed-driven drain, saturating at zero, and the action timestamp
/// advances.
pub open spec fn spec_drained_hero(h: Hero, now: i64) -> Hero {
    let elapsed = (now - h.last_action_time) as u64;
    let drain = crate::state::spec_hp_drain(h, elapsed);
    Hero {
        hp: if h.hp >= drain {
            (h.hp - drain) as u32
        } else {
            0
        },
        last_action_time: now,
        ..h
    }
}

/// Total mining power billed by a claim at `now`: every mapped hero still
/// awake after its drain contributes its mining power.
pub open spec fn spec_claim_power(map: Seq<u16>, inv: Seq<Hero>, now: i64) -> int
    decreases map.len(),
{
    if map.len() == 0 {
        0
    } else {
        spec_claim_power(map.drop_last(), inv, now) + if spec_drained_hero(
            inv[map.last() as int],
            now,
        ).hp > 0 {
            spec_hmp(inv[map.last() as int])
        } else {
            0
        }
    }
}

/// Start of the billing window: the earliest action time among the mapped
/// heroes, and `now` itself when the map is empty.
pub open spec fn spec_earliest_action(map: Seq<u16>, inv: Seq<Hero>, now: i64) -> int
    decreases map.len(),
{
    if map.len() == 0 {
        now as int
    } else {
        let rest = spec_earliest_action(map.drop_last(), inv, now);
        let t = inv[map.last() as int].last_action_time as int;
        if t < rest {
            t
        } else {
            rest
        }
    }
}

/// Gross reward of a claim at `now`: the billing window times the billed
/// power times the current halved issuance rate, scaled by the precision
/// multiplier.
pub open spec fn spec_claim_gross(gs: GlobalState, ua: UserAccount, now: i64) -> int {
    let power = spec_claim_power(ua.active_map@, ua.inventory@, now);
    let elapsed = now - spec_earliest_action(ua.active_map@, ua.inventory@, now);
    crate::utils::spec_mining_reward(
        elapsed as u64,
        power as u64,
        crate::state::spec_bombcoin_per_block(gs),
        gs.rewards_precision,
    )
}

/// One more map entry covers exactly its hero.
proof fn lemma_on_map_take_step(map: Seq<u16>, i: int, x: u16)
    requires
        0 <= i < map.len(),
    ensures
        crate::state::spec_on_map(map.take(i + 1), x) <==> (crate::state::spec_on_map(
            map.take(i),
            x,
        ) || map[i] == x),
{
    let a = map.take(i);
    let b = map.take(i + 1);
    assert(forall|m: int| 0 <= m < b.len() ==> b[m] == map[m]);
    if crate::state::spec_on_map(b, x) {
        let m = choose|m: int| 0 <= m < b.len() && b[m] == x;
        if m < i {
            assert(a[m] == x);
        }
    }
    if crate::state::spec_on_map(a, x) {
        let m = choose|m: int| 0 <= m < a.len() && a[m] == x;
        assert(b[m] == x);
    }
    if map[i] == x {
        assert(b[i] == x);
    }
}

/// What a successful claim asks the external value ledger to do: the gross
/// amount added to the global issuance counter, the net amount minted to the
/// player, and the referral bonus minted to the referrer when one is set.
#[derive(Clone, Copy, Debug, PartialEq, Eq)]
pub struct ClaimOutcome {
    /// Gross reward before the referral split.
    pub gross_reward: u64,
    /// Amount credited to the player, internally and on the ledger.
    pub net_reward: u64,
    /// Amount owed to the referrer's ledger account, when a referrer is set
    /// and the amount is positive.
    pub referral_bonus: u64,
    /// The referrer the bonus is owed to, if any.
    pub referrer: Option<AccountId>,
}

/// Claims the accumulated mining rewards: applies each mapped hero's hp
/// drain, bills the window from the earliest action time at the current
/// halved issuance rate over the power of the heroes still awake, splits off
/// the referral bonus, credits the player's internal balance with the net
/// amount, advances the global issuance counter by the gross amount, and
/// advances every mapped hero's action time. The returned outcome carries
/// the ledger credits the hosting environment must issue. A failed claim
/// changes nothing.
pub fn claim_rewards(gs: &mut GlobalState, ua: &mut UserAccount, now: i64) -> (r: Result<
    ClaimOutcome,
    GameError,
>)
    requires
        old(gs).wf(),
        old(ua).wf(),
        old(ua).times_ok(now),
        now >= 0,
    ensures
        r is Err ==> *final(ua) == *old(ua) && *final(gs) == *old(gs),
        final(gs).wf(),
        final(ua).wf(),
        final(ua).times_ok(now),
        old(gs).paused ==> r == Err::<ClaimOutcome, GameError>(GameError::GamePaused),
        !old(gs).paused && old(ua).active_map@.len() == 0 ==> r == Err::<ClaimOutcome, GameError>(
            GameError::NoHeroesOnMap,
        ),
        ({
            let power = spec_claim_power(old(ua).active_map@, old(ua).inventory@, now);
            let gross = spec_claim_gross(*old(gs), *old(ua), now);
            let live = !old(gs).paused && old(ua).active_map@.len() > 0;
            &&& live && power == 0 ==> r == Err::<ClaimOutcome, GameError>(
                GameError::NoActiveHeroes,
            )
            &&& live && power > 0 && gross > u64::MAX ==> r == Err::<ClaimOutcome, GameError>(
                GameError::ArithmeticOverflow,
            )
            &&& live && power > 0 && gross == 0 ==> r == Err::<ClaimOutcome, GameError>(
                GameError::NoRewardsToClaim,
            )
            &&& live && power > 0 && 0 < gross <= u64::MAX ==> {
                let referral = crate::utils::spec_referral_bonus(gross as u64, old(gs).referral_fee);
                let net = gross - referral;
                let fits = old(gs).total_mined + gross <= u64::MAX && old(ua).coin_balance + net
                    <= u64::MAX;
                &&& !fits ==> r == Err::<ClaimOutcome, GameError>(GameError::ArithmeticOverflow)
                &&& fits ==> {
                    &&& r == Ok::<ClaimOutcome, GameError>(
                        (ClaimOutcome {
                            gross_reward: gross as u64,
                            net_reward: net as u64,
                            referral_bonus: referral as u64,
                            referrer: old(ua).referrer,
                        }),
                    )
                    &&& *final(gs) == (GlobalState {
                        total_mined: (old(gs).total_mined + gross) as u64,
                        ..*old(gs)
                    })
                    &&& final(ua).coin_balance == old(ua).coin_balance + net
                    &&& final(ua).player_power == power
                    &&& final(ua).inventory@.len() == old(ua).inventory@.len()
                    &&& forall|j: int|
                        0 <= j < old(ua).inventory@.len() ==> final(ua).inventory@[j] == (
                        if crate::state::spec_on_map(old(ua).active_map@, j as u16) {
                            spec_drained_hero(old(ua).inventory@[j], now)
                        } else {
                            old(ua).inventory@[j]
                        })
                    &&& *final(ua) == (UserAccount {
                        coin_balance: final(ua).coin_balance,
                        player_power: final(ua).player_power,
                        inventory: final(ua).inventory,
                        ..*old(ua)
                    })
                }
            }
        }),
{
    if gs.paused {
        return Err(GameError::GamePaused);
    }
    if ua.active_map.len() == 0 {
        return Err(GameError::NoHeroesOnMap);
    }
    let ghost map0 = old(ua).active_map@;
    let ghost inv0 = old(ua).inventory@;

    let mut total_hmp: u64 = 0;
    let mut earliest: i64 = now;
    let mut k: usize = 0;
    while k < ua.active_map.len()
        invariant
            *ua == *old(ua),
            *gs == *old(gs),
            old(ua).wf(),
            old(ua).times_ok(now),
            now >= 0,
            map0 == old(ua).active_map@,
            inv0 == old(ua).inventory@,
            k <= map0.len(),
            total_hmp == spec_claim_power(map0.take(k as int), inv0, now),
            total_hmp <= k * 0x20000000000,
            earliest == spec_earliest_action(map0.take(k as int), inv0, now),
            0 <= earliest <= now,
        decreases map0.len() - k,
    {
        proof {
            lemma_take_step(map0, k as int);
        }
        let idx: usize = ua.active_map[k] as usize;
        let h: Hero = ua.inventory[idx];
        let elapsed: u64 = (now - h.last_action_time) as u64;
        let drain: u32 = h.calculate_hp_drain(elapsed);
        let drained_hp: u32 = if h.hp >= drain {
            h.hp - drain
        } else {
            0
        };
        if h.last_action_time < earliest {
            earliest = h.last_action_time;
        }
        if drained_hp > 0 {
            proof {
                crate::state::lemma_hmp_bound(h);
            }
            total_hmp = total_hmp + h.calculate_hmp();
        }
        proof {
            assert(spec_drained_hero(inv0[map0[k as int] as int], now).hp == drained_hp);
        }
        k = k + 1;
    }
    proof {
        assert(map0.take(map0.len() as int) =~= map0);
    }
    if total_hmp == 0 {
        return Err(GameError::NoActiveHeroes);
    }

    let elapsed_seconds: u64 = (now - earliest) as u64;
    let rate: u64 = gs.get_bombcoin_per_block();
    let gross_opt: Option<u64> = crate::utils::checked_mining_reward(
        elapsed_seconds,
        total_hmp,
        rate,
        gs.rewards_precision,
    );
    proof {
        assert(spec_claim_gross(*old(gs), *old(ua), now) == crate::utils::spec_mining_reward(
            elapsed_seconds,
            total_hmp,
            rate,
            gs.rewards_precision,
        ));
    }
    let gross: u64 = match gross_opt {
        Some(g) => g,
        None => {
            return Err(GameError::ArithmeticOverflow);
        },
    };
    if gross == 0 {
        return Err(GameError::NoRewardsToClaim);
    }
    let referral_bonus: u64 = crate::utils::calculate_referral_bonus(gross, gs.referral_fee);
    let net_reward: u64 = gross - referral_bonus;
    let new_total_mined: u64 = match gs.total_mined.checked_add(gross) {
        Some(v) => v,
        None => {
            return Err(GameError::ArithmeticOverflow);
        },
    };
    let new_balance: u64 = match ua.coin_balance.checked_add(net_reward) {
        Some(v) => v,
        None => {
            return Err(GameError::ArithmeticOverflow);
        },
    };

    // Commit: advance the counters, drain every mapped hero and stamp its
    // action time.
    gs.total_mined = new_total_mined;
    ua.coin_balance = new_balance;
    ua.player_power = total_hmp;

    let mut t: usize = 0;
    while t < ua.active_map.len()
        invariant
            t <= map0.len(),
            now >= 0,
            old(ua).wf(),
            map0 == old(ua).active_map@,
            inv0 == old(ua).inventory@,
            inv0.len() <= 0xFFFF,
            forall|i: int| 0 <= i < map0.len() ==> #[trigger] map0[i] < inv0.len(),
            forall|a: int, b: int|
                0 <= a < map0.len() && 0 <= b < map0.len() && a != b ==> map0[a] != map0[b],
            ua.active_map@ == map0,
            ua.inventory@.len() == inv0.len(),
            forall|j: int|
                0 <= j < inv0.len() ==> ua.inventory@[j] == (if crate::state::spec_on_map(
                    map0.take(t as int),
                    j as u16,
                ) {
                    spec_drained_hero(inv0[j], now)
                } else {
                    inv0[j]
                }),
            *ua == (UserAccount {
                coin_balance: ua.coin_balance,
                player_power: ua.player_power,
                inventory: ua.inventory,
                ..*old(ua)
            }),
            ua.coin_balance == new_balance,
            ua.player_power == total_hmp,
        decreases map0.len() - t,
    {
        let idx: usize = ua.active_map[t] as usize;
        proof {
            assert(!crate::state::spec_on_map(map0.take(t as int), map0[t as int])) by {
                if crate::state::spec_on_map(map0.take(t as int), map0[t as int]) {
                    let w = choose|w: int| 0 <= w < t && map0.take(t as int)[w] == map0[t as int];
                    assert(map0[w] == map0[t as int]);
                }
            }
            assert(ua.inventory@[idx as int] == inv0[idx as int]);
        }
        let mut h: Hero = ua.inventory[idx];
        let elapsed: u64 = (now - h.last_action_time) as u64;
        let drain: u32 = h.calculate_hp_drain(elapsed);
        h.hp = if h.hp >= drain {
            h.hp - drain
        } else {
            0
        };
        h.last_action_time = now;
        ua.inventory.set(idx, h);
        proof {
            assert(ua.inventory@[idx as int] == spec_drained_hero(inv0[idx as int], now));
            assert forall|j: int| 0 <= j < inv0.len() implies ua.inventory@[j] == (
            if crate::state::spec_on_map(map0.take(t + 1), j as u16) {
                spec_drained_hero(inv0[j], now)
            } else {
                inv0[j]
            }) by {
                lemma_on_map_take_step(map0, t as int, j as u16);
            }
        }
        t = t + 1;
    }
    proof {
        assert(map0.take(map0.len() as int) =~= map0);
        assert forall|j: int|
            0 <= j < ua.inventory@.len() implies (#[trigger] ua.inventory@[j]).hp
            <= ua.inventory@[j].max_hp && ua.inventory@[j].last_action_time >= 0
            && ua.inventory@[j].last_action_time <= now by {
            assert(inv0[j].hp <= inv0[j].max_hp);
            assert(inv0[j].last_action_time >= 0);
            assert(inv0[j].last_action_time <= now);
        }
    }
    Ok(
        ClaimOutcome {
            gross_reward: gross,
            net_reward,
            referral_bonus,
            referrer: ua.referrer,
        },
    )
}


// ===========================================================================
// Pending-reward preview
// ===========================================================================

/// Number of mapped heroes that would still be awake after the drain a claim
/// at `now` applies.
pub open spec fn spec_claim_active_count(map: Seq<u16>, inv: Seq<Hero>, now: i64) -> int
    decreases map.len(),
{
    if map.len() == 0 {
        0
    } else {
        spec_claim_active_count(map.drop_last(), inv, now) + if spec_drained_hero(
            inv[map.last() as int],
            now,
        ).hp > 0 {
            1int
        } else {
            0int
        }
    }
}

/// A non-mutating preview of the claimable value: the very amounts a claim
/// at the same instant would compute and credit.
#[derive(Clone, Copy, Debug, PartialEq, Eq, Structural)]
pub struct PendingRewardsData {
    /// Previewed gross reward.
    pub gross_reward: u64,
    /// Previewed net reward after the referral split.
    pub net_reward: u64,
    /// Previewed referral bonus.
    pub referral_bonus: u64,
    /// Summed mining power of the heroes still awake after their simulated
    /// drain.
    pub total_hmp: u64,
    /// Number of mapped heroes still awake after their simulated drain.
    pub active_hero_count: u16,
    /// Length of the previewed billing window in seconds.
    pub elapsed_seconds: u64,
    /// Current halved issuance rate.
    pub current_bombcoin_per_block: u64,
}

/// Previews the pending rewards without mutating anything, by the same
/// computation a claim runs: each mapped hero's hp drain is simulated, the
/// billing window runs from the earliest action time among all mapped
/// heroes, and power is summed over the heroes still awake after the
/// simulated drain. When that power is zero — a claim would pay nothing and
/// fail — the previewed amounts are zero.
pub fn pending_rewards(gs: &GlobalState, ua: &UserAccount, now: i64) -> (r: Result<
    PendingRewardsData,
    GameError,
>)
    requires
        gs.wf(),
        ua.wf(),
        ua.times_ok(now),
        now >= 0,
    ensures
        ({
            let power = spec_claim_power(ua.active_map@, ua.inventory@, now);
            let count = spec_claim_active_count(ua.active_map@, ua.inventory@, now);
            let elapsed = now - spec_earliest_action(ua.active_map@, ua.inventory@, now);
            let gross = spec_claim_gross(*gs, *ua, now);
            &&& gross > u64::MAX ==> r == Err::<PendingRewardsData, GameError>(
                GameError::ArithmeticOverflow,
            )
            &&& gross <= u64::MAX ==> r == Ok::<PendingRewardsData, GameError>(
                (PendingRewardsData {
                    gross_reward: gross as u64,
                    net_reward: (gross - crate::utils::spec_referral_bonus(
                        gross as u64,
                        gs.referral_fee,
                    )) as u64,
                    referral_bonus: crate::utils::spec_referral_bonus(
                        gross as u64,
                        gs.referral_fee,
                    ) as u64,
                    total_hmp: power as u64,
                    active_hero_count: count as u16,
                    elapsed_seconds: elapsed as u64,
                    current_bombcoin_per_block: crate::state::spec_bombcoin_per_block(*gs),
                }),
            )
        }),
{
    let ghost map0 = ua.active_map@;
    let ghost inv0 = ua.inventory@;
    let mut total_hmp: u64 = 0;
    let mut active_hero_count: u16 = 0;
    let mut earliest: i64 = now;
    let mut k: usize = 0;
    while k < ua.active_map.len()
        invariant
            ua.wf(),
            ua.times_ok(now),
            now >= 0,
            map0 == ua.active_map@,
            inv0 == ua.inventory@,
            k <= map0.len(),
            total_hmp == spec_claim_power(map0.take(k as int), inv0, now),
            total_hmp <= k * 0x20000000000,
            active_hero_count == spec_claim_active_count(map0.take(k as int), inv0, now),
            active_hero_count <= k,
            earliest == spec_earliest_action(map0.take(k as int), inv0, now),
            0 <= earliest <= now,
        decreases map0.len() - k,
    {
        proof {
            lemma_take_step(map0, k as int);
        }
        let idx: usize = ua.active_map[k] as usize;
        let h: Hero = ua.inventory[idx];
        let elapsed: u64 = (now - h.last_action_time) as u64;
        let drain: u32 = h.calculate_hp_drain(elapsed);
        let drained_hp: u32 = if h.hp >= drain {
            h.hp - drain
        } else {
            0
        };
        if h.last_action_time < earliest {
            earliest = h.last_action_time;
        }
        if drained_hp > 0 {
            proof {
                crate::state::lemma_hmp_bound(h);
            }
            total_hmp = total_hmp + h.calculate_hmp();
            active_hero_count = active_hero_count + 1;
        }
        proof {
            assert(spec_drained_hero(inv0[map0[k as int] as int], now).hp == drained_hp);
        }
        k = k + 1;
    }
    proof {
        assert(map0.take(map0.len() as int) =~= map0);
    }
    let current_rate: u64 = gs.get_bombcoin_per_block();
    let elapsed_seconds: u64 = (now - earliest) as u64;
    let gross_opt: Option<u64> = crate::utils::checked_mining_reward(
        elapsed_seconds,
        total_hmp,
        current_rate,
        gs.rewards_precision,
    );
    proof {
        assert(spec_claim_gross(*gs, *ua, now) == crate::utils::spec_mining_reward(
            elapsed_seconds,
            total_hmp,
            current_rate,
            gs.rewards_precision,
        ));
    }
    let gross_reward: u64 = match gross_opt {
        Some(g) => g,
        None => {
            return Err(GameError::ArithmeticOverflow);
        },
    };
    let referral_bonus: u64 = crate::utils::calculate_referral_bonus(
        gross_reward,
        gs.referral_fee,
    );
    let net_reward: u64 = gross_reward - referral_bonus;
    Ok(
        PendingRewardsData {
            gross_reward,
            net_reward,
            referral_bonus,
            total_hmp,
            active_hero_count,
            elapsed_seconds,
            current_bombcoin_per_block: current_rate,
        },
    )
}

// ===========================================================================
// Query surface
// ===========================================================================

/// Number of sleeping heroes in an inventory.
pub open spec fn spec_sleeping_count(inv: Seq<Hero>) -> int
    decreases inv.len(),
{
    if inv.len() == 0 {
        0
    } else {
        spec_sleeping_count(inv.drop_last()) + if inv.last().hp == 0 {
            1int
        } else {
            0int
        }
    }
}

/// Number of inventory indices below `n` that are on the mining map.
pub open spec fn spec_on_map_count(map: Seq<u16>, n: int) -> int
    decreases n,
{
    if n <= 0 {
        0
    } else {
        spec_on_map_count(map, n - 1) + if crate::state::spec_on_map(map, (n - 1) as u16) {
            1int
        } else {
            0int
        }
    }
}

/// Number of non-empty tiles of a grid.
pub open spec fn spec_nonempty_tile_count(tiles: Seq<HouseTile>) -> int
    decreases tiles.len(),
{
    if tiles.len() == 0 {
        0
    } else {
        spec_nonempty_tile_count(tiles.drop_last()) + if tiles.last().hero_id != EMPTY_TILE {
            1int
        } else {
            0int
        }
    }
}

/// Cooldown seconds remaining before the next upgrade, zero once expired or
/// before any upgrade happened.
pub open spec fn spec_upgrade_cooldown_remaining(ua: UserAccount, now: i64) -> int {
    if ua.last_house_upgrade_timestamp > 0 {
        let rem = spec_upgrade_cooldown(ua.house_level) - (now - ua.last_house_upgrade_timestamp);
        if rem < 0 {
            0
        } else {
            rem
        }
    } else {
        0
    }
}

/// A profile summary for clients.
#[derive(Clone, Copy, Debug, PartialEq, Eq)]
pub struct PlayerStatsData {
    /// Owner identity.
    pub owner: AccountId,
    /// Current house level.
    pub house_level: u8,
    /// Grid width.
    pub grid_width: u8,
    /// Grid height.
    pub grid_height: u8,
    /// Internal coin balance.
    pub coin_balance: u64,
    /// Cached mining power.
    pub player_power: u64,
    /// Heroes owned.
    pub heroes_total: u64,
    /// Heroes on the mining map.
    pub heroes_on_map: u64,
    /// Heroes placed on the grid.
    pub heroes_on_grid: u64,
    /// Heroes placed in restroom slots.
    pub heroes_in_restroom: u64,
    /// Heroes at zero hp.
    pub heroes_sleeping: u64,
    /// Restroom-slot cap at the current level.
    pub max_restroom_slots: u64,
    /// Restroom slots in use.
    pub restroom_slots_used: u64,
    /// Coin cost of the next upgrade.
    pub next_upgrade_cost: u64,
    /// Cooldown seconds remaining before the next upgrade.
    pub upgrade_cooldown_remaining: i64,
    /// Whether an upgrade is currently possible on level and cooldown.
    pub can_upgrade: bool,
    /// The recorded referrer, if any.
    pub referrer: Option<AccountId>,
    /// Total referral bonus paid through this profile.
    pub referral_bonus_paid: u64,
    /// Number of players this profile referred.
    pub referral_count: u64,
}

/// Summarizes a profile: hero counts by location and state, restroom usage,
/// upgrade eligibility and the referral record.
pub fn get_player_stats(ua: &UserAccount, now: i64) -> (r: Result<PlayerStatsData, GameError>)
    requires
        ua.wf(),
        ua.times_ok(now),
        now >= 0,
    ensures
        r matches Ok(d) ==> {
            &&& d.owner == ua.owner
            &&& d.house_level == ua.house_level
            &&& d.grid_width == ua.grid_width
            &&& d.grid_height == ua.grid_height
            &&& d.coin_balance == ua.coin_balance
            &&& d.player_power == ua.player_power
            &&& d.heroes_total == ua.inventory@.len()
            &&& d.heroes_on_map == spec_on_map_count(ua.active_map@, ua.inventory@.len() as int)
            &&& d.heroes_on_grid == spec_nonempty_tile_count(ua.house_occupied_coords@)
            &&& d.heroes_in_restroom == spec_restroom_count(ua.house_occupied_coords@)
            &&& d.heroes_sleeping == spec_sleeping_count(ua.inventory@)
            &&& d.max_restroom_slots == spec_max_restroom_slots(ua.house_level)
            &&& d.restroom_slots_used == spec_restroom_count(ua.house_occupied_coords@)
            &&& d.next_upgrade_cost == spec_upgrade_cost(ua.house_level)
            &&& d.upgrade_cooldown_remaining == spec_upgrade_cooldown_remaining(*ua, now)
            &&& d.can_upgrade == (ua.house_level < MAX_HOUSE_LEVEL
                && spec_upgrade_cooldown_remaining(*ua, now) == 0)
            &&& d.referrer == ua.referrer
            &&& d.referral_bonus_paid == ua.referral_bonus_paid
            &&& d.referral_count == ua.referrals@.len()
        },
        r is Ok,
{
    let mut heroes_sleeping: u64 = 0;
    let mut heroes_on_map: u64 = 0;
    let mut j: usize = 0;
    while j < ua.inventory.len()
        invariant
            ua.wf(),
            j <= ua.inventory@.len(),
            heroes_sleeping == spec_sleeping_count(ua.inventory@.take(j as int)),
            heroes_sleeping <= j,
            heroes_on_map == spec_on_map_count(ua.active_map@, j as int),
            heroes_on_map <= j,
        decreases ua.inventory@.len() - j,
    {
        proof {
            lemma_take_step(ua.inventory@, j as int);
        }
        if ua.inventory[j].is_sleeping() {
            heroes_sleeping = heroes_sleeping + 1;
        }
        if contains_u16(&ua.active_map, j as u16) {
            heroes_on_map = heroes_on_map + 1;
        }
        j = j + 1;
    }
    proof {
        assert(ua.inventory@.take(ua.inventory@.len() as int) =~= ua.inventory@);
    }

    let mut heroes_on_grid: u64 = 0;
    let mut heroes_in_restroom: u64 = 0;
    let mut t: usize = 0;
    while t < ua.house_occupied_coords.len()
        invariant
            t <= ua.house_occupied_coords@.len(),
            heroes_on_grid == spec_nonempty_tile_count(ua.house_occupied_coords@.take(t as int)),
            heroes_on_grid <= t,
            heroes_in_restroom == spec_restroom_count(ua.house_occupied_coords@.take(t as int)),
            heroes_in_restroom <= t,
        decreases ua.house_occupied_coords@.len() - t,
    {
        proof {
            lemma_take_step(ua.house_occupied_coords@, t as int);
        }
        let tile: HouseTile = ua.house_occupied_coords[t];
        if tile.hero_id != EMPTY_TILE {
            heroes_on_grid = heroes_on_grid + 1;
            if tile.is_restroom {
                heroes_in_restroom = heroes_in_restroom + 1;
            }
        }
        t = t + 1;
    }
    proof {
        assert(ua.house_occupied_coords@.take(ua.house_occupied_coords@.len() as int)
            =~= ua.house_occupied_coords@);
    }

    let next_upgrade_cost: u64 = ua.get_upgrade_cost();
    let upgrade_cooldown_remaining: i64 = if ua.last_house_upgrade_timestamp > 0 {
        let cooldown: i64 = ua.get_upgrade_cooldown();
        let elapsed: i64 = now - ua.last_house_upgrade_timestamp;
        if cooldown - elapsed < 0 {
            0
        } else {
            cooldown - elapsed
        }
    } else {
        0
    };
    let max_restroom_slots: usize = ua.get_max_restroom_slots();
    let restroom_slots_used: usize = ua.count_restroom_slots();

    Ok(
        PlayerStatsData {
            owner: ua.owner,
            house_level: ua.house_level,
            grid_width: ua.grid_width,
            grid_height: ua.grid_height,
            coin_balance: ua.coin_balance,
            player_power: ua.player_power,
            heroes_total: ua.inventory.len() as u64,
            heroes_on_map,
            heroes_on_grid,
            heroes_in_restroom,
            heroes_sleeping,
            max_restroom_slots: max_restroom_slots as u64,
            restroom_slots_used: restroom_slots_used as u64,
            next_upgrade_cost,
            upgrade_cooldown_remaining,
            can_upgrade: ua.house_level < MAX_HOUSE_LEVEL && upgrade_cooldown_remaining == 0,
            referrer: ua.referrer,
            referral_bonus_paid: ua.referral_bonus_paid,
            referral_count: ua.referrals.len() as u64,
        },
    )
}

/// A single hero's detail view, including its extrapolated current hp.
#[derive(Clone, Copy, Debug, PartialEq, Eq)]
pub struct HeroDetailsData {
    /// Hero id within the inventory.
    pub id: u16,
    /// Skin template.
    pub skin_id: u8,
    /// Rarity tier.
    pub rarity: crate::state::HeroRarity,
    /// Power stat.
    pub power: u32,
    /// Speed stat.
    pub speed: u32,
    /// Stamina stat.
    pub stamina: u32,
    /// Stamina cap.
    pub max_stamina: u32,
    /// Bomb count.
    pub bomb_number: u8,
    /// Bomb range.
    pub bomb_range: u8,
    /// Stored hit points.
    pub hp: u32,
    /// Hit-point cap.
    pub max_hp: u32,
    /// Hit points extrapolated to `now` without mutating the hero.
    pub estimated_current_hp: u32,
    /// Mining power.
    pub hmp: u64,
    /// Is the hero asleep (by its stored hp)?
    pub is_sleeping: bool,
    /// Is the hero on the mining map?
    pub is_on_map: bool,
    /// Is the hero placed on the grid?
    pub is_on_grid: bool,
    /// Column of its tile, when placed.
    pub grid_x: Option<u8>,
    /// Row of its tile, when placed.
    pub grid_y: Option<u8>,
    /// Is its tile a restroom slot?
    pub is_in_restroom: bool,
    /// Timestamp of the hero's last action.
    pub last_action_time: i64,
    /// Seconds since the hero's last action.
    pub elapsed_since_action: u64,
}

/// Details one hero, extrapolating its current hp from the elapsed time:
/// mining heroes project their drain, placed heroes project their
/// tile-scaled recovery, idle heroes keep their stored hp.
pub fn get_hero_details(ua: &UserAccount, hero_index: u16, now: i64) -> (r: Result<
    HeroDetailsData,
    GameError,
>)
    requires
        ua.wf(),
        ua.times_ok(now),
        now >= 0,
    ensures
        hero_index >= ua.inventory@.len() ==> r == Err::<HeroDetailsData, GameError>(
            GameError::InvalidHeroIndex,
        ),
        hero_index < ua.inventory@.len() ==> (r matches Ok(d) && {
            let h = ua.inventory@[hero_index as int];
            let on_map = crate::state::spec_on_map(ua.active_map@, hero_index);
            let on_grid = spec_on_grid(ua.house_occupied_coords@, hero_index);
            let tile = spec_tile_for(ua.house_occupied_coords@, hero_index);
            let elapsed = (now - h.last_action_time) as u64;
            &&& d.id == h.id
            &&& d.skin_id == h.skin_id
            &&& d.rarity == h.rarity
            &&& d.power == h.power
            &&& d.speed == h.speed
            &&& d.stamina == h.stamina
            &&& d.max_stamina == h.max_stamina
            &&& d.bomb_number == h.bomb_number
            &&& d.bomb_range == h.bomb_range
            &&& d.hp == h.hp
            &&& d.max_hp == h.max_hp
            &&& d.hmp == spec_hmp(h)
            &&& d.is_sleeping == (h.hp == 0)
            &&& d.is_on_map == on_map
            &&& d.is_on_grid == on_grid
            &&& d.grid_x == (if on_grid {
                Some(tile.x)
            } else {
                None::<u8>
            })
            &&& d.grid_y == (if on_grid {
                Some(tile.y)
            } else {
                None::<u8>
            })
            &&& d.is_in_restroom == (on_grid && tile.is_restroom)
            &&& d.last_action_time == h.last_action_time
            &&& d.elapsed_since_action == elapsed
            &&& d.estimated_current_hp == (if on_map {
                spec_drained_hero(h, now).hp
            } else if on_grid {
                spec_recovered_hero(h, tile, now).hp
            } else {
                h.hp
            })
        }),
{
    if !((hero_index as usize) < ua.inventory.len()) {
        return Err(GameError::InvalidHeroIndex);
    }
    let h: Hero = ua.inventory[hero_index as usize];
    let is_on_map: bool = contains_u16(&ua.active_map, hero_index);
    let grid_tile: Option<HouseTile> = ua.find_hero_on_grid(hero_index);

    let (grid_x, grid_y, is_in_restroom): (Option<u8>, Option<u8>, bool) = match grid_tile {
        Some(tile) => (Some(tile.x), Some(tile.y), tile.is_restroom),
        None => (None, None, false),
    };

    proof {
        if grid_tile is Some {
            let tiles = ua.house_occupied_coords@;
            let t = grid_tile->0;
            let w = choose|w: int| 0 <= w < tiles.len() && tiles[w] == t;
            let c = choose|c: int| 0 <= c < tiles.len() && tiles[c].hero_id == hero_index;
            assert(tiles[w].hero_id == hero_index);
            assert(w == c);
            assert(spec_tile_for(tiles, hero_index) == t);
        }
    }

    let elapsed_since_action: u64 = (now - h.last_action_time) as u64;

    let estimated_hp_drain: u32 = if is_on_map {
        h.calculate_hp_drain(elapsed_since_action)
    } else {
        0
    };

    let estimated_hp_recovery: u32 = if grid_tile.is_some() && !is_on_map {
        let multiplier: u32 = if is_in_restroom {
            3
        } else {
            1
        };
        h.calculate_hp_recovery(elapsed_since_action, multiplier)
    } else {
        0
    };

    let estimated_current_hp: u32 = if is_on_map {
        if h.hp >= estimated_hp_drain {
            h.hp - estimated_hp_drain
        } else {
            0
        }
    } else if grid_tile.is_some() {
        let raw: u64 = (h.hp as u64) + (estimated_hp_recovery as u64);
        if raw > (h.max_hp as u64) {
            h.max_hp
        } else {
            raw as u32
        }
    } else {
        h.hp
    };

    let hmp: u64 = h.calculate_hmp();
    let is_sleeping: bool = h.is_sleeping();
    Ok(
        HeroDetailsData {
            id: h.id,
            skin_id: h.skin_id,
            rarity: h.rarity,
            power: h.power,
            speed: h.speed,
            stamina: h.stamina,
            max_stamina: h.max_stamina,
            bomb_number: h.bomb_number,
            bomb_range: h.bomb_range,
            hp: h.hp,
            max_hp: h.max_hp,
            estimated_current_hp,
            hmp,
            is_sleeping,
            is_on_map,
            is_on_grid: grid_tile.is_some(),
            grid_x,
            grid_y,
            is_in_restroom,
            last_action_time: h.last_action_time,
            elapsed_since_action,
        },
    )
}

/// One tile of the grid snapshot.
#[derive(Clone, Copy, Debug, PartialEq, Eq, Structural)]
pub struct GridTileData {
    /// Column.
    pub x: u8,
    /// Row.
    pub y: u8,
    /// Occupant, if any.
    pub hero_id: Option<u16>,
    /// Is the tile a restroom slot?
    pub is_restroom: bool,
    /// Is the tile empty?
    pub is_empty: bool,
}

/// A snapshot of the whole grid.
#[derive(Clone, Debug, PartialEq, Eq)]
pub struct GridStateData {
    /// Grid width.
    pub grid_width: u8,
    /// Grid height.
    pub grid_height: u8,
    /// Current house level.
    pub house_level: u8,
    /// Every stored tile.
    pub occupied_tiles: Vec<GridTileData>,
    /// Width times height.
    pub total_tiles: u64,
    /// Number of non-empty tiles.
    pub tiles_occupied: u64,
}

/// Snapshots the grid: dimensions, level, every stored tile and the
/// occupancy totals.
pub fn get_grid_state(ua: &UserAccount) -> (r: Result<GridStateData, GameError>)
    ensures
        r matches Ok(d) ==> {
            let tiles = ua.house_occupied_coords@;
            &&& d.grid_width == ua.grid_width
            &&& d.grid_height == ua.grid_height
            &&& d.house_level == ua.house_level
            &&& d.occupied_tiles@.len() == tiles.len()
            &&& forall|i: int|
                0 <= i < tiles.len() ==> #[trigger] d.occupied_tiles@[i] == (GridTileData {
                    x: tiles[i].x,
                    y: tiles[i].y,
                    hero_id: if tiles[i].hero_id == EMPTY_TILE {
                        None
                    } else {
                        Some(tiles[i].hero_id)
                    },
                    is_restroom: tiles[i].is_restroom,
                    is_empty: tiles[i].hero_id == EMPTY_TILE,
                })
            &&& d.total_tiles == ua.grid_width * ua.grid_height
            &&& d.tiles_occupied == spec_nonempty_tile_count(tiles)
        },
        r is Ok,
{
    let mut tiles_out: Vec<GridTileData> = Vec::new();
    let mut occupied: u64 = 0;
    let mut i: usize = 0;
    while i < ua.house_occupied_coords.len()
        invariant
            i <= ua.house_occupied_coords@.len(),
            tiles_out@.len() == i,
            occupied <= i,
            occupied == spec_nonempty_tile_count(ua.house_occupied_coords@.take(i as int)),
            forall|j: int|
                0 <= j < i ==> #[trigger] tiles_out@[j] == (GridTileData {
                    x: ua.house_occupied_coords@[j].x,
                    y: ua.house_occupied_coords@[j].y,
                    hero_id: if ua.house_occupied_coords@[j].hero_id == EMPTY_TILE {
                        None
                    } else {
                        Some(ua.house_occupied_coords@[j].hero_id)
                    },
                    is_restroom: ua.house_occupied_coords@[j].is_restroom,
                    is_empty: ua.house_occupied_coords@[j].hero_id == EMPTY_TILE,
                }),
        decreases ua.house_occupied_coords@.len() - i,
    {
        proof {
            lemma_take_step(ua.house_occupied_coords@, i as int);
        }
        let tile: HouseTile = ua.house_occupied_coords[i];
        let empty: bool = tile.hero_id == EMPTY_TILE;
        tiles_out.push(
            GridTileData {
                x: tile.x,
                y: tile.y,
                hero_id: if empty {
                    None
                } else {
                    Some(tile.hero_id)
                },
                is_restroom: tile.is_restroom,
                is_empty: empty,
            },
        );
        if !empty {
            occupied = occupied + 1;
        }
        i = i + 1;
    }
    proof {
        assert(ua.house_occupied_coords@.take(ua.house_occupied_coords@.len() as int)
            =~= ua.house_occupied_coords@);
        assert((ua.grid_width as int) * (ua.grid_height as int) <= 65025) by (nonlinear_arith)
            requires
                0 <= ua.grid_width < 256,
                0 <= ua.grid_height < 256,
        ;
    }
    let total_tiles: u64 = (ua.grid_width as u64) * (ua.grid_height as u64);
    Ok(
        GridStateData {
            grid_width: ua.grid_width,
            grid_height: ua.grid_height,
            house_level: ua.house_level,
            occupied_tiles: tiles_out,
            total_tiles,
            tiles_occupied: occupied,
        },
    )
}

/// A snapshot of the global economic state.
#[derive(Clone, Copy, Debug, PartialEq, Eq)]
pub struct GameInfoData {
    /// Admin authority.
    pub authority: AccountId,
    /// Treasury identity.
    pub dev_treasury: AccountId,
    /// Identity of the emitted currency.
    pub reward_token_mint: AccountId,
    /// Has the game started?
    pub game_has_started: bool,
    /// Pause flag.
    pub paused: bool,
    /// Timestamp at which the game started.
    pub start_block: i64,
    /// Houses initialized.
    pub house_count: u64,
    /// Heroes generated globally.
    pub unique_heroes_count: u64,
    /// Sum of all players' power.
    pub total_hash_power: u64,
    /// Initial house price.
    pub initial_house_price: u64,
    /// Base issuance rate.
    pub initial_bombcoin_per_block: u64,
    /// Current halved issuance rate.
    pub current_bombcoin_per_block: u64,
    /// Halving interval.
    pub halving_interval: u64,
    /// Burn share in basis points.
    pub burn_pct: u16,
    /// Referral share in basis points.
    pub referral_fee: u16,
    /// Reward precision multiplier.
    pub rewards_precision: u64,
    /// Cumulative issuance.
    pub total_mined: u64,
    /// Cumulative burn.
    pub total_burned: u64,
    /// Reward pool from purchases.
    pub reward_pool: u64,
    /// Issuance remaining until the next halving.
    pub blocks_until_next_halving: u64,
}

/// Snapshots the global state, including the current halved issuance rate
/// and the distance to the next halving milestone.
pub fn get_game_info(gs: &GlobalState) -> (r: Result<GameInfoData, GameError>)
    ensures
        r matches Ok(d) ==> {
            &&& d.authority == gs.authority
            &&& d.dev_treasury == gs.dev_treasury
            &&& d.reward_token_mint == gs.reward_token_mint
            &&& d.game_has_started == gs.game_has_started
            &&& d.paused == gs.paused
            &&& d.start_block == gs.start_block
            &&& d.house_count == gs.house_count
            &&& d.unique_heroes_count == gs.unique_heroes_count
            &&& d.total_hash_power == gs.total_hash_power
            &&& d.initial_house_price == gs.initial_house_price
            &&& d.initial_bombcoin_per_block == gs.initial_bombcoin_per_block
            &&& d.current_bombcoin_per_block == crate::state::spec_bombcoin_per_block(*gs)
            &&& d.halving_interval == gs.halving_interval
            &&& d.burn_pct == gs.burn_pct
            &&& d.referral_fee == gs.referral_fee
            &&& d.rewards_precision == gs.rewards_precision
            &&& d.total_mined == gs.total_mined
            &&& d.total_burned == gs.total_burned
            &&& d.reward_pool == gs.reward_pool
            &&& d.blocks_until_next_halving == (if gs.halving_interval == 0 {
                u64::MAX as int
            } else {
                gs.halving_interval - gs.total_mined % gs.halving_interval
            })
        },
        r is Ok,
{
    Ok(
        GameInfoData {
            authority: gs.authority,
            dev_treasury: gs.dev_treasury,
            reward_token_mint: gs.reward_token_mint,
            game_has_started: gs.game_has_started,
            paused: gs.paused,
            start_block: gs.start_block,
            house_count: gs.house_count,
            unique_heroes_count: gs.unique_heroes_count,
            total_hash_power: gs.total_hash_power,
            initial_house_price: gs.initial_house_price,
            initial_bombcoin_per_block: gs.initial_bombcoin_per_block,
            current_bombcoin_per_block: gs.get_bombcoin_per_block(),
            halving_interval: gs.halving_interval,
            burn_pct: gs.burn_pct,
            referral_fee: gs.referral_fee,
            rewards_precision: gs.rewards_precision,
            total_mined: gs.total_mined,
            total_burned: gs.total_burned,
            reward_pool: gs.reward_pool,
            blocks_until_next_halving: gs.blocks_until_next_halving(),
        },
    )
}

} // verus!
