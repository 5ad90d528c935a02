//! Library-wide laws, stated and proved once over the specification model:
//! the rarity partition is exhaustive and exclusive, vitality updates stay
//! within the hit-point bounds, and the halving curve only ever falls until
//! it reaches zero.

use vstd::prelude::*;
use crate::errors::GameError;
use crate::state::{
    AccountId, GlobalState, Hero, HeroRarity, HouseTile, lemma_halved_rate_exhausts,
    lemma_halved_rate_monotone, spec_bombcoin_per_block, spec_rarity_from_roll, spec_rarity_hi,
    spec_rarity_lo, UserAccount,
};
use crate::ops::{spec_drained_hero, spec_recovered_hero, spec_set_referrer};

verus! {

/// Every roll in the declared 0-1000 domain selects exactly one rarity tier:
/// a tier's inclusive range contains the roll precisely when the roll selects
/// that tier.
pub proof fn lemma_rarity_partition(roll: u16)
    requires
        roll <= 1000,
    ensures
        forall|t: HeroRarity|
            (spec_rarity_lo(t) <= roll && roll <= spec_rarity_hi(t)) <==> t
                == spec_rarity_from_roll(roll),
{
    assert forall|t: HeroRarity|
        (spec_rarity_lo(t) <= roll && roll <= spec_rarity_hi(t)) <==> t == spec_rarity_from_roll(
            roll,
        ) by {
        match t {
            HeroRarity::Common => {},
            HeroRarity::Uncommon => {},
            HeroRarity::Rare => {},
            HeroRarity::SuperRare => {},
            HeroRarity::Epic => {},
            HeroRarity::Legendary => {},
        }
    }
}

/// The rarity ranges tile the whole 0-1000 domain: they start at 0, end at
/// 1000, each tier is non-empty, and each tier begins right after the
/// previous one ends.
pub proof fn lemma_rarity_ranges_contiguous()
    ensures
        spec_rarity_lo(HeroRarity::Common) == 0,
        spec_rarity_hi(HeroRarity::Legendary) == 1000,
        spec_rarity_lo(HeroRarity::Uncommon) == spec_rarity_hi(HeroRarity::Common) + 1,
        spec_rarity_lo(HeroRarity::Rare) == spec_rarity_hi(HeroRarity::Uncommon) + 1,
        spec_rarity_lo(HeroRarity::SuperRare) == spec_rarity_hi(HeroRarity::Rare) + 1,
        spec_rarity_lo(HeroRarity::Epic) == spec_rarity_hi(HeroRarity::SuperRare) + 1,
        spec_rarity_lo(HeroRarity::Legendary) == spec_rarity_hi(HeroRarity::Epic) + 1,
        forall|t: HeroRarity| spec_rarity_lo(t) <= spec_rarity_hi(t),
{
    assert forall|t: HeroRarity| spec_rarity_lo(t) <= spec_rarity_hi(t) by {
        match t {
            HeroRarity::Common => {},
            HeroRarity::Uncommon => {},
            HeroRarity::Rare => {},
            HeroRarity::SuperRare => {},
            HeroRarity::Epic => {},
            HeroRarity::Legendary => {},
        }
    }
}

/// Vitality updates saturate: however much time has passed, a drained hero's
/// hp never falls below zero and a recovered hero's hp never exceeds its
/// cap; neither update touches the cap itself.
pub proof fn lemma_vitality_saturation(h: Hero, t: HouseTile, now: i64)
    requires
        h.hp <= h.max_hp,
    ensures
        0 <= spec_drained_hero(h, now).hp <= h.max_hp,
        spec_drained_hero(h, now).max_hp == h.max_hp,
        h.hp <= spec_recovered_hero(h, t, now).hp <= h.max_hp,
        spec_recovered_hero(h, t, now).max_hp == h.max_hp,
{
}

/// A referrer, once recorded, is immutable: after any successful recording,
/// every further attempt fails with `ReferrerAlreadySet` and leaves the
/// profile unchanged. A profile can never refer itself: that attempt always
/// fails, whether or not a referrer is recorded.
pub proof fn lemma_referrer_immutable(ua: UserAccount, first: AccountId, second: AccountId)
    requires
        spec_set_referrer(ua, first).0 is Ok,
    ensures
        spec_set_referrer(spec_set_referrer(ua, first).1, second).0 == Err::<(), GameError>(
            GameError::ReferrerAlreadySet,
        ),
        spec_set_referrer(spec_set_referrer(ua, first).1, second).1 == spec_set_referrer(
            ua,
            first,
        ).1,
        second@ == ua.owner@ ==> spec_set_referrer(ua, second).0 is Err,
{
}

/// The issuance rate is non-increasing as cumulative issuance grows, all
/// other economic parameters held fixed.
pub proof fn lemma_issuance_rate_monotonic(gs1: GlobalState, gs2: GlobalState)
    requires
        gs1.initial_bombcoin_per_block == gs2.initial_bombcoin_per_block,
        gs1.halving_interval == gs2.halving_interval,
        gs1.total_mined <= gs2.total_mined,
    ensures
        spec_bombcoin_per_block(gs2) <= spec_bombcoin_per_block(gs1),
{
    if gs1.halving_interval != 0 {
        vstd::arithmetic::div_mod::lemma_div_is_ordered(
            gs1.total_mined as int,
            gs2.total_mined as int,
            gs1.halving_interval as int,
        );
        lemma_halved_rate_monotone(
            gs1.initial_bombcoin_per_block,
            (gs1.total_mined / gs1.halving_interval) as nat,
            (gs2.total_mined / gs2.halving_interval) as nat,
        );
    }
}

/// Once cumulative issuance has crossed sixty-four halving intervals, the
/// issuance rate is exactly zero, and it stays zero for any larger issuance.
pub proof fn lemma_issuance_rate_reaches_zero(gs: GlobalState)
    requires
        gs.halving_interval > 0,
        gs.total_mined / gs.halving_interval >= 64,
    ensures
        spec_bombcoin_per_block(gs) == 0,
{
    lemma_halved_rate_exhausts(
        gs.initial_bombcoin_per_block,
        (gs.total_mined / gs.halving_interval) as nat,
    );
}

} // verus!
