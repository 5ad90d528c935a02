//! Typed failures surfaced by every game operation.

use vstd::prelude::*;

verus! {

/// Every way a game operation can fail. Precondition violations are caught
/// before any state is mutated; arithmetic faults are surfaced as
/// `ArithmeticOverflow` rather than clamped.
#[derive(Clone, Copy, Debug, PartialEq, Eq, Structural)]
pub enum GameError {
    /// Game is currently paused.
    GamePaused,
    /// Game has not started yet.
    GameNotStarted,
    /// Hero minting is currently disabled.
    MintingDisabled,
    /// House upgrades are currently disabled.
    HouseUpgradesDisabled,
    /// Caller is not the configured admin authority.
    Unauthorized,
    /// Insufficient coins for this action.
    InsufficientCoins,
    /// Insufficient native funds for this action.
    InsufficientSOL,
    /// Burn percentage outside 0-10000 basis points.
    InvalidBurnPercentage,
    /// Referral fee outside 0-10000 basis points.
    InvalidReferralFee,
    /// Hero index outside the inventory.
    InvalidHeroIndex,
    /// Hero has 0 hp and must recover first.
    HeroIsSleeping,
    /// Hero is not in the inventory.
    HeroNotInInventory,
    /// Hero is already placed or already mining.
    HeroAlreadyOnMap,
    /// Hero quantity outside 1-10.
    InvalidHeroQuantity,
    /// Player has not purchased the initial house.
    HouseNotInitialized,
    /// Coordinates outside the current grid.
    InvalidGridCoordinates,
    /// Grid position is already occupied.
    GridPositionOccupied,
    /// Grid position is empty.
    GridPositionEmpty,
    /// Hero is not on the grid.
    HeroNotOnGrid,
    /// Maximum house level already reached.
    MaxHouseLevelReached,
    /// House upgrade cooldown is still active.
    UpgradeCooldownActive,
    /// Mining map is full.
    MapFull,
    /// No heroes currently on the mining map.
    NoHeroesOnMap,
    /// Hero is not on the mining map.
    HeroNotOnMap,
    /// Every mining hero is asleep.
    NoActiveHeroes,
    /// All restroom slots are in use.
    RestroomFull,
    /// Hero is not in a restroom.
    HeroNotInRestroom,
    /// Computed reward is zero.
    NoRewardsToClaim,
    /// An economic computation left the representable range.
    ArithmeticOverflow,
    /// Division by zero in an economic computation.
    DivisionByZero,
    /// An economic computation produced an invalid result.
    InvalidCalculation,
    /// Referrer has already been set.
    ReferrerAlreadySet,
    /// A profile cannot refer itself.
    CannotReferSelf,
    /// Invalid referrer account.
    InvalidReferrer,
    /// Account already initialized.
    AlreadyInitialized,
    /// Invalid account owner.
    InvalidOwner,
}

} // verus!
