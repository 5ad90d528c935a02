//! Deterministic game-economy engine for an idle mining game.
//!
//! Players acquire procedurally generated heroes, place them on a
//! capacity-constrained house grid or send them to mine, accrue time-based
//! vitality drain and recovery, and convert accumulated mining power into an
//! emitted currency whose issuance rate halves on a supply schedule, net of a
//! burn split and a referral split.
//!
//! All economic arithmetic is carried out on integers (basis points and fixed
//! precision multipliers), every operation either fully commits or fully
//! fails, and the external value ledger is driven purely by amounts that the
//! engine returns to its caller.

pub mod errors;
pub mod state;
pub mod utils;
pub mod ops;
pub mod laws;
