//! Faction-based competitive game economy: players hold capital in a yield
//! vault, earn faction points from balance and holding time, wager those
//! points in two-player sessions, and the winning faction of each epoch
//! shares the harvested yield.
//!
//! The contract runtime (storage, authorization, ledger time, calls into the
//! vault and the swap venue) stays outside this crate; every decision it makes
//! is a verified function here over plain values.

pub mod errors;
pub mod fixed_point;
pub mod types;
pub mod faction_points;
pub mod blendizzard;
pub mod number_guess;
pub mod guarantees;
pub mod vault;
