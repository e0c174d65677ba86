//! Monte-Carlo estimate of how many draws a tiered, pity-driven reward pool
//! needs before a collection goal is met.
//!
//! - `banner`: the draw-rate configuration, its validation and its pity curves.
//! - `goal`: presets and custom goals, their expansion and availability.
//! - `progress`: the per-trial record of what a goal still needs.
//! - `sim`: the trial engine, which runs draws until the goal is met.
//! - `table`: the five-way outcome distribution of a draw.
//! - `link`: the compact form of banners and goals that shareable links carry.
//! - `laws`: properties that relate several of these operations.

pub mod banner;
pub mod goal;
pub mod item;
pub mod laws;
pub mod link;
pub mod progress;
mod rng;
pub mod sim;
pub mod table;

pub use banner::{Banner, ConfigError, PityModel};
pub use goal::{CustomGoal, Goal, GoalKind, GoalPart, GoalPreset};
pub use item::{ItemType, Pool};
pub use progress::GoalData;
pub use sim::{focus_target, pick_pool, PityState, Sim, MAX_DRAWS_PER_TRIAL};
pub use table::OutcomeTable;
