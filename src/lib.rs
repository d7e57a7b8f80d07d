//! Client-side pieces for a bot-statistics service: the snapshot of a bot's
//! server count, the shared holder that signals each change, the adapters that
//! turn gateway membership events into counts, and the decision logic of the
//! background task that posts the count on a fixed cadence.
pub mod adapters;
pub mod api;
pub mod autoposter;
pub mod bot;
pub mod client;
pub mod error;
pub mod membership;
pub mod shared_stats;
pub mod snowflake;
pub mod stats;
pub mod text;

pub use adapters::{Serenity, Twilight};
pub use autoposter::Handler;
pub use bot::GetBots;
pub use client::{AsClient, Client, InnerClient};
pub use error::{Error, Result};
pub use shared_stats::{SharedStats, SharedStatsGuard};
pub use snowflake::SnowflakeLike;
pub use stats::Stats;
