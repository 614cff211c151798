//! Verified core of a live-match spectating gateway: entity classification,
//! per-type field snapshots, the pause-adjusted game clock, per-connection
//! subscription filtering, the streaming event state machine, and the retry
//! and stream-pump decision logic.
pub mod steam;
pub mod entity_type;
pub mod classify;
pub mod fields;
pub mod keys;
pub mod payload;
pub mod clock;
pub mod filter;
pub mod events;
pub mod visitor;
pub mod retry;
pub mod pump;
pub mod query;

pub use events::all_sse_events;
pub use steam::steamid64_to_steamid3;
