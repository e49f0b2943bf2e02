//! Order-execution logic for an agent that trades perpetual futures:
//! retry with exponential backoff, order building and unit scaling,
//! time-sliced and volume-weighted execution, trailing stops, position
//! filtering and closing, and the per-process trackers of strategy runs.
pub mod error;
pub mod order;
pub mod positions;
pub mod retry;
mod runid;
pub mod tracker;
pub mod trailing;
pub mod transfer;
pub mod twap;
pub mod vault;
pub mod vwap;
