//! Snowflake-style 64-bit identifier generation.
//!
//! A [`generator::SnowFlakeId`] packs a millisecond timestamp, a datacenter
//! identifier, a worker identifier and a per-millisecond sequence counter into
//! one signed 64-bit integer, so that many generators can hand out unique,
//! increasing identifiers without coordinating with one another.

pub mod generator;
pub mod layout;

pub use generator::SnowFlakeId;
pub use generator::SnowFlakeError;
pub use layout::decompose_id;
pub use layout::DATACENTER_ID_SHIFT;
pub use layout::MAX_DATACENTER_ID;
pub use layout::MAX_WORKER_ID;
pub use layout::SEQUENCE_MASK;
pub use layout::TIMESTAMP_LEFT_SHIFT;
pub use layout::TIMESTAMP_LIMIT;
pub use layout::TWEPOCH;
pub use layout::WORKER_ID_SHIFT;
