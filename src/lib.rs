//! Snowflake-style unique id generation.
//!
//! An id packs, from the most significant bits down: the milliseconds since
//! [`layout::EPOCH`], the data center id, the worker id and a per-millisecond
//! sequence number. A generator issues strictly increasing ids and never
//! reuses a (timestamp, sequence) pair.
pub mod error;
pub mod layout;
pub mod state;
mod clock;
pub mod worker;
