//! Compact, time-ordered 64-bit identifiers for a handful of services.
//!
//! An identifier packs the milliseconds elapsed since an epoch, a
//! per-millisecond sequence number and the issuing service into one
//! non-negative `i64`. A `Snowflake` issues them for one service; a
//! `ConcurrentSnowflake` does so for the threads that share it.

pub mod clock;
pub mod concurrent;
pub mod counter;
pub mod error;
pub mod generator;
pub mod history;
pub mod layout;
pub mod service;

pub use crate::concurrent::ConcurrentSnowflake;
pub use crate::error::{ConcurrentSnowflakeError, SnowflakeError};
pub use crate::generator::{Issued, Snowflake};
pub use crate::layout::{decode, encode, IdParts};
