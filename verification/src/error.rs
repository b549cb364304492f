//! What can go wrong when a generator is built or asked for an identifier.

use vstd::prelude::*;

verus! {

/// Why a generator could not be built or could not issue an identifier.
#[derive(Clone, Copy, Debug, PartialEq, Eq, Structural)]
pub enum SnowflakeError {
    /// The service id does not fit in 2 bits.
    InvalidServiceIdError,
    /// The clock reads a time before the generator's epoch.
    ClockBeforeEpochError,
    /// The identifier would need a timestamp of more than 44 bits.
    TimestampOverflowError,
}

impl SnowflakeError {
    /// The text of the message for this error.
    pub open spec fn message(self) -> Seq<char> {
        match self {
            SnowflakeError::InvalidServiceIdError => "service id must fit in 2 bits"@,
            SnowflakeError::ClockBeforeEpochError => "system clock is before the epoch"@,
            SnowflakeError::TimestampOverflowError => "timestamp must fit in 44 bits"@,
        }
    }

    /// A message for the person who reads the error.
    pub fn to_string(&self) -> (text: String)
        ensures
            text@ == self.message(),
    {
        match self {
            SnowflakeError::InvalidServiceIdError => "service id must fit in 2 bits".to_owned(),
            SnowflakeError::ClockBeforeEpochError => "system clock is before the epoch".to_owned(),
            SnowflakeError::TimestampOverflowError => "timestamp must fit in 44 bits".to_owned(),
        }
    }
}

/// Why a shared generator could not issue an identifier.
#[derive(Clone, Copy, Debug, PartialEq, Eq, Structural)]
pub enum ConcurrentSnowflakeError {
    /// A thread panicked while it held the lock, so the shared state can
    /// no longer be trusted.
    PoisonError,
    /// The generator behind the lock failed.
    SnowflakeError(SnowflakeError),
}

impl ConcurrentSnowflakeError {
    /// The text of the message for this error.
    pub open spec fn message(self) -> Seq<char> {
        match self {
            ConcurrentSnowflakeError::PoisonError =>
                "lock was poisoned during a previous access and can no longer be locked"@,
            ConcurrentSnowflakeError::SnowflakeError(e) => e.message(),
        }
    }

    /// A message for the person who reads the error.
    pub fn to_string(&self) -> (text: String)
        ensures
            text@ == self.message(),
    {
        match self {
            ConcurrentSnowflakeError::PoisonError =>
                "lock was poisoned during a previous access and can no longer be locked".to_owned(),
            ConcurrentSnowflakeError::SnowflakeError(e) => e.to_string(),
        }
    }

    /// The generator's error that this one wraps, if it wraps one.
    pub fn source(&self) -> (cause: Option<SnowflakeError>)
        ensures
            cause == match *self {
                ConcurrentSnowflakeError::PoisonError => None::<SnowflakeError>,
                ConcurrentSnowflakeError::SnowflakeError(e) => Some(e),
            },
    {
        match self {
            ConcurrentSnowflakeError::SnowflakeError(e) => Some(*e),
            _ => None,
        }
    }
}

} // verus!
