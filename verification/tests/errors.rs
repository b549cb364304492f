use snowflake::{ConcurrentSnowflakeError, SnowflakeError};

#[test]
fn snowflake_error_messages() {
    assert_eq!(
        SnowflakeError::InvalidServiceIdError.to_string(),
        "service id must fit in 2 bits"
    );
    assert_eq!(
        SnowflakeError::ClockBeforeEpochError.to_string(),
        "system clock is before the epoch"
    );
    assert_eq!(
        SnowflakeError::TimestampOverflowError.to_string(),
        "timestamp must fit in 44 bits"
    );
}

#[test]
fn concurrent_error_messages() {
    assert_eq!(
        ConcurrentSnowflakeError::PoisonError.to_string(),
        "lock was poisoned during a previous access and can no longer be locked"
    );
    assert_eq!(
        ConcurrentSnowflakeError::SnowflakeError(SnowflakeError::InvalidServiceIdError)
            .to_string(),
        "service id must fit in 2 bits"
    );
    assert_eq!(
        ConcurrentSnowflakeError::SnowflakeError(SnowflakeError::ClockBeforeEpochError)
            .to_string(),
        "system clock is before the epoch"
    );
}

#[test]
fn concurrent_error_source() {
    assert_eq!(ConcurrentSnowflakeError::PoisonError.source(), None);
    assert_eq!(
        ConcurrentSnowflakeError::SnowflakeError(SnowflakeError::InvalidServiceIdError).source(),
        Some(SnowflakeError::InvalidServiceIdError)
    );
    assert_eq!(
        ConcurrentSnowflakeError::SnowflakeError(SnowflakeError::TimestampOverflowError).source(),
        Some(SnowflakeError::TimestampOverflowError)
    );
}

#[test]
fn poison_error_is_not_a_snowflake_error() {
    assert_ne!(
        ConcurrentSnowflakeError::PoisonError,
        ConcurrentSnowflakeError::SnowflakeError(SnowflakeError::InvalidServiceIdError)
    );
}
