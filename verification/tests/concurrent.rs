use snowflake::layout::decode;
use snowflake::{ConcurrentSnowflake, ConcurrentSnowflakeError, SnowflakeError};
use std::time::{Duration, SystemTime, UNIX_EPOCH};

const NUM_IDS: u64 = 1_000_000;

#[test]
fn four_handles_create_unique_positive_ids() {
    let snowflake = ConcurrentSnowflake::new(0).unwrap();
    let handles = [snowflake.clone(), snowflake.clone(), snowflake.clone(), snowflake.clone()];

    let mut ids: Vec<i64> = Vec::new();
    for _ in 0..NUM_IDS {
        for handle in handles.iter() {
            ids.push(handle.gen().unwrap());
        }
    }

    ids.sort();
    ids.dedup();
    ids = ids.into_iter().filter(|id| *id > 0).collect();
    assert_eq!(ids.len(), (NUM_IDS * 4) as usize);
}

#[test]
fn concurrent_new_accepts_every_two_bit_service_id() {
    for service_id in 0..=3u16 {
        assert!(ConcurrentSnowflake::new(service_id).is_ok());
        assert!(ConcurrentSnowflake::with_epoch(service_id, UNIX_EPOCH).is_ok());
    }
}

#[test]
fn concurrent_new_rejects_a_service_id_of_four() {
    assert!(matches!(ConcurrentSnowflake::new(4), Err(SnowflakeError::InvalidServiceIdError)));
    assert!(matches!(
        ConcurrentSnowflake::with_epoch(4, UNIX_EPOCH),
        Err(SnowflakeError::InvalidServiceIdError)
    ));
    assert!(matches!(
        ConcurrentSnowflake::new(u16::MAX),
        Err(SnowflakeError::InvalidServiceIdError)
    ));
}

#[test]
fn concurrent_ids_carry_the_service_id() {
    for service_id in 0..=3u16 {
        let snowflake = ConcurrentSnowflake::new(service_id).unwrap();
        let handle = snowflake.clone();
        for _ in 0..1_000 {
            assert_eq!(decode(snowflake.gen().unwrap()).service_id, service_id);
            assert_eq!(decode(handle.gen().unwrap()).service_id, service_id);
        }
    }
}

#[test]
fn concurrent_handles_count_on_one_counter() {
    let first = ConcurrentSnowflake::new(2).unwrap();
    let second = first.clone();
    let third = second.clone();
    let mut last: i64 = -1;
    for _ in 0..30_000 {
        for handle in [&first, &second, &third] {
            let id = handle.gen().unwrap();
            assert!(id > last);
            last = id;
        }
    }
}

#[test]
fn concurrent_gen_counts_from_the_unix_epoch_by_default() {
    let before = SystemTime::now().duration_since(UNIX_EPOCH).unwrap().as_millis() as i64;
    let snowflake = ConcurrentSnowflake::new(1).unwrap();
    let id = snowflake.gen().unwrap();
    let after = SystemTime::now().duration_since(UNIX_EPOCH).unwrap().as_millis() as i64;
    assert!(before <= decode(id).millis);
    assert!(decode(id).millis <= after);
}

#[test]
fn concurrent_gen_wraps_a_clock_before_the_epoch() {
    let epoch = SystemTime::now() + Duration::from_secs(3_600);
    let snowflake = ConcurrentSnowflake::with_epoch(1, epoch).unwrap();
    assert_eq!(
        snowflake.gen(),
        Err(ConcurrentSnowflakeError::SnowflakeError(SnowflakeError::ClockBeforeEpochError))
    );
    assert_eq!(
        snowflake.clone().gen(),
        Err(ConcurrentSnowflakeError::SnowflakeError(SnowflakeError::ClockBeforeEpochError))
    );
}

#[test]
fn concurrent_gen_wraps_a_timestamp_overflow() {
    let six_hundred_years = Duration::from_secs(600 * 365 * 24 * 3_600);
    let epoch = UNIX_EPOCH.checked_sub(six_hundred_years).unwrap();
    let snowflake = ConcurrentSnowflake::with_epoch(1, epoch).unwrap();
    assert_eq!(
        snowflake.gen(),
        Err(ConcurrentSnowflakeError::SnowflakeError(SnowflakeError::TimestampOverflowError))
    );
}
