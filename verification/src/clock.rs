//! The wall clock, as far as a generator needs it.
//!
//! The first half tells the verifier which parts of `std::time` the library
//! uses and what it may assume of them; nothing of that half is proved. The
//! second half turns a reading of the clock into a timestamp.

use vstd::prelude::*;
use std::time::Duration;
use std::time::SystemTime;
use std::time::SystemTimeError;
use crate::error::SnowflakeError;
use crate::layout::MAX_44_BITS;

verus! {

/// `std::time::SystemTime`, a point in time as the system clock reports it.
/// The verifier sees nothing inside a value of it.
#[verifier::external_type_specification]
#[verifier::external_body]
pub struct ExSystemTime(SystemTime);

/// `std::time::SystemTimeError`, the error of `SystemTime::duration_since`.
/// The verifier sees nothing inside a value of it.
#[verifier::external_type_specification]
#[verifier::external_body]
pub struct ExSystemTimeError(SystemTimeError);

/// Whether `t` is `std::time::UNIX_EPOCH`, 1970-01-01 00:00:00 UTC.
pub uninterp spec fn is_unix_epoch(t: SystemTime) -> bool;

/// `std::time::UNIX_EPOCH`. Claims only that the value handed back is that
/// constant.
#[verifier::external_body]
pub(crate) fn unix_epoch() -> (t: SystemTime)
    ensures
        is_unix_epoch(t),
{
    std::time::UNIX_EPOCH
}

/// `SystemTime::now` reads the system clock. Nothing is claimed of the
/// reading: two calls may differ, and the later one may be the earlier time.
pub assume_specification[ SystemTime::now ]() -> (now: SystemTime)
;

/// What `SystemTime::duration_since` gives for two points in time: the time
/// from `earlier` to `later`, or an error when `earlier` is the later of the
/// two.
pub uninterp spec fn duration_between(later: SystemTime, earlier: SystemTime) -> Result<
    Duration,
    SystemTimeError,
>;

/// `SystemTime::duration_since` gives the time from `earlier` to `later`, or
/// an error when `earlier` is the later of the two. Claims only that the two
/// points in time decide the result; nothing is claimed of which it is.
pub assume_specification[ SystemTime::duration_since ](
    later: &SystemTime,
    earlier: SystemTime,
) -> (elapsed: Result<Duration, SystemTimeError>)
    ensures
        elapsed == duration_between(*later, earlier),
;

/// What `Duration::as_millis` gives for a duration: its whole milliseconds.
pub uninterp spec fn whole_millis(d: Duration) -> u128;

/// `Duration::as_millis` gives the whole milliseconds in a duration. Claims
/// only that the duration decides the number; nothing is claimed of the
/// number.
pub assume_specification[ Duration::as_millis ](d: &Duration) -> (millis: u128)
    ensures
        millis == whole_millis(*d),
;

/// How often a stalled generator reads the clock before it stops waiting.
pub const STALL_POLLS: u32 = 1_000_000;

/// The timestamp for `elapsed` whole milliseconds since the epoch, where
/// `None` stands for a time before the epoch: the number itself when it fits
/// in 44 bits.
pub open spec fn reading_of(elapsed: Option<u128>) -> Result<i64, SnowflakeError> {
    match elapsed {
        None => Err(SnowflakeError::ClockBeforeEpochError),
        Some(millis) => if millis <= MAX_44_BITS {
            Ok(millis as i64)
        } else {
            Err(SnowflakeError::TimestampOverflowError)
        },
    }
}

/// The timestamp of the point in time `now` for a generator that counts
/// from `epoch`: the whole milliseconds from `epoch` to `now`.
pub open spec fn timestamp(now: SystemTime, epoch: SystemTime) -> Result<i64, SnowflakeError> {
    reading_of(
        match duration_between(now, epoch) {
            Ok(elapsed) => Some(whole_millis(elapsed)),
            Err(_) => None,
        },
    )
}

/// Whether a clock with this reading has left the millisecond `millis`.
pub open spec fn left(reading: Result<i64, SnowflakeError>, millis: int) -> bool {
    match reading {
        Ok(now) => now > millis,
        Err(e) => e == SnowflakeError::TimestampOverflowError,
    }
}

/// What a stall that read the clock at the points in time `seen` did: it
/// read on while the clock stayed in the millisecond `millis`, and stopped
/// at the first reading that had left it, or at reading number
/// `STALL_POLLS`.
pub open spec fn watched(seen: Seq<SystemTime>, epoch: SystemTime, millis: int) -> bool {
    &&& 1 <= seen.len() <= STALL_POLLS
    &&& forall|i: int|
        0 <= i < seen.len() - 1 ==> !left(#[trigger] timestamp(seen[i], epoch), millis)
    &&& seen.len() < STALL_POLLS ==> left(timestamp(seen.last(), epoch), millis)
}

/// The clock's reading as a timestamp: `elapsed` is the whole milliseconds
/// from the epoch to now, or `None` when now is before the epoch.
pub fn clock_reading(elapsed: Option<u128>) -> (reading: Result<i64, SnowflakeError>)
    ensures
        reading == reading_of(elapsed),
{
    match elapsed {
        None => Err(SnowflakeError::ClockBeforeEpochError),
        Some(millis) => {
            if millis <= MAX_44_BITS as u128 {
                Ok(millis as i64)
            } else {
                Err(SnowflakeError::TimestampOverflowError)
            }
        },
    }
}

/// The microseconds left until the clock's next millisecond begins, when
/// the clock stands `subsec_micros` microseconds into the current second:
/// the longest that a stalled generator needs to sleep.
pub fn stall_micros(subsec_micros: u32) -> (wait: u64)
    ensures
        wait == 1000 - subsec_micros % 1000,
        1 <= wait <= 1000,
{
    let into_millisecond: u32 = subsec_micros % 1000;
    (1000 - into_millisecond) as u64
}

/// Whether a clock with this reading has left the millisecond `millis`: it
/// reads a later millisecond, or one too late for any timestamp.
pub fn has_left(reading: Result<i64, SnowflakeError>, millis: i64) -> (gone: bool)
    ensures
        gone == left(reading, millis as int),
{
    match reading {
        Ok(now) => now > millis,
        Err(SnowflakeError::TimestampOverflowError) => true,
        Err(_) => false,
    }
}

/// Reads the clock: the whole milliseconds from `epoch` to now. Which point
/// in time "now" is, the clock decides; the reading is the timestamp of that
/// point.
pub fn get_time(epoch: &SystemTime) -> (reading: Result<i64, SnowflakeError>)
    ensures
        exists|now: SystemTime| reading == #[trigger] timestamp(now, *epoch),
        reading matches Ok(millis) ==> 0 <= millis <= MAX_44_BITS,
        reading matches Err(e) ==> e == SnowflakeError::ClockBeforeEpochError || e
            == SnowflakeError::TimestampOverflowError,
{
    let now: SystemTime = SystemTime::now();
    let reading: Result<i64, SnowflakeError> = match now.duration_since(*epoch) {
        Ok(elapsed) => clock_reading(Some(elapsed.as_millis())),
        Err(_) => clock_reading(None),
    };
    assert(reading == timestamp(now, *epoch));
    reading
}

/// Waits until the clock has left the millisecond `millis` after `epoch`,
/// reading it at most `STALL_POLLS` times. Returns how often it read: every
/// reading but the last found the clock still in that millisecond, and the
/// last found that it had left, unless it was reading number `STALL_POLLS`.
pub fn stall(epoch: &SystemTime, millis: i64) -> (polls: u32)
    ensures
        1 <= polls <= STALL_POLLS,
        exists|seen: Seq<SystemTime>|
            seen.len() == polls && #[trigger] watched(seen, *epoch, millis as int),
{
    let mut polls: u32 = 0;
    let ghost mut seen: Seq<SystemTime> = Seq::empty();
    while polls < STALL_POLLS
        invariant
            polls <= STALL_POLLS,
            seen.len() == polls,
            forall|i: int|
                0 <= i < seen.len() ==> !left(#[trigger] timestamp(seen[i], *epoch), millis as int),
        decreases STALL_POLLS - polls,
    {
        polls = polls + 1;
        let reading: Result<i64, SnowflakeError> = get_time(epoch);
        proof {
            let now = choose|now: SystemTime| reading == #[trigger] timestamp(now, *epoch);
            seen = seen.push(now);
        }
        if has_left(reading, millis) {
            assert(watched(seen, *epoch, millis as int));
            return polls;
        }
    }
    assert(watched(seen, *epoch, millis as int));
    polls
}

} // verus!
