//! The generator: an epoch, a service id and a counter.
//!
//! `gen` reads the clock and issues the next identifier. An identifier is
//! always larger than the one before it, so one generator never issues the
//! same identifier twice, even when the clock stands still or runs
//! backwards. When the sequence numbers of a millisecond are used up, the
//! identifier carries the millisecond after it and the generator waits for
//! the clock to leave the millisecond it read.

use vstd::prelude::*;
use std::time::SystemTime;
use crate::clock::{get_time, is_unix_epoch, stall, timestamp, unix_epoch, watched};
use crate::counter::{Counter, Stamp};
use crate::error::SnowflakeError;
use crate::layout::{encode, service_id_of, MAX_2_BITS};
use crate::service::ServiceId;

verus! {

/// An identifier, and whether the generator had to move past the clock to
/// issue it.
#[derive(Clone, Copy, Debug, PartialEq, Eq, Structural)]
pub struct Issued {
    /// The identifier.
    pub id: i64,
    /// The sequence numbers of the millisecond in use were used up, so the
    /// identifier carries the millisecond after it: the caller should wait
    /// for the clock to leave the millisecond that it read.
    pub stalled: bool,
}

/// A call by the clock that issued: at some point in time the clock read a
/// timestamp against `epoch` that the counter accepted, the counter moved
/// from `before` to `after` by that reading, and where the sequence numbers
/// were used up the call watched the clock leave the millisecond it had
/// read.
pub open spec fn issued_by_clock(before: Stamp, after: Stamp, epoch: SystemTime) -> bool {
    exists|now: SystemTime|
        (#[trigger] timestamp(now, epoch)) matches Ok(millis) && before.accepts(millis as int)
            && after == before.tick(millis as int) && (before.stalls(millis as int)
            ==> exists|seen: Seq<SystemTime>| #[trigger] watched(seen, epoch, millis as int))
}

/// A call by the clock that failed with `e`: at some point in time the
/// clock gave no timestamp against `epoch` and `e` says why, or it gave one
/// that the counter at `before` could not accept and `e` is the overflow.
pub open spec fn refused_by_clock(before: Stamp, epoch: SystemTime, e: SnowflakeError) -> bool {
    exists|now: SystemTime|
        match (#[trigger] timestamp(now, epoch)) {
            Ok(millis) => !before.accepts(millis as int) && e
                == SnowflakeError::TimestampOverflowError,
            Err(e2) => e == e2,
        }
}

/// Issues the next identifier of `service_id` from `counter` for a clock
/// that reads `millis`. The clock is not read and nothing waits.
pub fn issue_at(counter: &mut Counter, service_id: ServiceId, millis: i64) -> (r: Result<
    Issued,
    SnowflakeError,
>)
    ensures
        final(counter)@.wf(),
        final(counter)@ == old(counter)@.serve(millis as int),
        r is Ok <==> old(counter)@.accepts(millis as int),
        r matches Ok(issued) ==> {
            &&& 0 <= issued.id == final(counter)@.id(service_id@)
            &&& issued.stalled == old(counter)@.stalls(millis as int)
            &&& old(counter)@.id(service_id@) < issued.id
            &&& service_id_of(issued.id as int) == service_id@
        },
        r matches Err(e) ==> e == if millis < 0 {
            SnowflakeError::ClockBeforeEpochError
        } else {
            SnowflakeError::TimestampOverflowError
        },
{
    proof {
        use_type_invariant(&*counter);
    }
    match counter.advance(millis) {
        Ok(stalled) => {
            let id: i64 = encode(counter.last_millis(), counter.seq(), service_id.get());
            Ok(Issued { id, stalled })
        },
        Err(e) => Err(e),
    }
}

/// Issues the next identifier of `service_id` from `counter`, by the clock:
/// reads the clock against `epoch` and issues for that reading. When the
/// sequence numbers of the millisecond in use are used up, returns once the
/// clock has left the millisecond it read, or after `STALL_POLLS` readings.
pub fn issue(counter: &mut Counter, service_id: ServiceId, epoch: &SystemTime) -> (r: Result<
    i64,
    SnowflakeError,
>)
    ensures
        final(counter)@.wf(),
        r matches Ok(id) ==> {
            &&& issued_by_clock(old(counter)@, final(counter)@, *epoch)
            &&& 0 <= id == final(counter)@.id(service_id@)
            &&& old(counter)@.id(service_id@) < id
            &&& service_id_of(id as int) == service_id@
        },
        r matches Err(e) ==> {
            &&& refused_by_clock(old(counter)@, *epoch, e)
            &&& final(counter)@ == old(counter)@
            &&& e == SnowflakeError::ClockBeforeEpochError || e
                == SnowflakeError::TimestampOverflowError
        },
{
    proof {
        use_type_invariant(&*counter);
    }
    let reading: Result<i64, SnowflakeError> = get_time(epoch);
    let ghost now = choose|now: SystemTime| reading == #[trigger] timestamp(now, *epoch);
    let millis: i64 = match reading {
        Ok(millis) => millis,
        Err(e) => {
            assert(timestamp(now, *epoch) == reading);
            return Err(e);
        },
    };
    match issue_at(counter, service_id, millis) {
        Ok(issued) => {
            if issued.stalled {
                stall(epoch, millis);
            }
            assert(timestamp(now, *epoch) == reading);
            Ok(issued.id)
        },
        Err(e) => {
            assert(timestamp(now, *epoch) == reading);
            Err(e)
        },
    }
}

/// A generator of identifiers for one service.
#[derive(Debug)]
pub struct Snowflake {
    epoch: SystemTime,
    service_id: ServiceId,
    counter: Counter,
}

impl Snowflake {
    /// The point in time from which this generator counts milliseconds.
    pub closed spec fn epoch(&self) -> SystemTime {
        self.epoch
    }

    /// The service this generator issues identifiers for.
    pub closed spec fn service_id(&self) -> int {
        self.service_id@
    }

    /// The timestamp and sequence number of the identifier issued last.
    pub closed spec fn stamp(&self) -> Stamp {
        self.counter@
    }

    /// The identifier that carries the generator's stamp: the identifier
    /// issued last, once one has been issued.
    pub open spec fn last_id(&self) -> int {
        self.stamp().id(self.service_id())
    }

    /// A generator for `service_id` that counts from the Unix epoch.
    pub fn new(service_id: u16) -> (made: Result<Self, SnowflakeError>)
        ensures
            service_id <= MAX_2_BITS <==> made is Ok,
            made matches Err(e) ==> e == SnowflakeError::InvalidServiceIdError,
            made matches Ok(g) ==> {
                &&& g.service_id() == service_id
                &&& g.stamp() == Stamp::zero()
                &&& is_unix_epoch(g.epoch())
            },
    {
        Self::with_epoch(service_id, unix_epoch())
    }

    /// A generator for `service_id` that counts from `epoch`.
    pub fn with_epoch(service_id: u16, epoch: SystemTime) -> (made: Result<Self, SnowflakeError>)
        ensures
            service_id <= MAX_2_BITS <==> made is Ok,
            made matches Err(e) ==> e == SnowflakeError::InvalidServiceIdError,
            made matches Ok(g) ==> {
                &&& g.service_id() == service_id
                &&& g.stamp() == Stamp::zero()
                &&& g.epoch() == epoch
            },
    {
        match ServiceId::new(service_id) {
            Ok(service_id) => Ok(Self { epoch, service_id, counter: Counter::new() }),
            Err(e) => Err(e),
        }
    }

    /// Issues the next identifier for a clock that reads `millis`
    /// milliseconds since the epoch. The clock is not read and nothing
    /// waits: `stalled` tells the caller to.
    pub fn gen_at(&mut self, millis: i64) -> (r: Result<Issued, SnowflakeError>)
        ensures
            final(self).epoch() == old(self).epoch(),
            final(self).service_id() == old(self).service_id(),
            0 <= final(self).service_id() <= MAX_2_BITS,
            final(self).stamp().wf(),
            final(self).stamp() == old(self).stamp().serve(millis as int),
            r is Ok <==> old(self).stamp().accepts(millis as int),
            r matches Ok(issued) ==> {
                &&& 0 <= issued.id == final(self).last_id()
                &&& issued.stalled == old(self).stamp().stalls(millis as int)
                &&& old(self).last_id() < issued.id
                &&& service_id_of(issued.id as int) == final(self).service_id()
            },
            r matches Err(e) ==> e == if millis < 0 {
                SnowflakeError::ClockBeforeEpochError
            } else {
                SnowflakeError::TimestampOverflowError
            },
    {
        proof {
            use_type_invariant(&self.service_id);
        }
        issue_at(&mut self.counter, self.service_id, millis)
    }

    /// Issues the next identifier, by the clock: reads the clock against the
    /// generator's epoch and issues for that reading. When the sequence
    /// numbers of the millisecond in use are used up, the identifier carries
    /// the millisecond after it and the call returns once the clock has left
    /// the millisecond it read, or after `STALL_POLLS` readings.
    pub fn gen(&mut self) -> (r: Result<i64, SnowflakeError>)
        ensures
            final(self).epoch() == old(self).epoch(),
            final(self).service_id() == old(self).service_id(),
            0 <= final(self).service_id() <= MAX_2_BITS,
            final(self).stamp().wf(),
            r matches Ok(id) ==> {
                &&& issued_by_clock(old(self).stamp(), final(self).stamp(), old(self).epoch())
                &&& 0 <= id == final(self).last_id()
                &&& old(self).last_id() < id
                &&& service_id_of(id as int) == final(self).service_id()
            },
            r matches Err(e) ==> {
                &&& refused_by_clock(old(self).stamp(), old(self).epoch(), e)
                &&& final(self).stamp() == old(self).stamp()
                &&& e == SnowflakeError::ClockBeforeEpochError || e
                    == SnowflakeError::TimestampOverflowError
            },
    {
        proof {
            use_type_invariant(&self.service_id);
        }
        issue(&mut self.counter, self.service_id, &self.epoch)
    }
}

} // verus!
