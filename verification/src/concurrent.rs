//! A generator that threads can share.
//!
//! Each handle keeps the epoch and the service id, which never change, and
//! shares the counter with the other handles behind a lock. `gen` holds the
//! lock for one whole call, a stall included, so no two calls ever work from
//! the same stamp.

use vstd::prelude::*;
use std::sync::Arc;
use std::sync::LockResult;
use std::sync::Mutex;
use std::sync::MutexGuard;
use std::sync::PoisonError;
use std::time::SystemTime;
use crate::clock::{is_unix_epoch, timestamp, unix_epoch};
use crate::counter::{Counter, Stamp};
use crate::error::{ConcurrentSnowflakeError, SnowflakeError};
use crate::generator::{issue, issued_by_clock, refused_by_clock};
use crate::layout::{lemma_unpack_pack, millis_of, service_id_of, MAX_2_BITS};
use crate::service::ServiceId;

verus! {

/// `std::sync::Mutex`, a lock around a value. The verifier sees nothing
/// inside a value of it.
#[verifier::external_type_specification]
#[verifier::external_body]
#[verifier::reject_recursive_types(T)]
pub struct ExMutex<T: ?Sized>(Mutex<T>);

/// `std::sync::MutexGuard`, the right to use the value behind a locked
/// `Mutex`; dropping it unlocks. The verifier sees nothing inside a value of
/// it.
#[verifier::external_type_specification]
#[verifier::external_body]
#[verifier::reject_recursive_types(T)]
pub struct ExMutexGuard<'a, T: ?Sized + 'a>(MutexGuard<'a, T>);

/// `std::sync::PoisonError`, the error of `Mutex::lock`. The verifier sees
/// nothing inside a value of it.
#[verifier::external_type_specification]
#[verifier::external_body]
#[verifier::reject_recursive_types(T)]
pub struct ExPoisonError<T>(PoisonError<T>);

/// `Mutex::new` puts a value behind a new, unlocked lock. Nothing is
/// claimed of the lock.
pub assume_specification<T>[ Mutex::<T>::new ](t: T) -> (lock: Mutex<T>)
;

/// `Arc::clone` makes another pointer to the same allocation. Claims that
/// the new pointer points to what the old one points to.
#[verifier::external_body]
fn share(counter: &Arc<Mutex<Counter>>) -> (shared: Arc<Mutex<Counter>>)
    ensures
        shared == *counter,
{
    Arc::clone(counter)
}

/// `Mutex::lock` blocks until the lock is free and takes it; it gives an
/// error when a thread panicked while it held the lock. Nothing is claimed
/// of which it is. `std` may panic or block forever when the calling thread
/// holds the lock already: the one caller, `ConcurrentSnowflake::gen`, gives
/// the guard up before it returns.
#[verifier::external_body]
fn lock(counter: &Mutex<Counter>) -> (locked: LockResult<MutexGuard<'_, Counter>>) {
    counter.lock()
}

/// `DerefMut::deref_mut` on a `MutexGuard` borrows the value behind the
/// lock. Nothing is claimed of the value: it is what the last holder of the
/// lock left there.
#[verifier::external_body]
fn guarded<'a, 'b>(guard: &'a mut MutexGuard<'b, Counter>) -> (counter: &'a mut Counter) {
    std::ops::DerefMut::deref_mut(guard)
}

/// A handle to a generator that threads share. Handles made by `clone`
/// issue identifiers from one counter.
pub struct ConcurrentSnowflake {
    epoch: SystemTime,
    service_id: ServiceId,
    counter: Arc<Mutex<Counter>>,
}

impl ConcurrentSnowflake {
    /// The point in time from which this generator counts milliseconds.
    pub closed spec fn epoch(&self) -> SystemTime {
        self.epoch
    }

    /// The service this generator issues identifiers for.
    pub closed spec fn service_id(&self) -> int {
        self.service_id@
    }

    /// The lock that the handles of this generator share.
    pub closed spec fn shared(&self) -> Mutex<Counter> {
        *self.counter
    }

    /// A shared generator for `service_id` that counts from the Unix epoch.
    pub fn new(service_id: u16) -> (made: Result<Self, SnowflakeError>)
        ensures
            service_id <= MAX_2_BITS <==> made is Ok,
            made matches Err(e) ==> e == SnowflakeError::InvalidServiceIdError,
            made matches Ok(g) ==> g.service_id() == service_id && is_unix_epoch(g.epoch()),
    {
        Self::with_epoch(service_id, unix_epoch())
    }

    /// A shared generator for `service_id` that counts from `epoch`.
    pub fn with_epoch(service_id: u16, epoch: SystemTime) -> (made: Result<Self, SnowflakeError>)
        ensures
            service_id <= MAX_2_BITS <==> made is Ok,
            made matches Err(e) ==> e == SnowflakeError::InvalidServiceIdError,
            made matches Ok(g) ==> g.service_id() == service_id && g.epoch() == epoch,
    {
        match ServiceId::new(service_id) {
            Ok(service_id) => Ok(
                Self { epoch, service_id, counter: Arc::new(Mutex::new(Counter::new())) },
            ),
            Err(e) => Err(e),
        }
    }

    /// Another handle to the same generator.
    pub fn clone(&self) -> (handle: Self)
        ensures
            handle.service_id() == self.service_id(),
            handle.epoch() == self.epoch(),
            handle.shared() == self.shared(),
    {
        Self { epoch: self.epoch, service_id: self.service_id, counter: share(&self.counter) }
    }

    /// Issues the next identifier: takes the lock, issues as a generator of
    /// its own would, a stall included, and gives the lock up. The
    /// identifier's timestamp is no earlier than the clock's reading against
    /// the epoch; an error of the generator is the one that the reading
    /// calls for.
    pub fn gen(&self) -> (r: Result<i64, ConcurrentSnowflakeError>)
        ensures
            r matches Ok(id) ==> {
                &&& 0 <= id
                &&& service_id_of(id as int) == self.service_id()
                &&& exists|now: SystemTime|
                    (#[trigger] timestamp(now, self.epoch())) matches Ok(millis) && millis
                        <= millis_of(id as int)
            },
            r matches Err(ConcurrentSnowflakeError::SnowflakeError(e)) ==> exists|now: SystemTime|
                match (#[trigger] timestamp(now, self.epoch())) {
                    Ok(_) => e == SnowflakeError::TimestampOverflowError,
                    Err(e2) => e == e2,
                },
            r matches Err(e) ==> {
                ||| e == ConcurrentSnowflakeError::PoisonError
                ||| e == ConcurrentSnowflakeError::SnowflakeError(
                    SnowflakeError::ClockBeforeEpochError,
                )
                ||| e == ConcurrentSnowflakeError::SnowflakeError(
                    SnowflakeError::TimestampOverflowError,
                )
            },
    {
        proof {
            use_type_invariant(&self.service_id);
        }
        match lock(&self.counter) {
            Ok(mut guard) => {
                let counter: &mut Counter = guarded(&mut guard);
                let ghost before: Stamp = counter@;
                match issue(counter, self.service_id, &self.epoch) {
                    Ok(id) => {
                        proof {
                            let after: Stamp = counter@;
                            assert(issued_by_clock(before, after, self.epoch));
                            let now = choose|now: SystemTime|
                                (#[trigger] timestamp(now, self.epoch)) matches Ok(millis)
                                    && before.accepts(millis as int) && after == before.tick(
                                    millis as int,
                                );
                            lemma_unpack_pack(after.millis, after.seq, self.service_id@);
                            assert(timestamp(now, self.epoch()) matches Ok(millis) && millis
                                <= millis_of(id as int));
                        }
                        Ok(id)
                    },
                    Err(e) => {
                        proof {
                            assert(refused_by_clock(before, self.epoch, e));
                            let now = choose|now: SystemTime|
                                match (#[trigger] timestamp(now, self.epoch)) {
                                    Ok(millis) => !before.accepts(millis as int) && e
                                        == SnowflakeError::TimestampOverflowError,
                                    Err(e2) => e == e2,
                                };
                            assert(match timestamp(now, self.epoch()) {
                                Ok(_) => e == SnowflakeError::TimestampOverflowError,
                                Err(e2) => e == e2,
                            });
                        }
                        Err(ConcurrentSnowflakeError::SnowflakeError(e))
                    },
                }
            },
            Err(_) => Err(ConcurrentSnowflakeError::PoisonError),
        }
    }
}

} // verus!
