//! The moving part of a generator: the timestamp and sequence number of the
//! identifier issued last.
//!
//! Every identifier issued moves the pair strictly forward, whatever the
//! clock reads. When the clock reads a time at or before the timestamp in
//! use, the counter stays at that timestamp and goes on counting. When the
//! sequence numbers of that timestamp are used up, it moves to the next
//! millisecond on its own.

use vstd::prelude::*;
use crate::error::SnowflakeError;
use crate::layout::{pack, MAX_17_BITS, MAX_2_BITS, MAX_44_BITS};

verus! {

/// A timestamp and a sequence number within it: what an identifier carries
/// besides its service id.
pub struct Stamp {
    /// Milliseconds since the epoch.
    pub millis: int,
    /// Sequence number within that millisecond.
    pub seq: int,
}

impl Stamp {
    /// Both numbers fit their fields of an identifier.
    pub open spec fn wf(self) -> bool {
        &&& 0 <= self.millis <= MAX_44_BITS
        &&& 0 <= self.seq <= MAX_17_BITS
    }

    /// Where a generator stands before it has issued anything.
    pub open spec fn zero() -> Stamp {
        Stamp { millis: 0, seq: 0 }
    }

    /// The identifier that carries this stamp for `service_id`.
    pub open spec fn id(self, service_id: int) -> int {
        pack(self.millis, self.seq, service_id)
    }

    /// `self` comes before `later`: an earlier timestamp, or the same
    /// timestamp and a smaller sequence number.
    pub open spec fn precedes(self, later: Stamp) -> bool {
        self.millis < later.millis || (self.millis == later.millis && self.seq < later.seq)
    }

    /// The sequence numbers of this timestamp are used up and the clock,
    /// which reads `millis`, has not moved past it.
    pub open spec fn stalls(self, millis: int) -> bool {
        millis <= self.millis && self.seq == MAX_17_BITS
    }

    /// The stamp of the next identifier when the clock reads `millis`: a new
    /// millisecond starts at sequence number 1, a used-up one rolls over to
    /// sequence number 0 of the millisecond after it, and otherwise the
    /// sequence number goes up by one.
    pub open spec fn tick(self, millis: int) -> Stamp {
        if millis > self.millis {
            Stamp { millis, seq: 1 }
        } else if self.seq == MAX_17_BITS {
            Stamp { millis: self.millis + 1, seq: 0 }
        } else {
            Stamp { millis: self.millis, seq: self.seq + 1 }
        }
    }

    /// An identifier can be issued while the clock reads `millis`: the clock
    /// is not before the epoch and the next timestamp fits in 44 bits.
    pub open spec fn accepts(self, millis: int) -> bool {
        0 <= millis && self.tick(millis).millis <= MAX_44_BITS
    }

    /// Where a generator stands after one call made while the clock reads
    /// `millis`: a call that cannot be served leaves it where it was.
    pub open spec fn serve(self, millis: int) -> Stamp {
        if self.accepts(millis) {
            self.tick(millis)
        } else {
            self
        }
    }
}

/// Every identifier issued moves the stamp forward: the next stamp fits its
/// fields, comes after the one before it, and gives the larger identifier.
pub proof fn lemma_tick_moves_forward(stamp: Stamp, millis: int, service_id: int)
    requires
        stamp.wf(),
        stamp.accepts(millis),
        0 <= service_id <= MAX_2_BITS,
    ensures
        stamp.tick(millis).wf(),
        stamp.precedes(stamp.tick(millis)),
        stamp.id(service_id) < stamp.tick(millis).id(service_id),
        stamp.tick(millis).millis >= millis,
{
}

/// The timestamp and sequence number of the identifier issued last.
#[derive(Debug)]
pub struct Counter {
    last_millis: i64,
    seq: u32,
}

impl View for Counter {
    type V = Stamp;

    closed spec fn view(&self) -> Stamp {
        Stamp { millis: self.last_millis as int, seq: self.seq as int }
    }
}

impl Counter {
    #[verifier::type_invariant]
    pub open spec fn valid(self) -> bool {
        self@.wf()
    }

    /// A counter that has counted nothing.
    pub fn new() -> (counter: Counter)
        ensures
            counter@ == Stamp::zero(),
    {
        Counter { last_millis: 0, seq: 0 }
    }

    /// The timestamp in use.
    pub fn last_millis(&self) -> (millis: i64)
        ensures
            millis == self@.millis,
            self@.wf(),
    {
        proof {
            use_type_invariant(self);
        }
        self.last_millis
    }

    /// The sequence number in use.
    pub fn seq(&self) -> (seq: u32)
        ensures
            seq == self@.seq,
            self@.wf(),
    {
        proof {
            use_type_invariant(self);
        }
        self.seq
    }

    /// Moves to the stamp of the next identifier for a clock that reads
    /// `millis`, and tells whether the counter had to move past the clock.
    pub fn advance(&mut self, millis: i64) -> (stalled: Result<bool, SnowflakeError>)
        ensures
            final(self)@.wf(),
            final(self)@ == old(self)@.serve(millis as int),
            stalled is Ok <==> old(self)@.accepts(millis as int),
            stalled matches Ok(past_clock) ==> {
                &&& past_clock == old(self)@.stalls(millis as int)
                &&& old(self)@.precedes(final(self)@)
            },
            stalled matches Err(e) ==> e == if millis < 0 {
                SnowflakeError::ClockBeforeEpochError
            } else {
                SnowflakeError::TimestampOverflowError
            },
    {
        proof {
            use_type_invariant(&*self);
        }
        if millis < 0 {
            return Err(SnowflakeError::ClockBeforeEpochError);
        }
        let mut stalled: bool = false;
        if millis > self.last_millis {
            if millis > MAX_44_BITS {
                return Err(SnowflakeError::TimestampOverflowError);
            }
            self.last_millis = millis;
            self.seq = 0;
        } else if self.seq == MAX_17_BITS {
            if self.last_millis == MAX_44_BITS {
                return Err(SnowflakeError::TimestampOverflowError);
            }
            self.last_millis = self.last_millis + 1;
            stalled = true;
        }
        self.next_seq();
        Ok(stalled)
    }

    /// Moves to the next sequence number, from the largest back to zero.
    fn next_seq(&mut self) -> (seq: u32)
        ensures
            final(self)@.millis == old(self)@.millis,
            final(self)@.seq == (old(self)@.seq + 1) % (MAX_17_BITS + 1),
            seq == final(self)@.seq,
    {
        proof {
            use_type_invariant(&*self);
        }
        self.seq = (self.seq + 1) % (MAX_17_BITS + 1);
        self.seq
    }
}

} // verus!
