//! What holds of every run of a generator.
//!
//! A run is the list of clock readings that the calls to a generator saw, in
//! the order of the calls. The clock is free to stand still, to jump, and to
//! go backwards; a reading that cannot be served leaves the generator where
//! it was and yields no identifier.

use vstd::prelude::*;
use crate::counter::Stamp;
use crate::layout::{
    lemma_pack_ordered,
    lemma_unpack_pack,
    millis_of,
    pack,
    seq_of,
    service_id_of,
    MAX_17_BITS,
    MAX_2_BITS,
    MAX_44_BITS,
};

verus! {

/// Where a generator that started at `start` stands after the calls that
/// read `readings` off the clock.
pub open spec fn after(start: Stamp, readings: Seq<int>) -> Stamp
    decreases readings.len(),
{
    if readings.len() == 0 {
        start
    } else {
        after(start, readings.drop_last()).serve(readings.last())
    }
}

/// The identifier that call number `i` of the run returns, if it returns
/// one.
pub open spec fn issued(start: Stamp, service_id: int, readings: Seq<int>, i: int) -> Option<int> {
    let before = after(start, readings.take(i));
    if before.accepts(readings[i]) {
        Some(before.tick(readings[i]).id(service_id))
    } else {
        None
    }
}

/// One call more: the stamp after the first `n` calls is the stamp after
/// the first `n - 1`, served the reading of call `n - 1`.
pub proof fn lemma_after_step(start: Stamp, readings: Seq<int>, n: int)
    requires
        0 < n <= readings.len(),
    ensures
        after(start, readings.take(n)) == after(start, readings.take(n - 1)).serve(readings[n - 1]),
{
    assert(readings.take(n).drop_last() =~= readings.take(n - 1));
}

/// A generator stays well-formed through every run.
pub proof fn lemma_after_wf(start: Stamp, readings: Seq<int>)
    requires
        start.wf(),
    ensures
        after(start, readings).wf(),
    decreases readings.len(),
{
    if readings.len() > 0 {
        lemma_after_wf(start, readings.drop_last());
    }
}

/// A generator never goes back: between any two points of a run it has
/// either not moved or moved forward.
pub proof fn lemma_never_back(start: Stamp, readings: Seq<int>, i: int, j: int)
    requires
        start.wf(),
        0 <= i <= j <= readings.len(),
    ensures
        after(start, readings.take(i)) == after(start, readings.take(j)) || after(
            start,
            readings.take(i),
        ).precedes(after(start, readings.take(j))),
    decreases j - i,
{
    if i < j {
        lemma_never_back(start, readings, i, j - 1);
        lemma_after_step(start, readings, j);
        lemma_after_wf(start, readings.take(j - 1));
    }
}

/// Every identifier that a run yields is a non-negative `i64` whose fields
/// are the generator's service id and the stamp that the call moved to.
pub proof fn lemma_issued_fields(
    start: Stamp,
    service_id: int,
    readings: Seq<int>,
    i: int,
    id: int,
)
    requires
        start.wf(),
        0 <= service_id <= MAX_2_BITS,
        0 <= i < readings.len(),
        issued(start, service_id, readings, i) == Some(id),
    ensures
        0 <= id <= i64::MAX,
        service_id_of(id) == service_id,
        millis_of(id) == after(start, readings.take(i + 1)).millis,
        seq_of(id) == after(start, readings.take(i + 1)).seq,
        id == after(start, readings.take(i + 1)).id(service_id),
{
    lemma_after_step(start, readings, i + 1);
    lemma_after_wf(start, readings.take(i + 1));
    let now = after(start, readings.take(i + 1));
    lemma_unpack_pack(now.millis, now.seq, service_id);
}

/// Of two identifiers that one generator issues, the later is the larger:
/// no run yields the same identifier twice, whatever the clock does.
pub proof fn lemma_ids_increase(
    start: Stamp,
    service_id: int,
    readings: Seq<int>,
    i: int,
    j: int,
    earlier: int,
    later: int,
)
    requires
        start.wf(),
        0 <= service_id <= MAX_2_BITS,
        0 <= i < j < readings.len(),
        issued(start, service_id, readings, i) == Some(earlier),
        issued(start, service_id, readings, j) == Some(later),
    ensures
        earlier < later,
{
    lemma_issued_fields(start, service_id, readings, i, earlier);
    lemma_issued_fields(start, service_id, readings, j, later);
    lemma_never_back(start, readings, i + 1, j);
    lemma_after_step(start, readings, j + 1);
    lemma_after_wf(start, readings.take(i + 1));
    lemma_after_wf(start, readings.take(j));
    lemma_after_wf(start, readings.take(j + 1));
    let a = after(start, readings.take(i + 1));
    let b = after(start, readings.take(j + 1));
    lemma_pack_ordered(a.millis, a.seq, b.millis, b.seq, service_id);
}

/// While the clock stays in one millisecond and the sequence numbers are
/// not used up, the identifiers carry one timestamp and sequence numbers
/// that go up: if the calls from number `i` to number `j` all read the same
/// millisecond and none after number `i` stalls, the two identifiers have
/// the same timestamp and the later one the larger sequence number.
pub proof fn lemma_same_millisecond(
    start: Stamp,
    service_id: int,
    readings: Seq<int>,
    i: int,
    j: int,
    earlier: int,
    later: int,
)
    requires
        start.wf(),
        0 <= service_id <= MAX_2_BITS,
        0 <= i < j < readings.len(),
        forall|k: int| i < k <= j ==> readings[k] == readings[i],
        forall|k: int|
            i < k <= j ==> !(#[trigger] after(start, readings.take(k))).stalls(readings[k]),
        issued(start, service_id, readings, i) == Some(earlier),
        issued(start, service_id, readings, j) == Some(later),
    ensures
        millis_of(earlier) == millis_of(later),
        seq_of(earlier) < seq_of(later),
    decreases j - i,
{
    lemma_issued_fields(start, service_id, readings, i, earlier);
    lemma_issued_fields(start, service_id, readings, j, later);
    lemma_after_step(start, readings, i + 1);
    lemma_after_step(start, readings, j + 1);
    lemma_after_wf(start, readings.take(i));
    lemma_after_wf(start, readings.take(j));
    let reached = after(start, readings.take(j));
    assert(!reached.stalls(readings[j]));
    if i + 1 < j {
        let between = after(start, readings.take(j - 1));
        lemma_after_wf(start, readings.take(j - 1));
        lemma_after_step(start, readings, j);
        lemma_after_step(start, readings, j - 1);
        assert(!between.stalls(readings[j - 1]));
        assert(readings[j - 1] == readings[i]);
        assert(between.accepts(readings[j - 1])) by {
            lemma_never_back(start, readings, i + 1, j - 1);
        }
        let middle = between.tick(readings[j - 1]).id(service_id);
        assert(issued(start, service_id, readings, j - 1) == Some(middle));
        lemma_same_millisecond(start, service_id, readings, i, j - 1, earlier, middle);
        lemma_issued_fields(start, service_id, readings, j - 1, middle);
    }
}

/// While the clock stands still in millisecond `millis`, a new generator
/// counts its calls: after `n` of them, up to the largest sequence number,
/// it stands at sequence number `n` of that millisecond.
pub proof fn lemma_still_clock_counts(millis: int, readings: Seq<int>, n: int)
    requires
        0 <= millis <= MAX_44_BITS,
        forall|k: int| 0 <= k < readings.len() ==> readings[k] == millis,
        1 <= n <= readings.len(),
        n <= MAX_17_BITS,
    ensures
        after(Stamp::zero(), readings.take(n)) == (Stamp { millis, seq: n }),
    decreases n,
{
    lemma_after_step(Stamp::zero(), readings, n);
    if n > 1 {
        lemma_still_clock_counts(millis, readings, n - 1);
    }
}

/// A used-up millisecond rolls over: while the clock stands still in
/// millisecond `millis`, the first 131071 calls to a new generator yield the
/// sequence numbers 1 to 131071 of that millisecond, and the call after them
/// yields sequence number 0 of the next millisecond.
pub proof fn lemma_rollover(service_id: int, millis: int, readings: Seq<int>, i: int)
    requires
        0 <= service_id <= MAX_2_BITS,
        0 <= millis < MAX_44_BITS,
        forall|k: int| 0 <= k < readings.len() ==> readings[k] == millis,
        0 <= i < readings.len(),
        i <= MAX_17_BITS,
    ensures
        i < MAX_17_BITS ==> issued(Stamp::zero(), service_id, readings, i) == Some(
            pack(millis, i + 1, service_id),
        ),
        i == MAX_17_BITS ==> issued(Stamp::zero(), service_id, readings, i) == Some(
            pack(millis + 1, 0, service_id),
        ),
{
    if i > 0 {
        lemma_still_clock_counts(millis, readings, i);
    }
}

} // verus!
