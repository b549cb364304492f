//! The bit layout of an identifier.
//!
//! From the most significant bit down: one sign bit that is always zero,
//! 44 bits of milliseconds since the epoch, 17 bits of sequence number and
//! 2 bits of service id. Every non-negative `i64` is an identifier, and
//! identifiers of one service order first by time and then by sequence.

use vstd::prelude::*;

verus! {

/// Largest timestamp an identifier can carry: 44 bits of milliseconds.
pub const MAX_44_BITS: i64 = 17_592_186_044_415;

/// Largest sequence number: 17 bits.
pub const MAX_17_BITS: u32 = 131_071;

/// Largest service id: 2 bits.
pub const MAX_2_BITS: u16 = 3;

/// The three fields of an identifier.
#[derive(Clone, Copy, Debug, PartialEq, Eq, Structural)]
pub struct IdParts {
    pub millis: i64,
    pub seq: u32,
    pub service_id: u16,
}

/// The identifier that carries the given fields.
pub open spec fn pack(millis: int, seq: int, service_id: int) -> int {
    millis * 524_288 + seq * 4 + service_id
}

/// The timestamp field of `id`.
pub open spec fn millis_of(id: int) -> int {
    id / 524_288
}

/// The sequence field of `id`.
pub open spec fn seq_of(id: int) -> int {
    (id / 4) % 131_072
}

/// The service field of `id`.
pub open spec fn service_id_of(id: int) -> int {
    id % 4
}

/// Whether the three values fit their fields.
pub open spec fn fields_fit(millis: int, seq: int, service_id: int) -> bool {
    &&& 0 <= millis <= MAX_44_BITS
    &&& 0 <= seq <= MAX_17_BITS
    &&& 0 <= service_id <= MAX_2_BITS
}

/// Packing is injective and decoding inverts it: each field of a packed
/// identifier is the value that went in, and the identifier is a
/// non-negative `i64`.
pub proof fn lemma_unpack_pack(millis: int, seq: int, service_id: int)
    requires
        fields_fit(millis, seq, service_id),
    ensures
        0 <= pack(millis, seq, service_id) <= i64::MAX,
        millis_of(pack(millis, seq, service_id)) == millis,
        seq_of(pack(millis, seq, service_id)) == seq,
        service_id_of(pack(millis, seq, service_id)) == service_id,
{
}

/// Every non-negative `i64` is the identifier of its own fields, and those
/// fields fit.
pub proof fn lemma_pack_unpack(id: int)
    requires
        0 <= id <= i64::MAX,
    ensures
        fields_fit(millis_of(id), seq_of(id), service_id_of(id)),
        pack(millis_of(id), seq_of(id), service_id_of(id)) == id,
{
}

/// For one service, identifiers order as their (timestamp, sequence) pairs
/// do: a later millisecond, or a larger sequence number in the same
/// millisecond, gives a larger identifier.
pub proof fn lemma_pack_ordered(m1: int, s1: int, m2: int, s2: int, service_id: int)
    requires
        fields_fit(m1, s1, service_id),
        fields_fit(m2, s2, service_id),
    ensures
        pack(m1, s1, service_id) < pack(m2, s2, service_id) <==> (m1 < m2 || (m1 == m2 && s1 < s2)),
{
}

/// Across services, identifiers order by time first: an earlier millisecond
/// gives a smaller identifier, whatever the sequence numbers and service ids.
pub proof fn lemma_pack_time_ordered(m1: int, s1: int, d1: int, m2: int, s2: int, d2: int)
    requires
        fields_fit(m1, s1, d1),
        fields_fit(m2, s2, d2),
        m1 < m2,
    ensures
        pack(m1, s1, d1) < pack(m2, s2, d2),
{
}

/// Packs the three fields: `(millis << 19) | (seq << 2) | service_id`.
pub fn encode(millis: i64, seq: u32, service_id: u16) -> (id: i64)
    requires
        fields_fit(millis as int, seq as int, service_id as int),
    ensures
        id == pack(millis as int, seq as int, service_id as int),
        id == (millis << 19) | ((seq as i64) << 2) | (service_id as i64),
        id >= 0,
{
    let s: i64 = seq as i64;
    let d: i64 = service_id as i64;
    assert(((millis << 19) | (s << 2) | d) == millis * 524_288 + s * 4 + d) by (bit_vector)
        requires
            0 <= millis <= 17_592_186_044_415,
            0 <= s <= 131_071,
            0 <= d <= 3,
    ;
    (millis << 19) | (s << 2) | d
}

/// Unpacks an identifier: `service_id = id & 0b11`,
/// `seq = (id >> 2) & 0x1FFFF`, `millis = id >> 19`.
pub fn decode(id: i64) -> (parts: IdParts)
    ensures
        parts.millis == millis_of(id as int),
        parts.seq == seq_of(id as int),
        parts.service_id == service_id_of(id as int),
        parts.millis == id >> 19,
        parts.seq == (id >> 2) & 0x1FFFF,
        parts.service_id == id & 0b11,
{
    let millis: i64 = id >> 19;
    let seq: i64 = (id >> 2) & 0x1FFFF;
    let service_id: i64 = id & 0b11;
    assert(id >> 19 == id / 524_288) by (bit_vector);
    assert((id >> 2) & 0x1FFFF == (id / 4) % 131_072) by (bit_vector);
    assert(id & 0b11 == id % 4) by (bit_vector);
    assert(0 <= (id >> 2) & 0x1FFFF <= 131_071) by (bit_vector);
    assert(0 <= id & 0b11 <= 3) by (bit_vector);
    IdParts { millis, seq: seq as u32, service_id: service_id as u16 }
}

} // verus!
