//! The fixed bit layout of a snowflake identifier.
//!
//! A generated identifier is one signed 64-bit word holding, from high bits to
//! low: a zero sign bit, 41 bits of millisecond timestamp measured from a
//! custom epoch, 5 bits of datacenter identifier, 5 bits of worker identifier
//! and 12 bits of per-millisecond sequence counter.

use vstd::prelude::*;
use vstd::arithmetic::div_mod::lemma_div_basics_4;
use vstd::arithmetic::div_mod::lemma_div_basics_5;
use vstd::arithmetic::div_mod::lemma_fundamental_div_mod_converse;

verus! {

/// The custom epoch: the millisecond timestamp that packed timestamps are
/// measured from (2018-01-01 00:00:00 UTC on the Unix time line).
pub const TWEPOCH: i64 = 1514736000000;

/// Bits given to the worker identifier.
pub const WORKER_ID_BITS: u8 = 5;

/// Bits given to the datacenter identifier.
pub const DATACENTER_ID_BITS: u8 = 5;

/// Bits given to the per-millisecond sequence counter.
pub const SEQUENCE_BITS: u8 = 12;

/// Largest worker identifier that fits its 5-bit field.
pub const MAX_WORKER_ID: i64 = 0x1f;

/// Largest datacenter identifier that fits its 5-bit field.
pub const MAX_DATACENTER_ID: i64 = 0x1f;

/// All-ones mask over the low 12 sequence bits; also the largest sequence.
pub const SEQUENCE_MASK: i64 = 0xfff;

/// How far the worker identifier is shifted into the packed word.
pub const WORKER_ID_SHIFT: u8 = 12;

/// How far the datacenter identifier is shifted into the packed word.
pub const DATACENTER_ID_SHIFT: u8 = 17;

/// How far the epoch-relative timestamp is shifted into the packed word.
pub const TIMESTAMP_LEFT_SHIFT: u8 = 22;

/// One past the largest millisecond timestamp whose epoch-relative value
/// fits the 41-bit timestamp field.
pub const TIMESTAMP_LIMIT: i64 = TWEPOCH + 0x200_0000_0000;

/// The weight of one timestamp step in the packed word: 2^22.
pub const TIMESTAMP_WEIGHT: i64 = 0x40_0000;

/// The weight of one datacenter step in the packed word: 2^17.
pub const DATACENTER_WEIGHT: i64 = 0x2_0000;

/// The weight of one worker step in the packed word: 2^12.
pub const WORKER_WEIGHT: i64 = 0x1000;

/// A worker identifier fits its field.
pub open spec fn valid_worker_id(worker_id: i64) -> bool {
    0 <= worker_id <= MAX_WORKER_ID
}

/// A datacenter identifier fits its field.
pub open spec fn valid_datacenter_id(datacenter_id: i64) -> bool {
    0 <= datacenter_id <= MAX_DATACENTER_ID
}

/// A sequence counter fits its field.
pub open spec fn valid_sequence(sequence: i64) -> bool {
    0 <= sequence <= SEQUENCE_MASK
}

/// A millisecond timestamp whose epoch-relative value fits the 41-bit field.
pub open spec fn valid_timestamp(timestamp: i64) -> bool {
    TWEPOCH <= timestamp < TIMESTAMP_LIMIT
}

/// The packed identifier as a sum of weighted fields. With every field in
/// range the fields occupy disjoint bit ranges, so this sum equals the
/// bitwise composition `(ts_off << 22) | (dc << 17) | (w << 12) | seq`
/// (proved by [`lemma_pack_is_bitwise`]).
pub open spec fn pack(ts_off: i64, datacenter_id: i64, worker_id: i64, sequence: i64) -> int {
    ts_off * TIMESTAMP_WEIGHT + datacenter_id * DATACENTER_WEIGHT
        + worker_id * WORKER_WEIGHT + sequence
}

/// The sequence field of a packed identifier: its low 12 bits.
pub open spec fn sequence_of(id: int) -> int {
    id % 0x1000
}

/// The worker field of a packed identifier: bits 12 to 16.
pub open spec fn worker_of(id: int) -> int {
    (id / 0x1000) % 0x20
}

/// The datacenter field of a packed identifier: bits 17 to 21.
pub open spec fn datacenter_of(id: int) -> int {
    (id / 0x2_0000) % 0x20
}

/// The millisecond timestamp a packed identifier was generated at: its high
/// 41 value bits, measured from the custom epoch.
pub open spec fn timestamp_of(id: int) -> int {
    id / 0x40_0000 + TWEPOCH
}

/// With every field in range, the weighted sum [`pack`] equals the bitwise
/// composition of the snowflake layout, and the packed word keeps its sign
/// bit clear.
pub proof fn lemma_pack_is_bitwise(ts_off: i64, dc: i64, w: i64, s: i64)
    by (bit_vector)
    requires
        0 <= ts_off < 0x200_0000_0000,
        0 <= dc <= 0x1f,
        0 <= w <= 0x1f,
        0 <= s <= 0xfff,
    ensures
        (ts_off << 22u64) | (dc << 17u64) | (w << 12u64) | s
            == ts_off * 0x40_0000 + dc * 0x2_0000 + w * 0x1000 + s,
        0 <= ts_off * 0x40_0000 + dc * 0x2_0000 + w * 0x1000 + s < 0x8000_0000_0000_0000,
{
}

/// For a packed word with a clear sign bit, the masked shifts of the
/// snowflake layout extract the same fields as division and remainder.
proof fn lemma_extract_is_bitwise(id: i64)
    by (bit_vector)
    requires
        0 <= id,
    ensures
        id & 0xfff == id % 0x1000,
        (id >> 12u64) & 0x1f == ((id / 0x1000) as i64) % 0x20,
        (id >> 17u64) & 0x1f == ((id / 0x2_0000) as i64) % 0x20,
        id >> 22u64 == (id / 0x40_0000) as i64,
        0i64 <= id >> 22u64,
        id >> 22u64 <= 0x1ff_ffff_ffffi64,
{
}

/// Splits a packed identifier back into its (timestamp, datacenter, worker,
/// sequence) fields by the inverse of the packing shifts. The timestamp
/// comes back on the Unix time line, with the custom epoch added in.
pub fn decompose_id(id: i64) -> (r: (i64, i64, i64, i64))
    requires
        0 <= id,
    ensures
        r.0 == timestamp_of(id as int),
        r.1 == datacenter_of(id as int),
        r.2 == worker_of(id as int),
        r.3 == sequence_of(id as int),
{
    proof {
        lemma_extract_is_bitwise(id);
        lemma_div_basics_4(id as int, 0x1000);
        lemma_div_basics_5(id as int, 0x1000);
        lemma_div_basics_4(id as int, 0x2_0000);
        lemma_div_basics_5(id as int, 0x2_0000);
        lemma_div_basics_4(id as int, 0x40_0000);
        lemma_div_basics_5(id as int, 0x40_0000);
    }
    let sequence = id & SEQUENCE_MASK;
    let worker = (id >> WORKER_ID_SHIFT) & MAX_WORKER_ID;
    let datacenter = (id >> DATACENTER_ID_SHIFT) & MAX_DATACENTER_ID;
    let timestamp = (id >> TIMESTAMP_LEFT_SHIFT) + TWEPOCH;
    (timestamp, datacenter, worker, sequence)
}

/// Law: every field of a packed identifier can be recovered exactly by the
/// inverse of the packing shifts, and the recovered timestamp is at least the
/// custom epoch.
pub proof fn lemma_field_round_trip(ts_off: i64, dc: i64, w: i64, s: i64)
    requires
        0 <= ts_off < 0x200_0000_0000,
        valid_datacenter_id(dc),
        valid_worker_id(w),
        valid_sequence(s),
    ensures
        sequence_of(pack(ts_off, dc, w, s)) == s,
        worker_of(pack(ts_off, dc, w, s)) == w,
        datacenter_of(pack(ts_off, dc, w, s)) == dc,
        timestamp_of(pack(ts_off, dc, w, s)) == ts_off + TWEPOCH,
        timestamp_of(pack(ts_off, dc, w, s)) >= TWEPOCH,
{
    let p = pack(ts_off, dc, w, s);
    assert(p == (ts_off * 0x400 + dc * 0x20 + w) * 0x1000 + s) by (nonlinear_arith)
        requires
            p == ts_off * 0x40_0000 + dc * 0x2_0000 + w * 0x1000 + s,
    ;
    lemma_fundamental_div_mod_converse(p, 0x1000, ts_off * 0x400 + dc * 0x20 + w, s as int);
    let q = ts_off * 0x400 + dc * 0x20 + w;
    assert(q == (ts_off * 0x20 + dc) * 0x20 + w) by (nonlinear_arith)
        requires
            q == ts_off * 0x400 + dc * 0x20 + w,
    ;
    lemma_fundamental_div_mod_converse(q, 0x20, ts_off * 0x20 + dc, w as int);
    assert(p == (ts_off * 0x20 + dc) * 0x2_0000 + (w * 0x1000 + s)) by (nonlinear_arith)
        requires
            p == ts_off * 0x40_0000 + dc * 0x2_0000 + w * 0x1000 + s,
    ;
    lemma_fundamental_div_mod_converse(p, 0x2_0000, ts_off * 0x20 + dc, w * 0x1000 + s);
    lemma_fundamental_div_mod_converse(ts_off * 0x20 + dc, 0x20, ts_off as int, dc as int);
    lemma_fundamental_div_mod_converse(p, 0x40_0000, ts_off as int, dc * 0x2_0000 + w * 0x1000 + s);
}

/// Law: packing is injective. Two packed identifiers agree only when their
/// timestamp, datacenter, worker and sequence fields all agree; identifiers
/// stamped with different worker or datacenter identifiers therefore never
/// collide, whatever their timestamps and sequences.
pub proof fn lemma_pack_injective(
    ts1: i64, dc1: i64, w1: i64, s1: i64,
    ts2: i64, dc2: i64, w2: i64, s2: i64,
)
    requires
        0 <= ts1 < 0x200_0000_0000,
        0 <= ts2 < 0x200_0000_0000,
        valid_datacenter_id(dc1),
        valid_datacenter_id(dc2),
        valid_worker_id(w1),
        valid_worker_id(w2),
        valid_sequence(s1),
        valid_sequence(s2),
        pack(ts1, dc1, w1, s1) == pack(ts2, dc2, w2, s2),
    ensures
        ts1 == ts2,
        dc1 == dc2,
        w1 == w2,
        s1 == s2,
{
    lemma_field_round_trip(ts1, dc1, w1, s1);
    lemma_field_round_trip(ts2, dc2, w2, s2);
}

/// Law: packing is strictly monotone in the lexicographic order of
/// (timestamp, sequence) for a fixed worker and datacenter. Successive
/// identifiers of one generator advance in exactly that order, so they come
/// out strictly increasing and in particular pairwise distinct.
pub proof fn lemma_pack_strictly_monotonic(
    ts1: i64, s1: i64, ts2: i64, s2: i64, dc: i64, w: i64,
)
    requires
        0 <= ts1 < 0x200_0000_0000,
        0 <= ts2 < 0x200_0000_0000,
        valid_datacenter_id(dc),
        valid_worker_id(w),
        valid_sequence(s1),
        valid_sequence(s2),
        ts1 < ts2 || (ts1 == ts2 && s1 < s2),
    ensures
        pack(ts1, dc, w, s1) < pack(ts2, dc, w, s2),
{
    if ts1 < ts2 {
        assert((ts2 - ts1) * 0x40_0000 >= 0x40_0000) by (nonlinear_arith)
            requires
                ts2 - ts1 >= 1,
        ;
        assert(ts2 * 0x40_0000 - ts1 * 0x40_0000 == (ts2 - ts1) * 0x40_0000) by (nonlinear_arith);
    }
}

} // verus!
