//! The bit layout of an id and the arithmetic behind it.
use vstd::arithmetic::div_mod::lemma_fundamental_div_mod_converse;
use vstd::prelude::*;

verus! {

/// The reference instant of all timestamps, in milliseconds since the Unix epoch.
pub const EPOCH: u128 = 1659283200000;
/// Bits of the worker id.
pub const WORKER_ID_BITS: u128 = 5;
/// Bits of the data center id.
pub const DATA_CENTER_ID_BITS: u128 = 5;
/// Bits of the per-millisecond sequence number.
pub const SEQUENCE_BITS: u128 = 12;
/// Largest worker id: `2^WORKER_ID_BITS - 1`.
pub const MAX_WORKER_ID: u128 = 31;
/// Largest data center id: `2^DATA_CENTER_ID_BITS - 1`.
pub const MAX_DATA_CENTER_ID: u128 = 31;
/// Largest sequence number: `2^SEQUENCE_BITS - 1`.
pub const SEQUENCE_MASK: u128 = 4095;
/// Position of the worker id.
pub const WORKER_ID_SHIFT: u128 = SEQUENCE_BITS;
/// Position of the data center id.
pub const DATA_CENTER_ID_SHIFT: u128 = SEQUENCE_BITS + WORKER_ID_BITS;
/// Position of the timestamp.
pub const TIMESTAMP_LEFT_SHIFT: u128 = SEQUENCE_BITS + WORKER_ID_BITS + DATA_CENTER_ID_BITS;
/// Number of distinct timestamp offsets the layout holds: `2^(128 - TIMESTAMP_LEFT_SHIFT)`.
pub const TIMESTAMP_SPAN: u128 = 0x400_0000_0000_0000_0000_0000_0000;

/// A timestamp that an id can encode: at or after the epoch, and within the span.
pub open spec fn encodable(ts: int) -> bool {
    EPOCH <= ts < EPOCH + TIMESTAMP_SPAN
}

/// The parts of an id, each within the range of its field.
pub open spec fn parts_fit(ts: int, data_center_id: int, worker_id: int, sequence: int) -> bool {
    &&& encodable(ts)
    &&& 0 <= data_center_id <= MAX_DATA_CENTER_ID
    &&& 0 <= worker_id <= MAX_WORKER_ID
    &&& 0 <= sequence <= SEQUENCE_MASK
}

/// The id that packs the given parts: `2^22`, `2^17` and `2^12` are the field positions.
pub open spec fn compose(ts: int, data_center_id: int, worker_id: int, sequence: int) -> int {
    (ts - EPOCH) * 4194304 + data_center_id * 131072 + worker_id * 4096 + sequence
}

/// The timestamp field of an id, as an absolute time.
pub open spec fn timestamp_of(id: int) -> int {
    id / 4194304 + EPOCH
}

/// The data center field of an id.
pub open spec fn data_center_id_of(id: int) -> int {
    (id / 131072) % 32
}

/// The worker field of an id.
pub open spec fn worker_id_of(id: int) -> int {
    (id / 4096) % 32
}

/// The sequence field of an id.
pub open spec fn sequence_of(id: int) -> int {
    id % 4096
}

/// `(t1, s1)` comes strictly before `(t2, s2)` in lexicographic order.
pub open spec fn lex_less(t1: int, s1: int, t2: int, s2: int) -> bool {
    t1 < t2 || (t1 == t2 && s1 < s2)
}

/// Decoding a composed id gives back each of its parts, and the id fits in 128 bits.
pub proof fn lemma_decompose_compose(ts: int, data_center_id: int, worker_id: int, sequence: int)
    requires
        parts_fit(ts, data_center_id, worker_id, sequence),
    ensures
        ({
            let id = compose(ts, data_center_id, worker_id, sequence);
            &&& 0 <= id <= u128::MAX
            &&& timestamp_of(id) == ts
            &&& data_center_id_of(id) == data_center_id
            &&& worker_id_of(id) == worker_id
            &&& sequence_of(id) == sequence
        }),
{
    let o = ts - EPOCH;
    let id = compose(ts, data_center_id, worker_id, sequence);
    let low = data_center_id * 131072 + worker_id * 4096 + sequence;
    assert(0 <= low < 4194304);
    assert(0 <= id <= u128::MAX) by (nonlinear_arith)
        requires
            id == o * 4194304 + low,
            0 <= o < 0x400_0000_0000_0000_0000_0000_0000int,
            0 <= low < 4194304,
    ;
    lemma_fundamental_div_mod_converse(id, 4194304, o, low);
    let above_dc = o * 32 + data_center_id;
    assert(id == above_dc * 131072 + (worker_id * 4096 + sequence)) by (nonlinear_arith)
        requires
            id == o * 4194304 + data_center_id * 131072 + worker_id * 4096 + sequence,
            above_dc == o * 32 + data_center_id,
    ;
    lemma_fundamental_div_mod_converse(id, 131072, above_dc, worker_id * 4096 + sequence);
    lemma_fundamental_div_mod_converse(above_dc, 32, o, data_center_id);
    let above_w = o * 1024 + data_center_id * 32 + worker_id;
    assert(id == above_w * 4096 + sequence) by (nonlinear_arith)
        requires
            id == o * 4194304 + data_center_id * 131072 + worker_id * 4096 + sequence,
            above_w == o * 1024 + data_center_id * 32 + worker_id,
    ;
    lemma_fundamental_div_mod_converse(id, 4096, above_w, sequence);
    assert(above_w == (o * 32 + data_center_id) * 32 + worker_id) by (nonlinear_arith)
        requires
            above_w == o * 1024 + data_center_id * 32 + worker_id,
    ;
    lemma_fundamental_div_mod_converse(above_w, 32, o * 32 + data_center_id, worker_id);
}

/// For fixed worker and data center ids, ids order as their `(timestamp, sequence)` pairs do.
pub proof fn lemma_compose_orders_lexicographically(
    t1: int,
    s1: int,
    t2: int,
    s2: int,
    data_center_id: int,
    worker_id: int,
)
    requires
        parts_fit(t1, data_center_id, worker_id, s1),
        parts_fit(t2, data_center_id, worker_id, s2),
    ensures
        compose(t1, data_center_id, worker_id, s1) < compose(t2, data_center_id, worker_id, s2)
            <==> lex_less(t1, s1, t2, s2),
{
    let low = data_center_id * 131072 + worker_id * 4096;
    let o1 = t1 - EPOCH;
    let o2 = t2 - EPOCH;
    if t1 < t2 {
        assert(o1 * 4194304 + 4194304 <= o2 * 4194304) by (nonlinear_arith)
            requires
                o1 < o2,
        ;
    } else if t2 < t1 {
        assert(o2 * 4194304 + 4194304 <= o1 * 4194304) by (nonlinear_arith)
            requires
                o2 < o1,
        ;
    }
}

/// The fields of an id.
#[derive(Clone, Copy, Debug, PartialEq, Eq, Structural)]
pub struct IdParts {
    pub timestamp: u128,
    pub data_center_id: u128,
    pub worker_id: u128,
    pub sequence: u128,
}

proof fn lemma_pack_bits(o: u128, d: u128, w: u128, s: u128)
    by (bit_vector)
    requires
        o < 0x400_0000_0000_0000_0000_0000_0000u128,
        d < 32,
        w < 32,
        s < 4096,
    ensures
        (o << 22u128) | (d << 17u128) | (w << 12u128) | s == o * 4194304 + d * 131072 + w * 4096 + s,
{
}

proof fn lemma_unpack_bits(id: u128)
    by (bit_vector)
    ensures
        id >> 22u128 == id / 4194304,
        (id >> 17u128) & 31u128 == (id / 131072) % 32,
        (id >> 12u128) & 31u128 == (id / 4096) % 32,
        id & 4095u128 == id % 4096,
{
}

/// Packs the parts into an id.
pub fn compose_id(timestamp: u128, data_center_id: u128, worker_id: u128, sequence: u128) -> (r: u128)
    requires
        parts_fit(timestamp as int, data_center_id as int, worker_id as int, sequence as int),
    ensures
        r == compose(timestamp as int, data_center_id as int, worker_id as int, sequence as int),
{
    let offset: u128 = timestamp - EPOCH;
    proof {
        lemma_pack_bits(offset, data_center_id, worker_id, sequence);
    }
    (offset << TIMESTAMP_LEFT_SHIFT) | (data_center_id << DATA_CENTER_ID_SHIFT) | (worker_id
        << WORKER_ID_SHIFT) | sequence
}

/// Splits an id into its fields.
pub fn decompose_id(id: u128) -> (r: IdParts)
    ensures
        r.timestamp == timestamp_of(id as int),
        r.data_center_id == data_center_id_of(id as int),
        r.worker_id == worker_id_of(id as int),
        r.sequence == sequence_of(id as int),
{
    proof {
        lemma_unpack_bits(id);
    }
    IdParts {
        timestamp: (id >> TIMESTAMP_LEFT_SHIFT) + EPOCH,
        data_center_id: (id >> DATA_CENTER_ID_SHIFT) & MAX_DATA_CENTER_ID,
        worker_id: (id >> WORKER_ID_SHIFT) & MAX_WORKER_ID,
        sequence: id & SEQUENCE_MASK,
    }
}

} // verus!
