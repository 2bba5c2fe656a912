use vstd::prelude::*;
use crate::error::DurableStoreError;

verus! {

/// The eight big-endian bytes of a `u64`, as stored in generation, revision
/// and logical-order columns.
pub open spec fn u64_be_bytes(value: u64) -> Seq<u8> {
    seq![
        (value >> 56u64) as u8,
        (value >> 48u64) as u8,
        (value >> 40u64) as u8,
        (value >> 32u64) as u8,
        (value >> 24u64) as u8,
        (value >> 16u64) as u8,
        (value >> 8u64) as u8,
        value as u8,
    ]
}

/// The `u64` whose big-endian bytes are the eight bytes `b[0..8]`.
pub open spec fn u64_from_be_bytes(b: Seq<u8>) -> u64 {
    ((b[0] as u64) << 56u64) | ((b[1] as u64) << 48u64) | ((b[2] as u64) << 40u64) | ((
    b[3] as u64) << 32u64) | ((b[4] as u64) << 24u64) | ((b[5] as u64) << 16u64) | ((
    b[6] as u64) << 8u64) | (b[7] as u64)
}

/// A stored eight-byte column decoded as a `u64`; any other length is corrupt.
pub open spec fn spec_decode_u64(bytes: Seq<u8>) -> Result<u64, DurableStoreError> {
    if bytes.len() == 8 {
        Ok(u64_from_be_bytes(bytes))
    } else {
        Err(DurableStoreError::Corrupt)
    }
}

/// Encodes a `u64` as its eight big-endian bytes.
pub fn encode_u64(value: u64) -> (r: Vec<u8>)
    ensures
        r@ == u64_be_bytes(value),
{
    let r = vec![
        (value >> 56u64) as u8,
        (value >> 48u64) as u8,
        (value >> 40u64) as u8,
        (value >> 32u64) as u8,
        (value >> 24u64) as u8,
        (value >> 16u64) as u8,
        (value >> 8u64) as u8,
        value as u8,
    ];
    assert(r@ =~= u64_be_bytes(value));
    r
}

/// Decodes an eight-byte big-endian column; other lengths are corrupt.
pub fn decode_u64(value: &[u8]) -> (r: Result<u64, DurableStoreError>)
    ensures
        r == spec_decode_u64(value@),
{
    if value.len() != 8 {
        return Err(DurableStoreError::Corrupt);
    }
    Ok(((value[0] as u64) << 56u64) | ((value[1] as u64) << 48u64) | ((value[2] as u64) << 40u64)
        | ((value[3] as u64) << 32u64) | ((value[4] as u64) << 24u64) | ((value[5] as u64)
        << 16u64) | ((value[6] as u64) << 8u64) | (value[7] as u64))
}

/// Every `u64` reads back unchanged from its stored bytes.
pub proof fn lemma_u64_bytes_round_trip(value: u64)
    ensures
        spec_decode_u64(u64_be_bytes(value)) == Ok::<u64, DurableStoreError>(value),
{
    let b = u64_be_bytes(value);
    assert(b.len() == 8);
    assert(u64_from_be_bytes(b) == value) by {
        assert(b[0] == (value >> 56u64) as u8);
        assert(b[7] == value as u8);
        assert((((value >> 56u64) as u8 as u64) << 56u64) | (((value >> 48u64) as u8 as u64)
            << 48u64) | (((value >> 40u64) as u8 as u64) << 40u64) | (((value >> 32u64) as u8
            as u64) << 32u64) | (((value >> 24u64) as u8 as u64) << 24u64) | (((value
            >> 16u64) as u8 as u64) << 16u64) | (((value >> 8u64) as u8 as u64) << 8u64) | (
        value as u8 as u64) == value) by (bit_vector);
    }
}

/// Whether `a` sorts before `b` in byte-wise order from position `i` on: the
/// first differing byte decides, and a sequence that runs out first sorts first.
/// This is how SQLite orders BLOB values.
pub open spec fn bytes_less_from(a: Seq<u8>, b: Seq<u8>, i: int) -> bool
    decreases a.len() - i,
{
    if i < 0 || i >= a.len() || i >= b.len() {
        a.len() - i < b.len() - i
    } else if a[i] != b[i] {
        a[i] < b[i]
    } else {
        bytes_less_from(a, b, i + 1)
    }
}

/// Whether `a` sorts before `b` in byte-wise order.
pub open spec fn bytes_less(a: Seq<u8>, b: Seq<u8>) -> bool {
    bytes_less_from(a, b, 0)
}

/// Stored eight-byte columns sort as the numbers they encode: the encoding of
/// `a` sorts before the encoding of `b` exactly when `a < b`.
pub proof fn lemma_u64_bytes_order(a: u64, b: u64)
    ensures
        (a < b) == bytes_less(u64_be_bytes(a), u64_be_bytes(b)),
{
    let x = u64_be_bytes(a);
    let y = u64_be_bytes(b);
    reveal_with_fuel(bytes_less_from, 9);
    assert(bytes_less(x, y) == (if x[0] != y[0] {
        x[0] < y[0]
    } else if x[1] != y[1] {
        x[1] < y[1]
    } else if x[2] != y[2] {
        x[2] < y[2]
    } else if x[3] != y[3] {
        x[3] < y[3]
    } else if x[4] != y[4] {
        x[4] < y[4]
    } else if x[5] != y[5] {
        x[5] < y[5]
    } else if x[6] != y[6] {
        x[6] < y[6]
    } else if x[7] != y[7] {
        x[7] < y[7]
    } else {
        false
    }));
    assert((a < b) == (if (a >> 56u64) as u8 != (b >> 56u64) as u8 {
        ((a >> 56u64) as u8) < ((b >> 56u64) as u8)
    } else if (a >> 48u64) as u8 != (b >> 48u64) as u8 {
        ((a >> 48u64) as u8) < ((b >> 48u64) as u8)
    } else if (a >> 40u64) as u8 != (b >> 40u64) as u8 {
        ((a >> 40u64) as u8) < ((b >> 40u64) as u8)
    } else if (a >> 32u64) as u8 != (b >> 32u64) as u8 {
        ((a >> 32u64) as u8) < ((b >> 32u64) as u8)
    } else if (a >> 24u64) as u8 != (b >> 24u64) as u8 {
        ((a >> 24u64) as u8) < ((b >> 24u64) as u8)
    } else if (a >> 16u64) as u8 != (b >> 16u64) as u8 {
        ((a >> 16u64) as u8) < ((b >> 16u64) as u8)
    } else if (a >> 8u64) as u8 != (b >> 8u64) as u8 {
        ((a >> 8u64) as u8) < ((b >> 8u64) as u8)
    } else if a as u8 != b as u8 {
        (a as u8) < (b as u8)
    } else {
        false
    })) by (bit_vector);
}

/// Every eight-byte column is the encoding of the value it decodes to.
pub proof fn lemma_bytes_u64_round_trip(bytes: Seq<u8>)
    requires
        bytes.len() == 8,
    ensures
        u64_be_bytes(u64_from_be_bytes(bytes)) == bytes,
{
    let (b0, b1, b2, b3, b4, b5, b6, b7) = (
        bytes[0],
        bytes[1],
        bytes[2],
        bytes[3],
        bytes[4],
        bytes[5],
        bytes[6],
        bytes[7],
    );
    let x = u64_from_be_bytes(bytes);
    assert(x == ((b0 as u64) << 56u64) | ((b1 as u64) << 48u64) | ((b2 as u64) << 40u64) | ((
    b3 as u64) << 32u64) | ((b4 as u64) << 24u64) | ((b5 as u64) << 16u64) | ((b6 as u64)
        << 8u64) | (b7 as u64));
    assert((x >> 56u64) as u8 == b0 && (x >> 48u64) as u8 == b1 && (x >> 40u64) as u8 == b2
        && (x >> 32u64) as u8 == b3 && (x >> 24u64) as u8 == b4 && (x >> 16u64) as u8 == b5
        && (x >> 8u64) as u8 == b6 && x as u8 == b7) by (bit_vector)
        requires
            x == ((b0 as u64) << 56u64) | ((b1 as u64) << 48u64) | ((b2 as u64) << 40u64) | ((
            b3 as u64) << 32u64) | ((b4 as u64) << 24u64) | ((b5 as u64) << 16u64) | ((
            b6 as u64) << 8u64) | (b7 as u64),
    ;
    assert(u64_be_bytes(x) =~= bytes);
}

/// A journal sequence number as stored in an SQLite integer column.
pub fn to_sql_seq(value: u64) -> (r: Result<i64, DurableStoreError>)
    ensures
        value <= i64::MAX ==> r == Ok::<i64, DurableStoreError>(value as i64),
        value > i64::MAX ==> r == Err::<i64, DurableStoreError>(DurableStoreError::Corrupt),
{
    if value <= i64::MAX as u64 {
        Ok(value as i64)
    } else {
        Err(DurableStoreError::Corrupt)
    }
}

/// A stored SQLite integer read back as an unsigned sequence number; negative values are corrupt.
pub fn from_sql_seq(value: i64) -> (r: Result<u64, DurableStoreError>)
    ensures
        value >= 0 ==> r == Ok::<u64, DurableStoreError>(value as u64),
        value < 0 ==> r == Err::<u64, DurableStoreError>(DurableStoreError::Corrupt),
{
    if value >= 0 {
        Ok(value as u64)
    } else {
        Err(DurableStoreError::Corrupt)
    }
}

/// Sequence numbers that fit an SQLite integer survive the round trip through it.
pub proof fn lemma_sql_seq_round_trip(value: u64)
    requires
        value <= i64::MAX,
    ensures
        (value as i64) >= 0,
        (value as i64) as u64 == value,
{
}

/// A stored SQLite integer read back as a `u32`; out-of-range values are corrupt.
pub fn decode_u32(value: i64) -> (r: Result<u32, DurableStoreError>)
    ensures
        0 <= value <= u32::MAX ==> r == Ok::<u32, DurableStoreError>(value as u32),
        !(0 <= value <= u32::MAX) ==> r == Err::<u32, DurableStoreError>(
            DurableStoreError::Corrupt,
        ),
{
    if 0 <= value && value <= u32::MAX as i64 {
        Ok(value as u32)
    } else {
        Err(DurableStoreError::Corrupt)
    }
}

/// A stored `0`/`1` flag; any other integer is corrupt.
pub fn parse_bool(value: i64) -> (r: Result<bool, DurableStoreError>)
    ensures
        value == 0 ==> r == Ok::<bool, DurableStoreError>(false),
        value == 1 ==> r == Ok::<bool, DurableStoreError>(true),
        value != 0 && value != 1 ==> r == Err::<bool, DurableStoreError>(
            DurableStoreError::Corrupt,
        ),
{
    if value == 0 {
        Ok(false)
    } else if value == 1 {
        Ok(true)
    } else {
        Err(DurableStoreError::Corrupt)
    }
}

/// The `0`/`1` integer stored for a flag.
pub fn encode_bool(value: bool) -> (r: i64)
    ensures
        r == (if value { 1i64 } else { 0i64 }),
{
    if value {
        1
    } else {
        0
    }
}

/// Every flag reads back unchanged from its stored integer.
pub proof fn lemma_bool_round_trip(value: bool)
    ensures
        (if value { 1i64 } else { 0i64 }) == 0 ==> !value,
        (if value { 1i64 } else { 0i64 }) == 1 ==> value,
{
}

/// A protocol version, `major.minor`.
#[derive(Clone, Copy, PartialEq, Eq, Debug, Structural)]
pub struct ProtocolVersion {
    pub major: u32,
    pub minor: u32,
}

/// A protocol version read from two stored integer columns; components outside `u32` are corrupt.
pub fn version(major: i64, minor: i64) -> (r: Result<ProtocolVersion, DurableStoreError>)
    ensures
        (0 <= major <= u32::MAX && 0 <= minor <= u32::MAX) ==> r == Ok::<
            ProtocolVersion,
            DurableStoreError,
        >(ProtocolVersion { major: major as u32, minor: minor as u32 }),
        !(0 <= major <= u32::MAX && 0 <= minor <= u32::MAX) ==> r == Err::<
            ProtocolVersion,
            DurableStoreError,
        >(DurableStoreError::Corrupt),
{
    let major = decode_u32(major)?;
    let minor = decode_u32(minor)?;
    Ok(ProtocolVersion { major, minor })
}

} // verus!
