//! The state codec: fixed-schema binary encode and decode of the persisted
//! account record.
//!
//! The record is eight bytes: the little-endian encoding of the stored
//! double's 64-bit pattern.  Every bit pattern is a valid record, NaN and
//! infinities included, so decoding fails only on a short buffer.

use vstd::pervasive::VecAdditionalExecFns;
use vstd::prelude::*;

use crate::error::CalcError;

verus! {

/// The number of bytes a serialized record occupies.
pub const RECORD_SIZE: usize = 8;

/// The persisted account record.  `result_bits` carries the stored
/// double-precision value as its IEEE-754 bit pattern, so that the codec's
/// contracts can be stated bit for bit.
#[derive(Clone, Copy, Debug, PartialEq, Eq, Structural)]
pub struct CalculatorAccount {
    /// The bit pattern of the result of the last operation.
    pub result_bits: u64,
}

/// The little-endian bytes of `v`, least significant first.
pub open spec fn le_bytes_of(v: u64) -> Seq<u8> {
    seq![
        (v & 0xff) as u8,
        ((v >> 8) & 0xff) as u8,
        ((v >> 16) & 0xff) as u8,
        ((v >> 24) & 0xff) as u8,
        ((v >> 32) & 0xff) as u8,
        ((v >> 40) & 0xff) as u8,
        ((v >> 48) & 0xff) as u8,
        ((v >> 56) & 0xff) as u8,
    ]
}

/// The value whose little-endian bytes are the first eight elements of `b`.
pub open spec fn u64_of_le_bytes(b: Seq<u8>) -> u64
    recommends
        b.len() >= 8,
{
    (b[0] as u64) | ((b[1] as u64) << 8) | ((b[2] as u64) << 16) | ((b[3] as u64) << 24)
        | ((b[4] as u64) << 32) | ((b[5] as u64) << 40) | ((b[6] as u64) << 48)
        | ((b[7] as u64) << 56)
}

/// The buffer `data` after a record with bits `bits` is written over its
/// first eight bytes; the rest is untouched.
pub open spec fn store_record(bits: u64, data: Seq<u8>) -> Seq<u8>
    recommends
        data.len() >= 8,
{
    le_bytes_of(bits) + data.skip(8)
}

/// What `decode` returns on a buffer with contents `data`.
pub open spec fn decode_spec(data: Seq<u8>) -> Result<CalculatorAccount, CalcError> {
    if data.len() < 8 {
        Err(CalcError::MalformedState)
    } else {
        Ok(CalculatorAccount { result_bits: u64_of_le_bytes(data) })
    }
}

/// Reads the little-endian 64-bit value at `offset`.
pub fn read_le_u64(bytes: &[u8], offset: usize) -> (r: u64)
    requires
        offset + 8 <= bytes@.len(),
    ensures
        r == u64_of_le_bytes(bytes@.subrange(offset as int, offset + 8)),
{
    let _n: usize = bytes.len();
    let b0 = *vstd::slice::slice_index_get(bytes, offset);
    let b1 = *vstd::slice::slice_index_get(bytes, offset + 1);
    let b2 = *vstd::slice::slice_index_get(bytes, offset + 2);
    let b3 = *vstd::slice::slice_index_get(bytes, offset + 3);
    let b4 = *vstd::slice::slice_index_get(bytes, offset + 4);
    let b5 = *vstd::slice::slice_index_get(bytes, offset + 5);
    let b6 = *vstd::slice::slice_index_get(bytes, offset + 6);
    let b7 = *vstd::slice::slice_index_get(bytes, offset + 7);
    (b0 as u64) | ((b1 as u64) << 8) | ((b2 as u64) << 16) | ((b3 as u64) << 24)
        | ((b4 as u64) << 32) | ((b5 as u64) << 40) | ((b6 as u64) << 48) | ((b7 as u64) << 56)
}

/// Interprets the first eight bytes of `buffer` as the little-endian bit
/// pattern of the stored record.  Fails with `MalformedState` if and only if
/// the buffer is shorter than a record; every bit pattern is accepted.
pub fn decode(buffer: &[u8]) -> (r: Result<CalculatorAccount, CalcError>)
    ensures
        r == decode_spec(buffer@),
{
    if buffer.len() < RECORD_SIZE {
        return Err(CalcError::MalformedState);
    }
    let bits = read_le_u64(buffer, 0);
    proof {
        assert(buffer@.subrange(0, 8) =~= buffer@.take(8));
        lemma_u64_of_le_bytes_depends_on_prefix(buffer@.take(8), buffer@);
    }
    Ok(CalculatorAccount { result_bits: bits })
}

/// Writes the record's little-endian bytes over the first eight bytes of
/// `buffer` in place, leaving the rest untouched.  Fails with
/// `BufferTooSmall` if and only if the buffer is shorter than a record, and
/// then leaves the buffer unchanged.
pub fn encode(record: &CalculatorAccount, buffer: &mut Vec<u8>) -> (r: Result<(), CalcError>)
    ensures
        old(buffer)@.len() < 8 ==> r == Err::<(), CalcError>(CalcError::BufferTooSmall)
            && final(buffer)@ == old(buffer)@,
        old(buffer)@.len() >= 8 ==> r == Ok::<(), CalcError>(())
            && final(buffer)@ == store_record(record.result_bits, old(buffer)@),
{
    if buffer.len() < RECORD_SIZE {
        return Err(CalcError::BufferTooSmall);
    }
    let v = record.result_bits;
    buffer.set(0, (v & 0xff) as u8);
    buffer.set(1, ((v >> 8) & 0xff) as u8);
    buffer.set(2, ((v >> 16) & 0xff) as u8);
    buffer.set(3, ((v >> 24) & 0xff) as u8);
    buffer.set(4, ((v >> 32) & 0xff) as u8);
    buffer.set(5, ((v >> 40) & 0xff) as u8);
    buffer.set(6, ((v >> 48) & 0xff) as u8);
    buffer.set(7, ((v >> 56) & 0xff) as u8);
    proof {
        assert(buffer@ =~= store_record(v, old(buffer)@));
    }
    Ok(())
}

/// Only the first eight bytes enter the decoded value.
pub proof fn lemma_u64_of_le_bytes_depends_on_prefix(b1: Seq<u8>, b2: Seq<u8>)
    requires
        b1.len() >= 8,
        b2.len() >= 8,
        forall|i: int| 0 <= i < 8 ==> b1[i] == b2[i],
    ensures
        u64_of_le_bytes(b1) == u64_of_le_bytes(b2),
{
}

/// Reassembling the little-endian bytes of a value gives the value back.
pub proof fn lemma_le_bytes_round_trip(v: u64)
    ensures
        u64_of_le_bytes(le_bytes_of(v)) == v,
{
    assert(((v & 0xff) as u8 as u64) | ((((v >> 8) & 0xff) as u8 as u64) << 8) | ((((v >> 16)
        & 0xff) as u8 as u64) << 16) | ((((v >> 24) & 0xff) as u8 as u64) << 24) | ((((v >> 32)
        & 0xff) as u8 as u64) << 32) | ((((v >> 40) & 0xff) as u8 as u64) << 40) | ((((v >> 48)
        & 0xff) as u8 as u64) << 48) | ((((v >> 56) & 0xff) as u8 as u64) << 56) == v)
        by (bit_vector);
}

/// Round-trip law: decoding a buffer into which a record was just encoded
/// gives that record back, bit for bit, for every representable record —
/// NaN and infinity bit patterns included — and for every prior buffer
/// content.
pub proof fn lemma_record_round_trip(record: CalculatorAccount, data: Seq<u8>)
    requires
        data.len() >= 8,
    ensures
        decode_spec(store_record(record.result_bits, data)) == Ok::<
            CalculatorAccount,
            CalcError,
        >(record),
{
    let stored = store_record(record.result_bits, data);
    assert(stored.len() >= 8);
    lemma_le_bytes_round_trip(record.result_bits);
    lemma_u64_of_le_bytes_depends_on_prefix(le_bytes_of(record.result_bits), stored);
}

} // verus!
