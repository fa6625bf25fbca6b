//! Reading and writing the fixed-width fields of instruction data and of
//! stored records: byte strings of known length and 64-bit integers in
//! little-endian order.

use vstd::prelude::*;

verus! {

/// The number that eight bytes spell in little-endian order.
pub open spec fn spec_u64_from_le(bytes: Seq<u8>) -> int
    recommends
        bytes.len() == 8,
{
    bytes[0] + 256 * (bytes[1] + 256 * (bytes[2] + 256 * (bytes[3] + 256 * (bytes[4] + 256 * (
    bytes[5] + 256 * (bytes[6] + 256 * bytes[7]))))))
}

/// The eight bytes that spell `value` in little-endian order.
pub open spec fn spec_u64_to_le(value: u64) -> Seq<u8> {
    let q1 = value / 256;
    let q2 = q1 / 256;
    let q3 = q2 / 256;
    let q4 = q3 / 256;
    let q5 = q4 / 256;
    let q6 = q5 / 256;
    let q7 = q6 / 256;
    seq![
        (value % 256) as u8,
        (q1 % 256) as u8,
        (q2 % 256) as u8,
        (q3 % 256) as u8,
        (q4 % 256) as u8,
        (q5 % 256) as u8,
        (q6 % 256) as u8,
        (q7 % 256) as u8,
    ]
}

/// Writing a number gives eight bytes, and reading them back gives the number.
pub proof fn lemma_u64_le_write_read(value: u64)
    ensures
        spec_u64_to_le(value).len() == 8,
        spec_u64_from_le(spec_u64_to_le(value)) == value,
{
    let q1 = value / 256;
    let q2 = q1 / 256;
    let q3 = q2 / 256;
    let q4 = q3 / 256;
    let q5 = q4 / 256;
    let q6 = q5 / 256;
    let q7 = q6 / 256;
    assert(q7 < 256);
    assert(q6 == q6 % 256 + 256 * q7);
    assert(q5 == q5 % 256 + 256 * q6);
    assert(q4 == q4 % 256 + 256 * q5);
    assert(q3 == q3 % 256 + 256 * q4);
    assert(q2 == q2 % 256 + 256 * q3);
    assert(q1 == q1 % 256 + 256 * q2);
    assert(value == value % 256 + 256 * q1);
}

/// Eight bytes read as a number fit in 64 bits, and writing that number gives
/// the same eight bytes.
pub proof fn lemma_u64_le_read_write(bytes: Seq<u8>)
    requires
        bytes.len() == 8,
    ensures
        0 <= spec_u64_from_le(bytes) <= u64::MAX,
        spec_u64_to_le(spec_u64_from_le(bytes) as u64) == bytes,
{
    let t6 = bytes[6] + 256 * bytes[7];
    let t5 = bytes[5] + 256 * t6;
    let t4 = bytes[4] + 256 * t5;
    let t3 = bytes[3] + 256 * t4;
    let t2 = bytes[2] + 256 * t3;
    let t1 = bytes[1] + 256 * t2;
    let t0 = bytes[0] + 256 * t1;
    assert(t0 == spec_u64_from_le(bytes));
    assert(0 <= t0 <= u64::MAX);
    let value = t0 as u64;
    assert(value / 256 == t1 && value % 256 == bytes[0]);
    assert(t1 / 256 == t2 && t1 % 256 == bytes[1]);
    assert(t2 / 256 == t3 && t2 % 256 == bytes[2]);
    assert(t3 / 256 == t4 && t3 % 256 == bytes[3]);
    assert(t4 / 256 == t5 && t4 % 256 == bytes[4]);
    assert(t5 / 256 == t6 && t5 % 256 == bytes[5]);
    assert(t6 / 256 == bytes[7] && t6 % 256 == bytes[6]);
    assert(spec_u64_to_le(value) =~= bytes);
}

/// Reads the 64-bit little-endian integer that starts at `offset`.
pub fn read_u64(data: &[u8], offset: usize) -> (value: u64)
    requires
        offset + 8 <= data@.len(),
    ensures
        value == spec_u64_from_le(data@.subrange(offset as int, offset + 8)),
{
    let b0: u64 = data[offset] as u64;
    let b1: u64 = data[offset + 1] as u64;
    let b2: u64 = data[offset + 2] as u64;
    let b3: u64 = data[offset + 3] as u64;
    let b4: u64 = data[offset + 4] as u64;
    let b5: u64 = data[offset + 5] as u64;
    let b6: u64 = data[offset + 6] as u64;
    let b7: u64 = data[offset + 7] as u64;
    b0 + 256 * (b1 + 256 * (b2 + 256 * (b3 + 256 * (b4 + 256 * (b5 + 256 * (b6 + 256 * b7))))))
}

/// Reads the `N` bytes that start at `offset`.
pub fn read_array<const N: usize>(data: &[u8], offset: usize) -> (bytes: [u8; N])
    requires
        offset + N <= data@.len(),
    ensures
        bytes@ == data@.subrange(offset as int, offset + N),
{
    let len = data.len();
    let mut bytes: [u8; N] = [0u8; N];
    let mut i: usize = 0;
    while i < N
        invariant
            i <= N,
            offset + N <= len,
            len == data@.len(),
            forall|j: int| 0 <= j < i ==> bytes@[j] == data@[offset + j],
        decreases N - i,
    {
        bytes[i] = data[offset + i];
        i += 1;
    }
    assert(bytes@ =~= data@.subrange(offset as int, offset + N));
    bytes
}

/// Appends `bytes` to `out`.
pub fn append_bytes(out: &mut Vec<u8>, bytes: &[u8])
    ensures
        final(out)@ == old(out)@ + bytes@,
{
    let mut i: usize = 0;
    while i < bytes.len()
        invariant
            i <= bytes@.len(),
            out@ == old(out)@ + bytes@.subrange(0, i as int),
        decreases bytes@.len() - i,
    {
        out.push(bytes[i]);
        assert(out@ =~= old(out)@ + bytes@.subrange(0, i + 1));
        i += 1;
    }
    assert(bytes@.subrange(0, i as int) =~= bytes@);
}

/// Appends `value` to `out` as eight bytes in little-endian order.
pub fn append_u64(out: &mut Vec<u8>, value: u64)
    ensures
        final(out)@ == old(out)@ + spec_u64_to_le(value),
{
    let q1: u64 = value / 256;
    let q2: u64 = q1 / 256;
    let q3: u64 = q2 / 256;
    let q4: u64 = q3 / 256;
    let q5: u64 = q4 / 256;
    let q6: u64 = q5 / 256;
    let q7: u64 = q6 / 256;
    out.push((value % 256) as u8);
    out.push((q1 % 256) as u8);
    out.push((q2 % 256) as u8);
    out.push((q3 % 256) as u8);
    out.push((q4 % 256) as u8);
    out.push((q5 % 256) as u8);
    out.push((q6 % 256) as u8);
    out.push((q7 % 256) as u8);
    assert(out@ =~= old(out)@ + spec_u64_to_le(value));
}

} // verus!
