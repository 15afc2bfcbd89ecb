//! Little-endian integers as they stand in instruction and account bytes.

use vstd::prelude::*;
use vstd::arithmetic::div_mod::lemma_div_denominator;

verus! {

/// The number that eight bytes spell, least significant byte first.
pub open spec fn le_value(b: Seq<u8>) -> int
    recommends
        b.len() == 8,
{
    b[0] + 0x100 * (b[1] + 0x100 * (b[2] + 0x100 * (b[3] + 0x100 * (b[4] + 0x100 * (b[5] + 0x100
        * (b[6] + 0x100 * b[7]))))))
}

/// The eight bytes that spell `v`, least significant byte first.
pub open spec fn le_bytes(v: u64) -> Seq<u8> {
    seq![
        (v % 0x100) as u8,
        (v / 0x100 % 0x100) as u8,
        (v / 0x1_0000 % 0x100) as u8,
        (v / 0x100_0000 % 0x100) as u8,
        (v / 0x1_0000_0000 % 0x100) as u8,
        (v / 0x100_0000_0000 % 0x100) as u8,
        (v / 0x1_0000_0000_0000 % 0x100) as u8,
        (v / 0x100_0000_0000_0000 % 0x100) as u8,
    ]
}

/// Eight bytes always spell a number that fits in 64 bits.
pub proof fn le_value_fits(b: Seq<u8>)
    requires
        b.len() == 8,
    ensures
        0 <= le_value(b) <= u64::MAX,
{
}

/// Spelling a number and reading it back gives the number.
pub proof fn le_value_of_le_bytes(v: u64)
    ensures
        le_bytes(v).len() == 8,
        le_value(le_bytes(v)) == v,
{
    let q1 = v as int / 0x100;
    let q2 = q1 / 0x100;
    let q3 = q2 / 0x100;
    let q4 = q3 / 0x100;
    let q5 = q4 / 0x100;
    let q6 = q5 / 0x100;
    let q7 = q6 / 0x100;
    nested_division(v);
    assert(q7 < 0x100);
    assert(le_value(le_bytes(v)) == v % 0x100 + 0x100 * (q1 % 0x100 + 0x100 * (q2 % 0x100 + 0x100
        * (q3 % 0x100 + 0x100 * (q4 % 0x100 + 0x100 * (q5 % 0x100 + 0x100 * (q6 % 0x100 + 0x100
        * q7)))))));
}

/// Dividing by a power of 256 is dividing by 256 that many times.
proof fn nested_division(v: u64)
    ensures
        v / 0x1_0000 == v / 0x100 / 0x100,
        v / 0x100_0000 == v / 0x100 / 0x100 / 0x100,
        v / 0x1_0000_0000 == v / 0x100 / 0x100 / 0x100 / 0x100,
        v / 0x100_0000_0000 == v / 0x100 / 0x100 / 0x100 / 0x100 / 0x100,
        v / 0x1_0000_0000_0000 == v / 0x100 / 0x100 / 0x100 / 0x100 / 0x100 / 0x100,
        v / 0x100_0000_0000_0000 == v / 0x100 / 0x100 / 0x100 / 0x100 / 0x100 / 0x100 / 0x100,
{
    lemma_div_denominator(v as int, 0x100, 0x100);
    lemma_div_denominator(v as int, 0x1_0000, 0x100);
    lemma_div_denominator(v as int, 0x100_0000, 0x100);
    lemma_div_denominator(v as int, 0x1_0000_0000, 0x100);
    lemma_div_denominator(v as int, 0x100_0000_0000, 0x100);
    lemma_div_denominator(v as int, 0x1_0000_0000_0000, 0x100);
}

/// Reading eight bytes and spelling the number gives the bytes.
pub proof fn le_bytes_of_le_value(b: Seq<u8>)
    requires
        b.len() == 8,
    ensures
        le_bytes(le_value(b) as u64) == b,
{
    let v = le_value(b) as u64;
    nested_division(v);
    assert(le_bytes(v) =~= b);
}

/// Reads the eight bytes of `data` from `at` on as a little-endian number.
pub fn read_u64(data: &[u8], at: usize) -> (v: u64)
    requires
        at + 8 <= data.len(),
    ensures
        v == le_value(data@.subrange(at as int, at + 8)),
{
    data[at] as u64 + 0x100 * (data[at + 1] as u64 + 0x100 * (data[at + 2] as u64 + 0x100 * (data[at
        + 3] as u64 + 0x100 * (data[at + 4] as u64 + 0x100 * (data[at + 5] as u64 + 0x100 * (data[at
        + 6] as u64 + 0x100 * (data[at + 7] as u64)))))))
}

/// Writes `v` as eight little-endian bytes into `data` from `at` on.
pub fn write_u64(data: &mut Vec<u8>, at: usize, v: u64)
    requires
        at + 8 <= old(data).len(),
    ensures
        final(data)@.len() == old(data)@.len(),
        final(data)@.subrange(at as int, at + 8) == le_bytes(v),
        forall|j: int|
            0 <= j < at || at + 8 <= j < old(data)@.len() ==> final(data)@[j] == old(data)@[j],
{
    data[at] = (v % 0x100) as u8;
    data[at + 1] = (v / 0x100 % 0x100) as u8;
    data[at + 2] = (v / 0x1_0000 % 0x100) as u8;
    data[at + 3] = (v / 0x100_0000 % 0x100) as u8;
    data[at + 4] = (v / 0x1_0000_0000 % 0x100) as u8;
    data[at + 5] = (v / 0x100_0000_0000 % 0x100) as u8;
    data[at + 6] = (v / 0x1_0000_0000_0000 % 0x100) as u8;
    data[at + 7] = (v / 0x100_0000_0000_0000 % 0x100) as u8;
    assert(data@.subrange(at as int, at + 8) =~= le_bytes(v));
}

} // verus!
