//! Little-endian integers, as instruction payloads hold them.
use vstd::prelude::*;

verus! {

/// The number that the first eight bytes of `b` hold, the least significant
/// byte first.
pub open spec fn u64_from_le(b: Seq<u8>) -> int
    recommends
        b.len() >= 8,
{
    b[0] + b[1] * 0x100 + b[2] * 0x1_0000 + b[3] * 0x100_0000 + b[4] * 0x1_0000_0000 + b[5]
        * 0x100_0000_0000 + b[6] * 0x1_0000_0000_0000 + b[7] * 0x100_0000_0000_0000
}

/// The eight bytes of `value`, the least significant first.
pub open spec fn u64_to_le(value: u64) -> Seq<u8> {
    seq![
        (value % 0x100) as u8,
        (value / 0x100 % 0x100) as u8,
        (value / 0x1_0000 % 0x100) as u8,
        (value / 0x100_0000 % 0x100) as u8,
        (value / 0x1_0000_0000 % 0x100) as u8,
        (value / 0x100_0000_0000 % 0x100) as u8,
        (value / 0x1_0000_0000_0000 % 0x100) as u8,
        (value / 0x100_0000_0000_0000 % 0x100) as u8,
    ]
}

/// Reading back the eight bytes of a number gives the number.
pub proof fn lemma_u64_le_round_trip(value: u64)
    ensures
        u64_to_le(value).len() == 8,
        u64_from_le(u64_to_le(value)) == value,
{
    // The quotients of the number by the powers of 256.
    let v: int = value as int;
    let q1 = v / 0x100;
    let q2 = q1 / 0x100;
    let q3 = q2 / 0x100;
    let q4 = q3 / 0x100;
    let q5 = q4 / 0x100;
    let q6 = q5 / 0x100;
    let q7 = q6 / 0x100;
    assert(q2 == v / 0x1_0000);
    assert(q3 == v / 0x100_0000);
    assert(q4 == v / 0x1_0000_0000);
    assert(q5 == v / 0x100_0000_0000);
    assert(q6 == v / 0x1_0000_0000_0000);
    assert(q7 == v / 0x100_0000_0000_0000);
    assert(q7 < 0x100);
    // Each byte is what its quotient leaves when divided by 256.
    let b = u64_to_le(value);
    assert(b[0] == v % 0x100);
    assert(b[1] == q1 % 0x100);
    assert(b[2] == q2 % 0x100);
    assert(b[3] == q3 % 0x100);
    assert(b[4] == q4 % 0x100);
    assert(b[5] == q5 % 0x100);
    assert(b[6] == q6 % 0x100);
    assert(b[7] == q7);
}

} // verus!
