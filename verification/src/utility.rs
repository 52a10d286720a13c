//! Splitting a 64-bit identifier into the two 32-bit halves that the interface carries,
//! and putting it together again.
use vstd::prelude::*;

verus! {

/// The identifier whose high half is `high` and whose low half is `low`, each half read as
/// the unsigned number with the same 32 bits.
pub open spec fn joined_halves(high: i32, low: i32) -> int {
    (high as u32) * 0x1_0000_0000 + (low as u32)
}

/// Splits an identifier into its high and its low half.
pub fn u64_to_i32x2(value: u64) -> (halves: (i32, i32))
    ensures
        joined_halves(halves.0, halves.1) == value,
        halves.0 as u32 == value / 0x1_0000_0000,
        halves.1 as u32 == value % 0x1_0000_0000,
{
    let high = (value >> 32) as i32;
    let low = (value & 0xFFFF_FFFF) as i32;
    assert(high as u32 == value / 0x1_0000_0000) by (bit_vector)
        requires
            high == (value >> 32) as i32,
    ;
    assert(low as u32 == value % 0x1_0000_0000) by (bit_vector)
        requires
            low == (value & 0xFFFF_FFFF) as i32,
    ;
    (high, low)
}

/// Puts an identifier together from a pair of halves, the high one first.
pub fn i32c_to_u64(value: (i32, i32)) -> (id: u64)
    ensures
        id == joined_halves(value.0, value.1),
        id / 0x1_0000_0000 == value.0 as u32,
        id % 0x1_0000_0000 == value.1 as u32,
{
    let (high, low) = value;
    let id = ((high as u64) << 32) | (low as u32 as u64);
    assert(id == (high as u32) * 0x1_0000_0000 + (low as u32)) by (bit_vector)
        requires
            id == ((high as u64) << 32) | (low as u32 as u64),
    ;
    id
}

/// Puts an identifier together from its high and its low half.
pub fn i32x2_to_u64(id_1: i32, id_2: i32) -> (id: u64)
    ensures
        id == joined_halves(id_1, id_2),
        id / 0x1_0000_0000 == id_1 as u32,
        id % 0x1_0000_0000 == id_2 as u32,
{
    i32c_to_u64((id_1, id_2))
}

/// Different pairs of halves are different identifiers. Splitting and joining therefore undo
/// each other, in both orders.
pub proof fn lemma_halves_are_unique(high_a: i32, low_a: i32, high_b: i32, low_b: i32)
    ensures
        0 <= joined_halves(high_a, low_a) <= u64::MAX,
        joined_halves(high_a, low_a) == joined_halves(high_b, low_b) <==> (high_a == high_b
            && low_a == low_b),
{
    if joined_halves(high_a, low_a) == joined_halves(high_b, low_b) {
        assert(high_a as u32 == high_b as u32 && low_a as u32 == low_b as u32);
        assert(high_a == high_b && low_a == low_b) by (bit_vector)
            requires
                high_a as u32 == high_b as u32,
                low_a as u32 == low_b as u32,
        ;
    }
}

/// The first half holds the upper 32 bits of an identifier and the second half the lower ones.
pub proof fn lemma_first_half_is_the_upper_one(high: i32, low: i32)
    ensures
        joined_halves(high, low) / 0x1_0000_0000 == high as u32,
        joined_halves(high, low) % 0x1_0000_0000 == low as u32,
        high >= 0 && low >= 0 ==> joined_halves(high, low) == high * 0x1_0000_0000 + low,
{
    assert(high >= 0 ==> high as u32 == high) by (bit_vector);
    assert(low >= 0 ==> low as u32 == low) by (bit_vector);
}

} // verus!
