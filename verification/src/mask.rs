//! Sets of up to eight operations, one bit each.
use vstd::prelude::*;

verus! {

/// Every bit of `b` is set in `a`.
pub open spec fn covers(a: u8, b: u8) -> bool {
    a & b == b
}

/// Covering is an order: every mask covers itself, two masks that cover each
/// other are equal, and covering passes through a third mask.
pub proof fn law_covers_is_an_order(a: u8, b: u8, c: u8)
    ensures
        covers(a, a),
        covers(a, b) && covers(b, a) ==> a == b,
        covers(a, b) && covers(b, c) ==> covers(a, c),
{
    assert(a & a == a) by (bit_vector);
    assert(a & b == b && b & a == a ==> a == b) by (bit_vector);
    assert(a & b == b && b & c == c ==> a & c == c) by (bit_vector);
}

/// The union of two masks covers both, and every mask that covers both covers
/// their union.
pub proof fn law_union_is_least_cover(a: u8, b: u8, c: u8)
    ensures
        covers(a | b, a),
        covers(a | b, b),
        covers(c, a) && covers(c, b) ==> covers(c, a | b),
{
    assert((a | b) & a == a) by (bit_vector);
    assert((a | b) & b == b) by (bit_vector);
    assert(c & a == a && c & b == b ==> c & (a | b) == a | b) by (bit_vector);
}

/// A union asks for a single operation exactly when one of its sides does.
pub proof fn law_union_of_single(a: u8, b: u8, i: u8)
    requires
        i < 8,
    ensures
        covers(a | b, 1u8 << i) <==> covers(a, 1u8 << i) || covers(b, 1u8 << i),
{
    assert(i < 8 ==> ((a | b) & (1u8 << i) == 1u8 << i <==> a & (1u8 << i) == 1u8 << i || b & (
    1u8 << i) == 1u8 << i)) by (bit_vector);
}

/// A mask covers another exactly when the union with it adds nothing.
pub proof fn law_covered_adds_nothing(a: u8, b: u8)
    ensures
        covers(a, b) <==> a | b == a,
{
    assert(a & b == b <==> a | b == a) by (bit_vector);
}

/// Single operations are covered by the masks of everything: two, three, five
/// or six operations.
pub proof fn lemma_singles()
    ensures
        covers(3, 1) && covers(3, 2),
        covers(7, 1) && covers(7, 2) && covers(7, 4),
        covers(31, 1) && covers(31, 2) && covers(31, 4) && covers(31, 8) && covers(31, 16),
        covers(63, 1) && covers(63, 2) && covers(63, 4) && covers(63, 8) && covers(63, 16) && covers(
            63,
            32,
        ),
        covers(3, 3) && covers(7, 7) && covers(31, 31) && covers(63, 63),
{
    assert(3u8 & 1 == 1 && 3u8 & 2 == 2 && 3u8 & 3 == 3) by (bit_vector);
    assert(7u8 & 1 == 1 && 7u8 & 2 == 2 && 7u8 & 4 == 4 && 7u8 & 7 == 7) by (bit_vector);
    assert(31u8 & 1 == 1 && 31u8 & 2 == 2 && 31u8 & 4 == 4 && 31u8 & 8 == 8 && 31u8 & 16 == 16 && 31u8
        & 31 == 31) by (bit_vector);
    assert(63u8 & 1 == 1 && 63u8 & 2 == 2 && 63u8 & 4 == 4 && 63u8 & 8 == 8 && 63u8 & 16 == 16 && 63u8
        & 32 == 32 && 63u8 & 63 == 63) by (bit_vector);
}

} // verus!
