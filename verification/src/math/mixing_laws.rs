//! Algebraic facts about the mixing steps of [`crate::math::random`].

use crate::math::random::{push_left, push_right, rotate, xor};
use vstd::prelude::*;

verus! {

/// The order of the operands of `xor` does not matter.
pub proof fn xor_commutes(a: u8, b: u8)
    by (bit_vector)
    ensures
        xor(a, b) == xor(b, a),
{
}

/// A byte combined with itself gives zero.
pub proof fn xor_cancels_itself(a: u8)
    by (bit_vector)
    ensures
        xor(a, a) == 0,
{
}

/// Combining with the same byte twice gives the first byte back.
pub proof fn xor_undoes_itself(a: u8, b: u8)
    by (bit_vector)
    ensures
        xor(xor(a, b), b) == a,
{
}

/// Three bytes may be combined in either grouping.
pub proof fn xor_associates(a: u8, b: u8, c: u8)
    by (bit_vector)
    ensures
        xor(xor(a, b), c) == xor(a, xor(b, c)),
{
}

/// `xor` is the bits set in either operand less the bits set in both, and
/// that difference never goes below zero.
pub proof fn xor_is_union_less_intersection(a: u8, b: u8)
    by (bit_vector)
    ensures
        (a | b) >= (a & b),
        xor(a, b) == (a | b) - (a & b),
{
}

/// Bit `i` of `rotate(b, n)` is bit `i + n` of `b`, counted round the byte.
pub proof fn rotate_moves_each_bit(b: u8, n: u8, i: u8)
    by (bit_vector)
    requires
        1 <= n < 8,
        i < 8,
    ensures
        (rotate(b, n) >> i) & 1 == (b >> ((i + n) % 8) as u8) & 1,
{
}

/// Rotating by `n` and then by `8 - n` gives the byte back.
pub proof fn rotate_undone_by_complement(b: u8, n: u8)
    by (bit_vector)
    requires
        1 <= n < 8,
    ensures
        rotate(rotate(b, n), (8 - n) as u8) == b,
        rotate(rotate(b, (8 - n) as u8), n) == b,
{
}

/// For a fixed `n`, two different bytes never rotate to the same byte.
pub proof fn rotate_is_injective(a: u8, b: u8, n: u8)
    requires
        1 <= n < 8,
        rotate(a, n) == rotate(b, n),
    ensures
        a == b,
{
    rotate_undone_by_complement(a, n);
    rotate_undone_by_complement(b, n);
}

/// For a fixed `n`, every byte is the rotation of some byte.
pub proof fn rotate_is_surjective(y: u8, n: u8)
    requires
        1 <= n < 8,
    ensures
        exists|x: u8| rotate(x, n) == y,
{
    rotate_undone_by_complement(y, n);
    assert(rotate(rotate(y, (8 - n) as u8), n) == y);
}

/// Taking the shifted copy of `val` back out of `push_left(val, change)`
/// leaves `change` combined with `val`.
pub proof fn push_left_without_shifted_copy(val: u8, change: u8)
    by (bit_vector)
    ensures
        xor(push_left(val, change), val << 1u8) == xor(change, val),
{
}

/// Taking the shifted copy of `val` back out of `push_right(val, change)`
/// leaves the lowest bit of `change`, moved to the top, combined with `val`.
pub proof fn push_right_without_shifted_copy(val: u8, change: u8)
    by (bit_vector)
    ensures
        xor(push_right(val, change), val >> 1u8) == xor(change << 7u8, val),
{
}

} // verus!
