//! Arbitrary-precision signed integers, taken from the `num-bigint` crate.
//!
//! Every use of `BigInt` by the kernel goes through the small set of
//! wrappers below. Each wrapper's contract states, over the mathematical
//! value `big_value`, exactly what the wrapped operation computes.

use vstd::prelude::*;
use num_bigint::BigInt;

verus! {

#[verifier::external_type_specification]
#[verifier::external_body]
pub struct ExBigInt(BigInt);

/// The mathematical integer that a `BigInt` holds.
pub uninterp spec fn big_value(b: BigInt) -> int;

/// Relies on `BigInt: From<i64>` of num-bigint: the integer with that value.
#[verifier::external_body]
pub(crate) fn big_from_i64(v: i64) -> (r: BigInt)
    ensures
        big_value(r) == v as int,
{
    BigInt::from(v)
}

/// Relies on `Clone for BigInt` of num-bigint: an equal copy.
#[verifier::external_body]
pub(crate) fn big_clone(a: &BigInt) -> (r: BigInt)
    ensures
        big_value(r) == big_value(*a),
{
    a.clone()
}

/// Relies on `Add for &BigInt` of num-bigint: the exact sum.
#[verifier::external_body]
pub(crate) fn big_add(a: &BigInt, b: &BigInt) -> (r: BigInt)
    ensures
        big_value(r) == big_value(*a) + big_value(*b),
{
    a + b
}

/// Relies on `Sub for &BigInt` of num-bigint: the exact difference.
#[verifier::external_body]
pub(crate) fn big_sub(a: &BigInt, b: &BigInt) -> (r: BigInt)
    ensures
        big_value(r) == big_value(*a) - big_value(*b),
{
    a - b
}

/// Relies on `Mul for &BigInt` of num-bigint: the exact product.
#[verifier::external_body]
pub(crate) fn big_mul(a: &BigInt, b: &BigInt) -> (r: BigInt)
    ensures
        big_value(r) == big_value(*a) * big_value(*b),
{
    a * b
}

/// Relies on `Div for &BigInt` of num-bigint, which truncates the quotient
/// toward zero; on nonnegative operands that is the Euclidean quotient.
#[verifier::external_body]
pub(crate) fn big_div(a: &BigInt, b: &BigInt) -> (r: BigInt)
    requires
        big_value(*a) >= 0,
        big_value(*b) > 0,
    ensures
        big_value(r) == big_value(*a) / big_value(*b),
{
    a / b
}

/// Relies on `PartialEq for BigInt` of num-bigint: equality of values.
#[verifier::external_body]
pub(crate) fn big_eq(a: &BigInt, b: &BigInt) -> (r: bool)
    ensures
        r == (big_value(*a) == big_value(*b)),
{
    a == b
}

/// Relies on `Ord for BigInt` of num-bigint: order of values.
#[verifier::external_body]
pub(crate) fn big_lt(a: &BigInt, b: &BigInt) -> (r: bool)
    ensures
        r == (big_value(*a) < big_value(*b)),
{
    a < b
}

/// Relies on `BigInt::sqrt` of num-bigint (via `num_integer::Roots`): the
/// truncated principal square root, defined for nonnegative input.
#[verifier::external_body]
pub(crate) fn big_sqrt(a: &BigInt) -> (r: BigInt)
    requires
        big_value(*a) >= 0,
    ensures
        0 <= big_value(r),
        big_value(r) * big_value(r) <= big_value(*a),
        big_value(*a) < (big_value(r) + 1) * (big_value(r) + 1),
{
    a.sqrt()
}

} // verus!
