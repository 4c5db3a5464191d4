//! The numeric constants of the value type, as `num_traits` gives them.

use vstd::prelude::*;

verus! {

/// `num_traits::Zero::zero` for `i64`: the additive identity, which is 0.
#[verifier::external_body]
pub(crate) fn zero() -> (r: i64)
    ensures
        r == 0,
{
    <i64 as num_traits::Zero>::zero()
}

/// `num_traits::One::one` for `i64`: the multiplicative identity, which is 1.
#[verifier::external_body]
pub(crate) fn one() -> (r: i64)
    ensures
        r == 1,
{
    <i64 as num_traits::One>::one()
}

/// `num_traits::Bounded::min_value` for `i64`: the smallest `i64`.
#[verifier::external_body]
pub(crate) fn min_value() -> (r: i64)
    ensures
        r == i64::MIN,
{
    <i64 as num_traits::Bounded>::min_value()
}

/// `num_traits::Bounded::max_value` for `i64`: the largest `i64`.
#[verifier::external_body]
pub(crate) fn max_value() -> (r: i64)
    ensures
        r == i64::MAX,
{
    <i64 as num_traits::Bounded>::max_value()
}

} // verus!
