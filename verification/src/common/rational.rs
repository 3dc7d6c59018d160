//! Frame rates are fractions of the `num-rational` crate. The library makes
//! them from the numerator and denominator the host reports, and otherwise
//! carries them through without reading them.

use vstd::prelude::*;
use num_rational::Rational32;

verus! {

/// The fraction type of `num-rational`, which the library only carries.
#[verifier::external_type_specification]
#[verifier::external_body]
#[verifier::reject_recursive_types(T)]
pub struct ExRatio<T>(num_rational::Ratio<T>);

/// The fraction that `Ratio::new` makes of a numerator and a denominator:
/// the same value in lowest terms, with a positive denominator.
pub uninterp spec fn reduced_fraction(numer: i32, denom: i32) -> Rational32;

/// Whether `Ratio::<i32>::new` accepts a numerator and a denominator: the
/// denominator is not zero, and the reduced fraction can be given a positive
/// denominator by negating both parts, which fails only for `i32::MIN`
/// over an odd negative number and for an odd number over `i32::MIN`.
pub open spec fn fraction_parts_ok(numer: i32, denom: i32) -> bool {
    &&& denom != 0
    &&& !(denom < 0 && numer == i32::MIN && denom % 2 != 0)
    &&& !(denom == i32::MIN && numer % 2 != 0)
}

/// Makes a fraction with `num_rational::Ratio::<i32>::new`, which reduces it
/// to lowest terms with a positive denominator; the result is the name
/// [`reduced_fraction`] of the two parts. The function panics on a zero
/// denominator and when negating a part of the reduced fraction overflows;
/// `requires` leaves both out.
#[verifier::external_body]
pub(crate) fn new_fraction(numer: i32, denom: i32) -> (r: Rational32)
    requires
        fraction_parts_ok(numer, denom),
    ensures
        r == reduced_fraction(numer, denom),
{
    Rational32::new(numer, denom)
}

} // verus!
