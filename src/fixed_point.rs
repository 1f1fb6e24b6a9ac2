use soroban_fixed_point_math::FixedPoint;
use vstd::prelude::*;

verus! {

/// Fixed-point scale: seven decimal places, as the payout token uses.
pub const SCALAR_7: i128 = 10_000_000;

/// Whether an integer is representable as an `i128`.
pub open spec fn fits_i128(v: int) -> bool {
    i128::MIN <= v <= i128::MAX
}

/// `floor(x * y / z)` for a positive `z`, or `None` when the product `x * y`
/// leaves `i128`.
pub open spec fn mul_div_floor(x: int, y: int, z: int) -> Option<int>
    recommends
        z > 0,
{
    if fits_i128(x * y) {
        Some(x * y / z)
    } else {
        None
    }
}

/// Relies on `FixedPoint::fixed_mul_floor` for `i128` of soroban-fixed-point-math:
/// `checked_mul` of the two factors, then a division that rounds toward negative
/// infinity; `None` exactly when the product overflows (the divisor is positive).
#[verifier::external_body]
pub(crate) fn fixed_mul_floor(x: i128, y: i128, denominator: i128) -> (r: Option<i128>)
    requires
        denominator > 0,
    ensures
        r matches Some(v) ==> mul_div_floor(x as int, y as int, denominator as int) == Some(v as int),
        r is None ==> mul_div_floor(x as int, y as int, denominator as int) is None,
{
    x.fixed_mul_floor(y, denominator)
}

/// Relies on `FixedPoint::fixed_div_floor` for `i128` of soroban-fixed-point-math:
/// `floor(x * denominator / y)`, computed as `fixed_mul_floor(x, denominator, y)`;
/// `None` exactly when `x * denominator` overflows (the divisor `y` is positive).
#[verifier::external_body]
pub(crate) fn fixed_div_floor(x: i128, y: i128, denominator: i128) -> (r: Option<i128>)
    requires
        y > 0,
    ensures
        r matches Some(v) ==> mul_div_floor(x as int, denominator as int, y as int) == Some(v as int),
        r is None ==> mul_div_floor(x as int, denominator as int, y as int) is None,
{
    x.fixed_div_floor(y, denominator)
}

} // verus!
