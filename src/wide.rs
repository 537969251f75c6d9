//! Products and quotients of 128-bit amounts, taken in 256-bit arithmetic.

use vstd::prelude::*;

verus! {

/// The largest value of a `u128`, as a mathematical integer.
pub open spec fn u128_max() -> int {
    0xffff_ffff_ffff_ffff_ffff_ffff_ffff_ffff
}

/// `floor(a * b / (c + d))`, where neither the product nor the divisor need
/// fit in 128 bits.
pub open spec fn mul_div_spec(a: int, b: int, c: int, d: int) -> int {
    (a * b) / (c + d)
}

/// Relies on primitive_types::U256 (built by uint's `construct_uint!`): `From<u128>`,
/// `Add`, `Mul` and `Div` are exact on 256-bit values and panic only on
/// overflow or a zero divisor; `TryFrom<U256> for u128` fails exactly when the
/// value exceeds `u128::MAX`.  Two 128-bit factors and a sum of two 128-bit
/// terms never overflow 256 bits.
#[verifier::external_body]
pub(crate) fn mul_div(a: u128, b: u128, c: u128, d: u128) -> (r: Option<u128>)
    requires
        c + d > 0,
    ensures
        mul_div_spec(a as int, b as int, c as int, d as int) <= u128_max() ==> r == Some(
            mul_div_spec(a as int, b as int, c as int, d as int) as u128,
        ),
        mul_div_spec(a as int, b as int, c as int, d as int) > u128_max() ==> r.is_none(),
{
    let q = primitive_types::U256::from(a) * primitive_types::U256::from(b) / (
    primitive_types::U256::from(c) + primitive_types::U256::from(d));
    u128::try_from(q).ok()
}

} // verus!
