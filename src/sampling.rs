//! Acceptance rules of the random samplers.
//!
//! The samplers draw candidates from a random source until one passes; the
//! draws are the caller's, the tests are here.
use vstd::prelude::*;
use crate::scalar::{one_spec, zero_spec, Scalar, ONE_BITS};

verus! {

/// Whether a candidate drawn from the cube `[-1, 1]^3` (or the square, for the
/// lens disk) lies strictly inside the unit ball, judged by its squared length.
pub fn in_unit_ball(length_squared: Scalar) -> (r: bool)
    ensures
        r == length_squared.lt_spec(one_spec()),
        r ==> !length_squared.is_nan_spec() && length_squared.key() < ONE_BITS,
{
    length_squared.lt(&Scalar::one())
}

/// Whether a point of the unit ball already lies in the hemisphere around a
/// normal (`point . normal > 0`); otherwise the sampler takes its opposite.
pub fn in_hemisphere(point_dot_normal: Scalar) -> (r: bool)
    ensures
        r == zero_spec().lt_spec(point_dot_normal),
{
    point_dot_normal.gt(&Scalar::zero())
}

} // verus!
