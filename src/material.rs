//! The rules by which materials scatter light.
use vstd::prelude::*;
use crate::scalar::{one_spec, zero_spec, Scalar, ONE_BITS};

verus! {

/// The fuzz of a metal, clamped to `[0, 1]`; a NaN counts as `1`.
pub open spec fn fuzz_of(f: Scalar) -> Scalar {
    f.min_spec(one_spec()).max_spec(zero_spec())
}

/// The fuzz a metal keeps of the one it was built with.
pub fn clamp_fuzz(fuzz: Scalar) -> (r: Scalar)
    ensures
        r == fuzz_of(fuzz),
        !r.is_nan_spec(),
        0 <= r.key() <= ONE_BITS,
        !fuzz.is_nan_spec() && 0 <= fuzz.key() <= ONE_BITS ==> r == fuzz,
        fuzz.key() > ONE_BITS || fuzz.is_nan_spec() ==> r == one_spec(),
        !fuzz.is_nan_spec() && fuzz.key() < 0 ==> r == zero_spec(),
{
    fuzz.min(&Scalar::one()).max(&Scalar::zero())
}

/// Whether a ray that meets glass is reflected rather than refracted: when
/// `ratio * sin(theta)` exceeds one, so that Snell's law has no solution
/// (total internal reflection), or when the Schlick reflectance exceeds a
/// uniform draw from `[0, 1)`.
pub fn dielectric_reflects(ratio_sin_theta: Scalar, reflectance: Scalar, draw: Scalar) -> (r: bool)
    ensures
        r == (one_spec().lt_spec(ratio_sin_theta) || draw.lt_spec(reflectance)),
{
    ratio_sin_theta.gt(&Scalar::one()) || reflectance.gt(&draw)
}

} // verus!
