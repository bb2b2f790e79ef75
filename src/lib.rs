//! Decision logic of a Monte Carlo ray tracer over spheres.
//!
//! A renderer built on this crate does its vector arithmetic in doubles and
//! hands the numbers that its choices depend on to the functions here, as
//! bit patterns (`Scalar`): which root of a sphere a ray meets, which sphere
//! of a scene is nearest, when a path of bounces ends, how a material
//! scatters, which random candidates a sampler keeps, and the text of the
//! image it writes.
pub mod hittable;
pub mod image;
pub mod integrator;
pub mod material;
pub mod sampling;
pub mod scalar;

pub use crate::hittable::{faces_front, nearest_hit, select_root, SphereRoots};
pub use crate::image::{format_color, ppm_header};
pub use crate::integrator::{Path, Surface, Terminal};
pub use crate::material::{clamp_fuzz, dielectric_reflects};
pub use crate::sampling::{in_hemisphere, in_unit_ball};
pub use crate::scalar::Scalar;
