//! Laws of the algebra: what holds of every element and every motor.
//!
//! Some laws hold of every scalar field, as the duality and the way the
//! geometric product is made of the inner and the outer product. The
//! others hold where the field's arithmetic is exact, and approximately
//! where it rounds: they are stated for a reading of the scalars as real
//! numbers, see [`exact`]. Those that speak of rotations assume exact
//! angles as well.

pub mod conformance;
pub mod duality;
pub mod exact;
pub mod incidence;
pub mod incidence3;
pub mod line_motors;
pub mod line_motors3;
pub mod line_points3;
pub mod motors;
pub mod motors3;
pub mod moved_points3;
pub mod norms;
pub mod parallels3;
pub mod plane_motors3;
pub mod plane_points3;
pub mod point_reflections;
pub mod point_reflections3;
pub mod points;
pub mod products;
pub mod quaternions;
pub mod reals;
pub mod reconstruction;
pub mod reflections;
pub mod roots3;
pub mod rotations;
pub mod rotations3;
pub mod roundtrip;
pub mod skew_lines3;
pub mod table;
pub mod translations3;
pub mod turns;
pub mod unit_norm;
pub mod vectors;
