//! Athena is math crate tailored for game engines, rendering and physics simulations.
//!
//! Its core is projective geometric algebra for two and three dimensions:
//! the graded elements, the points, lines and planes that they stand
//! for, and the motors that move them. The algebra is written over an
//! abstract scalar field, [`Num`]. Every operation states which
//! expression of the field's operations it computes, so that what is
//! proved here holds for any field that implements the trait; what holds
//! only where the field's arithmetic is exact is proved under [`laws`].

pub mod laws;
pub mod matrix;
pub mod nodes;
pub mod pga;
pub mod scalar;
pub mod value;
pub mod vector;

pub use matrix::Matrix;
pub use pga::{Line2, Line3, Motor2, Motor3, Plane3, Point2, Point3};
pub use scalar::Num;
pub use vector::Vector;
