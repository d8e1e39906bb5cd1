//! Contains the geometric algebra.

pub mod elements;
pub mod line;
pub mod motor;
pub mod plane;
pub mod point;

pub use line::{Line2, Line3};
pub use motor::{Motor2, Motor3};
pub use plane::Plane3;
pub use point::{Point2, Point3};
