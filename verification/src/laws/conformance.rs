//! The products of the library conform to the multiplication table of
//! the algebra.
//!
//! In an exact field, every geometric product of two elements stands
//! for the product of the multivectors that the two elements stand for,
//! every inner product for the part of that product whose grade is the
//! difference of the two grades, and every outer product for the part
//! whose grade is their sum.

pub mod linear;
pub mod plane;
pub mod space_geometric;
pub mod space_inner;
pub mod space_outer;
