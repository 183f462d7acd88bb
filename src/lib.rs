//! The point/vector rules of homogeneous 4-tuples `(x, y, z, w)`, taken at
//! the level of kinds.
//!
//! A tuple's fourth component, its weight, says what it stands for: one for a
//! point, zero for a vector. `Kind` models that weight as an integer and
//! states what each operation does to it: the sum of a point and a vector is
//! a point, the difference of two points a vector, the sum of two points has
//! no kind, and a cross product exists between vectors only. The components
//! themselves are not modelled here.
pub mod kind;

pub use kind::Kind;
