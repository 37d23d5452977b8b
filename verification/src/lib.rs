//! A small geometry library with verified fixed-point arithmetic.
//!
//! The crate models circles and squares over fixed-point coordinates,
//! computes their areas against an exact mathematical specification,
//! and offers both statically and dynamically dispatched descriptions
//! of a shape. A handful of verified fundamentals (`basics`) round the
//! crate out with small, fully specified helper functions.

pub mod basics;
pub mod builder;
pub mod shapes;
pub mod text;
