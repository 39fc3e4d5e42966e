//! Rational and non-rational B-spline curves in three dimensions.
//!
//! Scalars are IEEE 754 single-precision values carried as their raw bit
//! patterns (`u32`); every arithmetic step goes through a small set of
//! trusted operations backed by a software floating-point implementation.
//! The structure of every algorithm — validation, index computation,
//! windowing, the de Boor and Cox–de Boor recursions, knot generation,
//! data parameterization and the least-squares fit — is verified, and each
//! public function's contract pins its result over spec-level mirrors of
//! the named scalar operations.

pub mod scalar;
pub mod point;
pub mod linsolve;
pub mod bspline_error;
pub mod bspline_knots;
pub mod bspline_knots_gen;
pub mod utils;
pub mod bspline;
pub mod bspline_data_knots;
pub mod bspline_approximation;
