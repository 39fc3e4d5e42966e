//! Structural, generation and approximation errors.
//!
//! All errors are local validation failures, raised at construction time and
//! propagated to the caller; none is transient and none is recovered
//! internally. Each carries a message naming the violated invariant.

use vstd::prelude::*;

verus! {

/// A structural error of a knot model.
#[derive(Debug, Clone, Copy, PartialEq, Eq, Structural)]
pub enum BSplineError {
    /// Fewer than two knots were supplied.
    TooFewKnots,
    /// Fewer than two poles were supplied.
    TooFewPoles,
    /// A multiplicity exceeds its bound, or the knot values do not increase.
    MultiplicityOverDegree,
    /// A periodic model whose first and last multiplicities differ.
    PeriodicEdgeNotMatch,
    /// The multiplicities do not sum to what the pole count and degree ask.
    KnotsNumberNotMatch,
}

/// An error of knot generation.
#[derive(Debug, Clone, Copy, PartialEq, Eq, Structural)]
pub enum BSplineKnotsGenError {
    /// The generated knots failed structural validation.
    BSplineErr(BSplineError),
    /// Too few poles for the requested boundary multiplicities.
    TooFewPoles,
    /// The requested generation strategy is not supported.
    Unsupported,
}

/// An error of curve approximation.
#[derive(Debug, Clone, Copy, PartialEq, Eq, Structural)]
pub enum BSplineApproximationError {
    /// Knot generation failed.
    BSplineKnotsGeneration(BSplineKnotsGenError),
    /// Approximation supports open curves only.
    NotAllowPeriodic,
    /// The least-squares system could not be solved within tolerance.
    SolverFailure,
}

impl BSplineError {
    /// The invariant this error names, as text.
    pub fn message(&self) -> (r: &'static str)
        ensures
            r@ == match *self {
                BSplineError::TooFewKnots => "Knots should be greater than 2."@,
                BSplineError::TooFewPoles => "Poles should be greater than 2."@,
                BSplineError::MultiplicityOverDegree => "Multiplicity should be less or equal `degree` (if non-periodic, first and last could be `degree+1`), and knot values should be strictly increasing."@,
                BSplineError::PeriodicEdgeNotMatch => "When periodic, multiplicity of first and last should be equal."@,
                BSplineError::KnotsNumberNotMatch => "When non-periodic, knots number should be poles number + degree + 1. When periodic, knots number - last multiplicity = poles number."@,
            },
    {
        match self {
            BSplineError::TooFewKnots => "Knots should be greater than 2.",
            BSplineError::TooFewPoles => "Poles should be greater than 2.",
            BSplineError::MultiplicityOverDegree => "Multiplicity should be less or equal `degree` (if non-periodic, first and last could be `degree+1`), and knot values should be strictly increasing.",
            BSplineError::PeriodicEdgeNotMatch => "When periodic, multiplicity of first and last should be equal.",
            BSplineError::KnotsNumberNotMatch => "When non-periodic, knots number should be poles number + degree + 1. When periodic, knots number - last multiplicity = poles number.",
        }
    }
}

impl BSplineKnotsGenError {
    /// The failure this error names, as text.
    pub fn message(&self) -> (r: &'static str)
        ensures
            r@ == match *self {
                BSplineKnotsGenError::BSplineErr(BSplineError::TooFewKnots) => "Knots should be greater than 2."@,
                BSplineKnotsGenError::BSplineErr(BSplineError::TooFewPoles) => "Poles should be greater than 2."@,
                BSplineKnotsGenError::BSplineErr(BSplineError::MultiplicityOverDegree) => "Multiplicity should be less or equal `degree` (if non-periodic, first and last could be `degree+1`), and knot values should be strictly increasing."@,
                BSplineKnotsGenError::BSplineErr(BSplineError::PeriodicEdgeNotMatch) => "When periodic, multiplicity of first and last should be equal."@,
                BSplineKnotsGenError::BSplineErr(BSplineError::KnotsNumberNotMatch) => "When non-periodic, knots number should be poles number + degree + 1. When periodic, knots number - last multiplicity = poles number."@,
                BSplineKnotsGenError::TooFewPoles => "Too few poles to generate knots."@,
                BSplineKnotsGenError::Unsupported => "The requested knot generation strategy is not supported."@,
            },
    {
        match self {
            BSplineKnotsGenError::BSplineErr(e) => e.message(),
            BSplineKnotsGenError::TooFewPoles => "Too few poles to generate knots.",
            BSplineKnotsGenError::Unsupported => "The requested knot generation strategy is not supported.",
        }
    }
}

impl BSplineApproximationError {
    /// The failure this error names, as text.
    pub fn message(&self) -> (r: &'static str)
        ensures
            r@ == match *self {
                BSplineApproximationError::BSplineKnotsGeneration(BSplineKnotsGenError::BSplineErr(BSplineError::TooFewKnots)) => "Knots should be greater than 2."@,
                BSplineApproximationError::BSplineKnotsGeneration(BSplineKnotsGenError::BSplineErr(BSplineError::TooFewPoles)) => "Poles should be greater than 2."@,
                BSplineApproximationError::BSplineKnotsGeneration(BSplineKnotsGenError::BSplineErr(BSplineError::MultiplicityOverDegree)) => "Multiplicity should be less or equal `degree` (if non-periodic, first and last could be `degree+1`), and knot values should be strictly increasing."@,
                BSplineApproximationError::BSplineKnotsGeneration(BSplineKnotsGenError::BSplineErr(BSplineError::PeriodicEdgeNotMatch)) => "When periodic, multiplicity of first and last should be equal."@,
                BSplineApproximationError::BSplineKnotsGeneration(BSplineKnotsGenError::BSplineErr(BSplineError::KnotsNumberNotMatch)) => "When non-periodic, knots number should be poles number + degree + 1. When periodic, knots number - last multiplicity = poles number."@,
                BSplineApproximationError::BSplineKnotsGeneration(BSplineKnotsGenError::TooFewPoles) => "Too few poles to generate knots."@,
                BSplineApproximationError::BSplineKnotsGeneration(BSplineKnotsGenError::Unsupported) => "The requested knot generation strategy is not supported."@,
                BSplineApproximationError::NotAllowPeriodic => "Not allow to approximate periodic bspline."@,
                BSplineApproximationError::SolverFailure => "The least-squares system has no solution within tolerance."@,
            },
    {
        match self {
            BSplineApproximationError::BSplineKnotsGeneration(e) => e.message(),
            BSplineApproximationError::NotAllowPeriodic => "Not allow to approximate periodic bspline.",
            BSplineApproximationError::SolverFailure => "The least-squares system has no solution within tolerance.",
        }
    }
}

} // verus!
