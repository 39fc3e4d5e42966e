use cgtm_geometry::bspline::BSpline;
use cgtm_geometry::bspline_approximation::BSplineApproximation;
use cgtm_geometry::bspline_data_knots::BSplineDataKnotsAlgo;
use cgtm_geometry::bspline_error::{BSplineApproximationError, BSplineError, BSplineKnotsGenError};
use cgtm_geometry::bspline_knots::{BSplineFeature, BSplineKnot, BSplineKnots};
use cgtm_geometry::bspline_knots_gen::BSplineKnotsAlgo;
use cgtm_geometry::point::{BSplinePole, Point3};

fn pt(x: f32, y: f32, z: f32) -> Point3 {
    Point3 { x: x.to_bits(), y: y.to_bits(), z: z.to_bits() }
}

fn fx(b: u32) -> f32 {
    f32::from_bits(b)
}

fn knot(value: f32, multiplicity: usize) -> BSplineKnot {
    BSplineKnot { value: value.to_bits(), multiplicity }
}

fn pole(x: f32, y: f32, z: f32) -> BSplinePole {
    BSplinePole { pole: pt(x, y, z), weight: 1f32.to_bits() }
}

fn close(b: u32, want: f32, tol: f32) -> bool {
    (fx(b) - want).abs() <= tol
}

/// The degree-2 clamped curve with six unit-weight poles over the knots
/// (0,3),(0.25,1),(0.5,1),(0.75,1),(1,3).
fn clamped_curve() -> BSpline {
    let poles = vec![
        pole(0., 0., 0.),
        pole(0., 2., 0.),
        pole(1., 2., 0.),
        pole(3., 0., 0.),
        pole(4., 0., 0.),
        pole(4., 2., 0.),
    ];
    let knots = vec![
        knot(0., 3),
        knot(0.25, 1),
        knot(0.5, 1),
        knot(0.75, 1),
        knot(1., 3),
    ];
    BSpline {
        degree: 2,
        knots: BSplineKnots::try_new(knots, 2, poles.len(), false).unwrap(),
        poles,
        is_periodic: false,
        use_rational: false,
    }
}

/// A degree-2 periodic curve over four poles with unit multiplicities.
fn periodic_curve() -> BSpline {
    let poles = vec![
        pole(0., 0., 0.),
        pole(1., 0., 0.),
        pole(1., 1., 0.),
        pole(0., 1., 0.),
    ];
    let knots = vec![
        knot(0., 1),
        knot(0.25, 1),
        knot(0.5, 1),
        knot(0.75, 1),
        knot(1., 1),
    ];
    BSpline {
        degree: 2,
        knots: BSplineKnots::try_new(knots, 2, poles.len(), true).unwrap(),
        poles,
        is_periodic: true,
        use_rational: false,
    }
}

#[test]
fn derivate_1() {
    let bspline = clamped_curve();

    let lower = bspline.lower_parameter();
    let upper = bspline.upper_parameter();
    let d = fx(upper) - fx(lower);
    let u = (d * 0.5 + fx(lower)).to_bits();

    let p = bspline.derivate_n(u, 1);
    assert_eq!(p, pt(8., -8., 0.));
    let p = bspline.derivate_n(u, 2);
    assert_eq!(p, pt(16., -32., 0.));
}

#[test]
fn endpoint_interpolation() {
    let bspline = clamped_curve();
    let lower = bspline.lower_parameter();
    let upper = bspline.upper_parameter();
    let start = bspline.interop(lower);
    let end = bspline.interop(upper);
    assert_eq!(start, pt(0., 0., 0.));
    assert_eq!(end, pt(4., 2., 0.));
}

#[test]
fn partition_of_unity_clamped() {
    // The order-0 indicator is half-open, so the upper domain boundary
    // itself carries no basis support; parameters stay strictly below it.
    let bspline = clamped_curve();
    for u in [0.0f32, 0.1, 0.3, 0.5, 0.77, 0.999] {
        let coe = bspline.coefficients(u.to_bits());
        assert_eq!(coe.len(), 6);
        let sum: f32 = coe.iter().map(|&c| fx(c)).sum();
        assert!((sum - 1.0).abs() < 1e-5, "sum at {} was {}", u, sum);
    }
}

#[test]
fn partition_of_unity_periodic() {
    // Coefficient indexing does not wrap into the seam padding, so the
    // parameters stay at least `degree` spans above the seam.
    let bspline = periodic_curve();
    for u in [0.5f32, 0.6, 0.75, 0.9] {
        let coe = bspline.coefficients(u.to_bits());
        assert_eq!(coe.len(), 4);
        let sum: f32 = coe.iter().map(|&c| fx(c)).sum();
        assert!((sum - 1.0).abs() < 1e-5, "sum at {} was {}", u, sum);
    }
}

#[test]
fn derivative_above_degree_is_zero() {
    let bspline = clamped_curve();
    let p = bspline.derivate_n(0.5f32.to_bits(), 3);
    assert_eq!(p, pt(0., 0., 0.));
    let p = bspline.derivate_n(0.1f32.to_bits(), 7);
    assert_eq!(p, pt(0., 0., 0.));
}

#[test]
fn periodic_seam_continuity() {
    let bspline = periodic_curve();
    let lower = bspline.lower_parameter();
    let upper = bspline.upper_parameter();
    let a = bspline.interop(lower);
    let b = bspline.interop(upper);
    assert!(close(a.x, fx(b.x), 1e-5));
    assert!(close(a.y, fx(b.y), 1e-5));
    assert!(close(a.z, fx(b.z), 1e-5));
}

#[test]
fn approximation_round_trip() {
    let source = clamped_curve();
    let m = 6usize;
    let params: Vec<f32> = (0..m).map(|i| (i + 1) as f32 / m as f32).collect();
    let data: Vec<Point3> = params.iter().map(|&u| source.interop(u.to_bits())).collect();

    let task = BSplineApproximation {
        degree: 2,
        nb_poles: m,
        feature: BSplineFeature::ClampAll,
        knots_algo: BSplineKnotsAlgo::Uniform(m),
        data_knots_algo: BSplineDataKnotsAlgo::Uniform,
    };
    let fitted = task.try_approximate(&data).unwrap();
    assert_eq!(fitted.degree, 2);
    assert!(!fitted.is_periodic);
    assert!(!fitted.use_rational);
    assert_eq!(fitted.poles.len(), m);

    for k in 1..m {
        let got = fitted.interop(params[k].to_bits());
        assert!(close(got.x, fx(data[k].x), 1e-3), "x at {}", k);
        assert!(close(got.y, fx(data[k].y), 1e-3), "y at {}", k);
        assert!(close(got.z, fx(data[k].z), 1e-3), "z at {}", k);
    }
}

#[test]
fn count_mismatch_rejected() {
    let knots = vec![knot(0., 2), knot(1., 2)];
    let r = BSplineKnots::try_new(knots, 2, 2, false);
    assert!(matches!(r, Err(BSplineError::KnotsNumberNotMatch)));
}

#[test]
fn too_few_knots_rejected() {
    let knots = vec![knot(0., 3)];
    let r = BSplineKnots::try_new(knots, 2, 4, false);
    assert!(matches!(r, Err(BSplineError::TooFewKnots)));
}

#[test]
fn too_few_poles_rejected() {
    let knots = vec![knot(0., 3), knot(1., 3)];
    let r = BSplineKnots::try_new(knots, 2, 1, false);
    assert!(matches!(r, Err(BSplineError::TooFewPoles)));
}

#[test]
fn multiplicity_over_degree_rejected() {
    let knots = vec![knot(0., 4), knot(1., 3)];
    let r = BSplineKnots::try_new(knots, 2, 4, false);
    assert!(matches!(r, Err(BSplineError::MultiplicityOverDegree)));
}

#[test]
fn non_increasing_values_rejected() {
    let knots = vec![knot(0., 3), knot(0., 3)];
    let r = BSplineKnots::try_new(knots, 2, 3, false);
    assert!(matches!(r, Err(BSplineError::MultiplicityOverDegree)));
}

#[test]
fn periodic_edge_mismatch_rejected() {
    let knots = vec![knot(0., 1), knot(0.5, 2), knot(1., 2)];
    let r = BSplineKnots::try_new(knots, 2, 4, true);
    assert!(matches!(r, Err(BSplineError::PeriodicEdgeNotMatch)));
}

#[test]
fn periodic_count_mismatch_rejected() {
    let knots = vec![knot(0., 1), knot(0.5, 1), knot(1., 1)];
    let r = BSplineKnots::try_new(knots, 2, 5, true);
    assert!(matches!(r, Err(BSplineError::KnotsNumberNotMatch)));
}

#[test]
fn uniform_generator_values() {
    let model = BSplineKnots::try_build(2, &BSplineKnotsAlgo::Uniform(6), BSplineFeature::ClampAll)
        .unwrap();
    let ks = &model.knots;
    assert_eq!(ks.len(), 5);
    assert_eq!((fx(ks[0].value), ks[0].multiplicity), (0.0, 3));
    assert_eq!((fx(ks[1].value), ks[1].multiplicity), (0.25, 1));
    assert_eq!((fx(ks[2].value), ks[2].multiplicity), (0.5, 1));
    assert_eq!((fx(ks[3].value), ks[3].multiplicity), (0.75, 1));
    assert_eq!((fx(ks[4].value), ks[4].multiplicity), (1.0, 3));
    assert_eq!(model.n_extend, 0);
    assert_eq!(fx(model.lower_value()), 0.0);
    assert_eq!(fx(model.upper_value()), 1.0);
}

#[test]
fn uniform_generator_too_few_poles() {
    let r = BSplineKnots::try_build(3, &BSplineKnotsAlgo::Uniform(2), BSplineFeature::ClampAll);
    assert!(matches!(r, Err(BSplineKnotsGenError::TooFewPoles)));
}

#[test]
fn universal_generator_values() {
    let model = BSplineKnots::try_build(2, &BSplineKnotsAlgo::Universal(5), BSplineFeature::ClampAll)
        .unwrap();
    let ks = &model.knots;
    assert_eq!(ks.len(), 4);
    assert_eq!(fx(ks[1].value), 0.25);
    assert_eq!(fx(ks[2].value), 0.5);
    assert_eq!(ks[0].multiplicity, 3);
    assert_eq!(ks[3].multiplicity, 3);
}

#[test]
fn universal_generator_rejects_interior_collision() {
    // With a regular (unclamped) feature the last interior knot of the
    // pole-count-weighted spacing lands exactly on the end knot, so the
    // generated sequence fails the strictly-increasing validation.
    let r = BSplineKnots::try_build(2, &BSplineKnotsAlgo::Universal(4), BSplineFeature::Regular);
    assert!(matches!(
        r,
        Err(BSplineKnotsGenError::BSplineErr(BSplineError::MultiplicityOverDegree)),
    ));
}

#[test]
fn periodic_generator_extends_flatten() {
    let model = BSplineKnots::try_build(2, &BSplineKnotsAlgo::Uniform(2), BSplineFeature::Periodic(2))
        .unwrap();
    assert_eq!(model.n_extend, 1);
    let flat: Vec<f32> = model.flatten.iter().map(|&b| fx(b)).collect();
    assert_eq!(flat, vec![-1.0, 0.0, 0.0, 1.0, 1.0, 2.0]);
}

#[test]
fn de_boor_strategy_unsupported() {
    let params = vec![0f32.to_bits(), 1f32.to_bits()];
    let r = BSplineKnots::try_build(2, &BSplineKnotsAlgo::DeBoor(params), BSplineFeature::ClampAll);
    assert!(matches!(r, Err(BSplineKnotsGenError::Unsupported)));
}

#[test]
fn approximation_rejects_periodic() {
    let task = BSplineApproximation {
        degree: 2,
        nb_poles: 4,
        feature: BSplineFeature::Periodic(2),
        knots_algo: BSplineKnotsAlgo::Uniform(4),
        data_knots_algo: BSplineDataKnotsAlgo::Uniform,
    };
    let data = vec![pt(0., 0., 0.), pt(1., 0., 0.), pt(2., 1., 0.)];
    let r = task.try_approximate(&data);
    assert!(matches!(r, Err(BSplineApproximationError::NotAllowPeriodic)));
}

#[test]
fn approximation_solver_failure_on_rank_deficiency() {
    let task = BSplineApproximation {
        degree: 2,
        nb_poles: 4,
        feature: BSplineFeature::ClampAll,
        knots_algo: BSplineKnotsAlgo::Uniform(4),
        data_knots_algo: BSplineDataKnotsAlgo::Uniform,
    };
    let data = vec![pt(0., 0., 0.), pt(1., 0., 0.), pt(2., 0., 0.)];
    let r = task.try_approximate(&data);
    assert!(matches!(r, Err(BSplineApproximationError::SolverFailure)));
}

#[test]
fn uniform_parameterization_values() {
    let data = vec![pt(0., 0., 0.), pt(5., 0., 0.), pt(6., 0., 0.), pt(9., 0., 0.)];
    let params = BSplineDataKnotsAlgo::Uniform.generate(&data);
    let got: Vec<f32> = params.iter().map(|&b| fx(b)).collect();
    assert_eq!(got, vec![0.25, 0.5, 0.75, 1.0]);
}

#[test]
fn chord_length_parameterization_values() {
    let data = vec![pt(0., 0., 0.), pt(1., 0., 0.), pt(3., 0., 0.)];
    let params = BSplineDataKnotsAlgo::ChordLength.generate(&data);
    assert_eq!(fx(params[0]), 0.0);
    assert_eq!(fx(params[1]), 1.0f32 / 3.0f32);
    assert_eq!(fx(params[2]), 1.0);
}

#[test]
fn centripetal_parameterization_values() {
    let data = vec![pt(0., 0., 0.), pt(4., 0., 0.), pt(8., 0., 0.)];
    let params = BSplineDataKnotsAlgo::Centripetal.generate(&data);
    assert_eq!(fx(params[0]), 0.0);
    assert_eq!(fx(params[1]), 0.5);
    assert_eq!(fx(params[2]), 1.0);
}

#[test]
fn distance_uses_square_root() {
    let d = pt(0., 0., 0.).distance(pt(3., 4., 0.));
    assert!(close(d, 5.0, 1e-4));
}

#[test]
fn rational_evaluation_weights_poles() {
    let knots = vec![knot(0., 2), knot(1., 2)];
    let poles = vec![
        BSplinePole { pole: pt(0., 0., 0.), weight: 1f32.to_bits() },
        BSplinePole { pole: pt(1., 0., 0.), weight: 3f32.to_bits() },
    ];
    let curve = BSpline {
        degree: 1,
        knots: BSplineKnots::try_new(knots, 1, poles.len(), false).unwrap(),
        poles,
        is_periodic: false,
        use_rational: true,
    };
    let p = curve.interop(0.5f32.to_bits());
    assert_eq!(fx(p.x), 0.75);
    assert_eq!(fx(p.y), 0.0);
}

#[test]
fn flat_index_counts_occurrences() {
    let curve = clamped_curve();
    let idx = curve.knots.get_flat_index(0.6f32.to_bits());
    assert_eq!(idx, 4);
}

#[test]
fn clamp_start_feature_bounds() {
    let model = BSplineKnots::try_build(2, &BSplineKnotsAlgo::Uniform(5), BSplineFeature::ClampStart)
        .unwrap();
    assert_eq!(fx(model.lower_value()), 0.0);
    assert_eq!(fx(model.upper_value()), 0.75);
}

#[test]
fn out_of_domain_parameters_are_clamped_not_rejected() {
    let bspline = clamped_curve();
    let below = bspline.interop((-1.0f32).to_bits());
    let above = bspline.interop(5.0f32.to_bits());
    assert_eq!(fx(below.z), 0.0);
    assert_eq!(fx(above.z), 0.0);
}

#[test]
fn periodic_derivative_degenerates_to_zero() {
    // With a unit seam multiplicity the reduction window outruns the
    // unextended flattened knots, so the reduction is reported as the zero
    // vector rather than reading out of bounds.
    let bspline = periodic_curve();
    let p = bspline.derivate_n(0.5f32.to_bits(), 1);
    assert_eq!(p, pt(0., 0., 0.));
}

#[test]
fn error_messages_name_the_invariant() {
    assert_eq!(BSplineError::TooFewKnots.message(), "Knots should be greater than 2.");
    assert_eq!(BSplineError::TooFewPoles.message(), "Poles should be greater than 2.");
    // This variant covers two invariants (the multiplicity bound and the
    // strictly-increasing values), so its message names both.
    assert_eq!(
        BSplineError::MultiplicityOverDegree.message(),
        "Multiplicity should be less or equal `degree` (if non-periodic, first and last could be `degree+1`), and knot values should be strictly increasing.",
    );
    assert_eq!(
        BSplineKnotsGenError::TooFewPoles.message(),
        "Too few poles to generate knots.",
    );
    assert_eq!(
        BSplineApproximationError::NotAllowPeriodic.message(),
        "Not allow to approximate periodic bspline.",
    );
}
