//! Knot generators: evenly spaced and pole-count-weighted interior knots
//! on the unit interval, delegated to knot-model construction.

use vstd::prelude::*;
use crate::bspline_error::{BSplineError, BSplineKnotsGenError};
use crate::bspline_knots::{built_model_ok, check_spec, BSplineFeature, BSplineKnot, BSplineKnots};
use crate::scalar::{div_bits, mul_bits, usize_bits, sc_div, sc_from_usize, sc_mul, ONE_BITS, ZERO_BITS};

verus! {

/// A knot generation strategy.
#[derive(Debug, Clone)]
pub enum BSplineKnotsAlgo {
    /// Knots derived from externally supplied parameter values.
    DeBoor(Vec<u32>),
    /// Evenly spaced interior knots; the payload is the pole count.
    Uniform(usize),
    /// Interior knots scaled by the pole count; the payload is the pole
    /// count.
    Universal(usize),
}

/// The boundary multiplicities, periodicity and total knot budget a
/// feature asks for.
pub open spec fn feature_bounds(degree: usize, nb_poles: usize, feature: BSplineFeature) -> (nat, nat, bool, nat) {
    match feature {
        BSplineFeature::Periodic(s) => (s as nat, s as nat, true, (2 * nb_poles) as nat),
        BSplineFeature::Regular => (degree as nat, degree as nat, false, (degree + nb_poles + 1) as nat),
        BSplineFeature::ClampStart => ((degree + 1) as nat, degree as nat, false, (degree + nb_poles + 1) as nat),
        BSplineFeature::ClampEnd => (degree as nat, (degree + 1) as nat, false, (degree + nb_poles + 1) as nat),
        BSplineFeature::ClampAll => ((degree + 1) as nat, (degree + 1) as nat, false, (degree + nb_poles + 1) as nat),
    }
}

/// The value of the `i`-th interior knot: `(i+1) * scale` for the evenly
/// spaced strategy, `(i+1) / scale` for the pole-count-weighted one.
pub open spec fn gen_mid_val(universal: bool, i: int, scale: u32) -> u32 {
    if universal {
        div_bits(usize_bits((i + 1) as usize), scale)
    } else {
        mul_bits(usize_bits((i + 1) as usize), scale)
    }
}

/// The generated knot sequence: zero with the first boundary multiplicity,
/// `mid` interior knots, one with the last boundary multiplicity.
pub open spec fn gen_knot_seq(universal: bool, mid: int, scale: u32, first: usize, last: usize) -> Seq<BSplineKnot> {
    seq![BSplineKnot { value: ZERO_BITS, multiplicity: first }]
        + Seq::new(mid as nat, |i: int| BSplineKnot { value: gen_mid_val(universal, i, scale), multiplicity: 1 })
        + seq![BSplineKnot { value: ONE_BITS, multiplicity: last }]
}

/// The scale the strategy divides or multiplies by.
pub open spec fn gen_scale(universal: bool, degree: usize, nb_poles: usize, mid: int) -> u32 {
    if universal {
        usize_bits((nb_poles + 1 - degree) as usize)
    } else {
        div_bits(ONE_BITS, usize_bits((mid + 1) as usize))
    }
}

/// What a generator returns: the budget failure exactly when the boundary
/// multiplicities exceed the total, otherwise the validated model of the
/// generated sequence, or the structural error that sequence raises.
pub open spec fn gen_result_ok(
    r: Result<BSplineKnots, BSplineKnotsGenError>,
    degree: usize,
    nb_poles: usize,
    feature: BSplineFeature,
    universal: bool,
) -> bool {
    let (first, last, periodic, total) = feature_bounds(degree, nb_poles, feature);
    if total < first + last {
        r == Err::<BSplineKnots, BSplineKnotsGenError>(BSplineKnotsGenError::TooFewPoles)
    } else {
        let mid = total - first - last;
        let ks = gen_knot_seq(
            universal,
            mid as int,
            gen_scale(universal, degree, nb_poles, mid as int),
            first as usize,
            last as usize,
        );
        match r {
            Result::Ok(m) => {
                &&& check_spec(ks, degree, nb_poles, periodic) is Ok
                &&& built_model_ok(m, ks, degree, periodic)
            },
            Result::Err(e) => match e {
                BSplineKnotsGenError::BSplineErr(se) => check_spec(ks, degree, nb_poles, periodic)
                    == Err::<(), BSplineError>(se),
                _ => false,
            },
        }
    }
}

/// Builds the generated knot sequence and hands it to model construction.
fn generate_from(
    degree: usize,
    nb_poles: usize,
    universal: bool,
    scale: u32,
    first: usize,
    last: usize,
    mid: usize,
    periodic: bool,
) -> (r: Result<BSplineKnots, BSplineKnotsGenError>)
    requires
        mid < usize::MAX,
        scale == gen_scale(universal, degree, nb_poles, mid as int),
    ensures
        ({
            let ks = gen_knot_seq(universal, mid as int, scale, first, last);
            match r {
                Result::Ok(m) => {
                    &&& check_spec(ks, degree, nb_poles, periodic) is Ok
                    &&& built_model_ok(m, ks, degree, periodic)
                },
                Result::Err(e) => match e {
                    BSplineKnotsGenError::BSplineErr(se) => check_spec(ks, degree, nb_poles, periodic)
                        == Err::<(), BSplineError>(se),
                    _ => false,
                },
            }
        }),
{
    let ghost gks = gen_knot_seq(universal, mid as int, scale, first, last);
    let mut knots: Vec<BSplineKnot> = Vec::new();
    knots.push(BSplineKnot { value: ZERO_BITS, multiplicity: first });
    let ghost head = seq![BSplineKnot { value: ZERO_BITS, multiplicity: first }];
    let mut i: usize = 0;
    while i < mid
        invariant
            mid < usize::MAX,
            i <= mid,
            knots@.len() == i + 1,
            knots@ == head + Seq::new(i as nat, |q: int| BSplineKnot {
                value: gen_mid_val(universal, q, scale),
                multiplicity: 1,
            }),
        decreases mid - i,
    {
        let v = if universal {
            sc_div(sc_from_usize(i + 1), scale)
        } else {
            sc_mul(sc_from_usize(i + 1), scale)
        };
        knots.push(BSplineKnot { value: v, multiplicity: 1 });
        proof {
            assert(knots@ =~= head + Seq::new((i + 1) as nat, |q: int| BSplineKnot {
                value: gen_mid_val(universal, q, scale),
                multiplicity: 1,
            }));
        }
        i = i + 1;
    }
    knots.push(BSplineKnot { value: ONE_BITS, multiplicity: last });
    proof {
        assert(knots@ =~= gks);
    }
    match BSplineKnots::try_new(knots, degree, nb_poles, periodic) {
        Ok(k) => Ok(k),
        Err(e) => Err(BSplineKnotsGenError::BSplineErr(e)),
    }
}

/// Generates evenly spaced knots on the unit interval for the requested
/// boundary feature and delegates to model construction. Fails with the
/// too-few-poles error when the boundary multiplicities exceed the knot
/// budget.
pub fn new_uniform(degree: usize, nb_poles: usize, feature: BSplineFeature) -> (r: Result<BSplineKnots, BSplineKnotsGenError>)
    requires
        degree + nb_poles + 2 <= usize::MAX,
        2 * nb_poles < usize::MAX,
    ensures
        gen_result_ok(r, degree, nb_poles, feature, false),
{
    let mut periodic = false;
    let mut total: usize = degree + nb_poles + 1;
    let first: usize;
    let last: usize;
    match feature {
        BSplineFeature::Periodic(s) => {
            periodic = true;
            total = 2 * nb_poles;
            first = s;
            last = s;
        },
        BSplineFeature::Regular => {
            first = degree;
            last = degree;
        },
        BSplineFeature::ClampStart => {
            first = degree + 1;
            last = degree;
        },
        BSplineFeature::ClampEnd => {
            first = degree;
            last = degree + 1;
        },
        BSplineFeature::ClampAll => {
            first = degree + 1;
            last = degree + 1;
        },
    }
    if (total as u128) < first as u128 + last as u128 {
        return Err(BSplineKnotsGenError::TooFewPoles);
    }
    let mid = total - first - last;
    let d = sc_div(ONE_BITS, sc_from_usize(mid + 1));
    generate_from(degree, nb_poles, false, d, first, last, mid, periodic)
}

/// Generates interior knots scaled by `1 / (nb_poles + 1 - degree)` for
/// the requested boundary feature and delegates to model construction.
pub fn new_universal(degree: usize, nb_poles: usize, feature: BSplineFeature) -> (r: Result<BSplineKnots, BSplineKnotsGenError>)
    requires
        degree + nb_poles + 2 <= usize::MAX,
        2 * nb_poles < usize::MAX,
        degree <= nb_poles + 1,
    ensures
        gen_result_ok(r, degree, nb_poles, feature, true),
{
    let mut periodic = false;
    let mut total: usize = degree + nb_poles + 1;
    let first: usize;
    let last: usize;
    match feature {
        BSplineFeature::Periodic(s) => {
            periodic = true;
            total = 2 * nb_poles;
            first = s;
            last = s;
        },
        BSplineFeature::Regular => {
            first = degree;
            last = degree;
        },
        BSplineFeature::ClampStart => {
            first = degree + 1;
            last = degree;
        },
        BSplineFeature::ClampEnd => {
            first = degree;
            last = degree + 1;
        },
        BSplineFeature::ClampAll => {
            first = degree + 1;
            last = degree + 1;
        },
    }
    if (total as u128) < first as u128 + last as u128 {
        return Err(BSplineKnotsGenError::TooFewPoles);
    }
    let mid = total - first - last;
    let factor = sc_from_usize(nb_poles + 1 - degree);
    generate_from(degree, nb_poles, true, factor, first, last, mid, periodic)
}

/// The declared strategy that derives knots from externally supplied
/// parameter values. It is not implemented; callers receive the
/// unsupported-strategy error rather than guessed semantics.
pub fn new_de_boor(
    degree: usize,
    de_boor_param: &Vec<u32>,
    feature: BSplineFeature,
) -> (r: Result<BSplineKnots, BSplineKnotsGenError>)
    ensures
        r == Err::<BSplineKnots, BSplineKnotsGenError>(BSplineKnotsGenError::Unsupported),
{
    Err(BSplineKnotsGenError::Unsupported)
}

impl BSplineKnots {
    /// Builds a knot model by the chosen generation strategy.
    pub fn try_build(degree: usize, algo: &BSplineKnotsAlgo, feature: BSplineFeature) -> (r: Result<BSplineKnots, BSplineKnotsGenError>)
        requires
            match *algo {
                BSplineKnotsAlgo::DeBoor(_) => true,
                BSplineKnotsAlgo::Uniform(nb) => degree + nb + 2 <= usize::MAX && 2 * nb < usize::MAX,
                BSplineKnotsAlgo::Universal(nb) => degree + nb + 2 <= usize::MAX && 2 * nb < usize::MAX
                    && degree <= nb + 1,
            },
        ensures
            match *algo {
                BSplineKnotsAlgo::DeBoor(_) => r == Err::<BSplineKnots, BSplineKnotsGenError>(
                    BSplineKnotsGenError::Unsupported,
                ),
                BSplineKnotsAlgo::Uniform(nb) => gen_result_ok(r, degree, nb, feature, false),
                BSplineKnotsAlgo::Universal(nb) => gen_result_ok(r, degree, nb, feature, true),
            },
    {
        match algo {
            BSplineKnotsAlgo::DeBoor(v) => new_de_boor(degree, v, feature),
            BSplineKnotsAlgo::Uniform(nb_poles) => new_uniform(degree, *nb_poles, feature),
            BSplineKnotsAlgo::Universal(nb_poles) => new_universal(degree, *nb_poles, feature),
        }
    }
}

} // verus!
