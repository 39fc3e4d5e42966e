//! Least-squares curve approximation: generated knots, parameterized data,
//! basis coefficients at every sample, and the normal-equations solve.

use vstd::prelude::*;
use crate::bspline::BSpline;
use crate::bspline_data_knots::{generate_spec, BSplineDataKnotsAlgo};
use crate::bspline_error::{BSplineApproximationError, BSplineKnotsGenError};
use crate::bspline_knots::{
    built_model_ok, check_spec, flatten_spec, lemma_flatten_len, sum_mult, BSplineFeature,
    BSplineKnots,
};
use crate::bspline_knots_gen::{feature_bounds, gen_knot_seq, gen_scale, BSplineKnotsAlgo};
use crate::linsolve::{elim_upto, pivots_ok, row_views, solution_point, solve_system};
use crate::point::{BSplinePole, Point3, p_add, p_scale, p_sub, p_zero};
use crate::scalar::{add_bits, mul_bits, ONE_BITS, ZERO_BITS, sc_add, sc_mul};
use crate::utils::{coe_spec, compute_coefficients};

verus! {

/// An approximation task: the curve shape parameters and the two
/// generation strategies.
#[derive(Debug, Clone)]
pub struct BSplineApproximation {
    pub degree: usize,
    pub nb_poles: usize,
    pub feature: BSplineFeature,
    pub knots_algo: BSplineKnotsAlgo,
    pub data_knots_algo: BSplineDataKnotsAlgo,
}

/// The basis coefficients of every sample parameter: one row per sample,
/// one coefficient per pole.
pub open spec fn ns_spec(uv: Seq<u32>, flat: Seq<u32>, nb_poles: usize, degree: usize) -> Seq<Seq<u32>> {
    Seq::new(
        uv.len(),
        |k: int| Seq::new(nb_poles as nat, |i: int| coe_spec(uv[k], flat, degree as int, i, 0)),
    )
}

/// The interior deviation point of sample `k`: the sample minus the parts
/// the clamped first and last poles already account for.
pub open spec fn qk_spec(data: Seq<Point3>, ns: Seq<Seq<u32>>, h: int, n: int, k: int) -> Point3 {
    if k == 0 {
        p_zero()
    } else {
        p_sub(p_sub(data[k], p_scale(ns[k][0], data[0])), p_scale(ns[k][h], data[n]))
    }
}

/// The right-hand-side accumulation for interior pole `i`: the deviation
/// points weighted by their basis coefficients, summed over samples
/// `1 .. k`.
pub open spec fn qrow_acc(data: Seq<Point3>, ns: Seq<Seq<u32>>, h: int, n: int, i: int, k: int) -> Point3
    decreases k,
{
    if k < 1 {
        p_zero()
    } else {
        p_add(qrow_acc(data, ns, h, n, i, k - 1), p_scale(ns[k][i], qk_spec(data, ns, h, n, k)))
    }
}

/// One normal-matrix entry: the products of the basis coefficients in
/// columns `ca` and `cb`, summed over samples `1 .. k`.
pub open spec fn macc(ns: Seq<Seq<u32>>, ca: int, cb: int, k: int) -> u32
    decreases k,
{
    if k < 1 {
        ZERO_BITS
    } else {
        add_bits(macc(ns, ca, cb, k - 1), mul_bits(ns[k][ca], ns[k][cb]))
    }
}

/// One augmented row of the normal-equations system: the normal-matrix row
/// for interior pole `a + 1`, followed by the three coordinates of its
/// right-hand side.
pub open spec fn aug_row_spec(data: Seq<Point3>, ns: Seq<Seq<u32>>, h: int, n: int, a: int) -> Seq<u32> {
    Seq::new(
        (h - 1 + 3) as nat,
        |j: int| if j < h - 1 {
            macc(ns, a + 1, j + 1, n - 1)
        } else {
            let q = qrow_acc(data, ns, h, n, a + 1, n - 1);
            if j == h - 1 {
                q.x
            } else if j == h {
                q.y
            } else {
                q.z
            }
        },
    )
}

/// The augmented normal-equations system.
pub open spec fn aug_rows_spec(data: Seq<Point3>, ns: Seq<Seq<u32>>, h: int, n: int) -> Seq<Seq<u32>> {
    Seq::new((h - 1) as nat, |a: int| aug_row_spec(data, ns, h, n, a))
}

/// The fitted pole sequence: the first sample, the solved interior poles,
/// and the last sample, each with unit weight.
pub open spec fn final_poles_spec(data: Seq<Point3>, aug: Seq<Seq<u32>>, h: int, n: int) -> Seq<BSplinePole> {
    seq![BSplinePole { pole: data[0], weight: ONE_BITS }]
        + Seq::new((h - 1) as nat, |a: int| BSplinePole {
            pole: solution_point(elim_upto(aug, h - 1), h - 1, a),
            weight: ONE_BITS,
        })
        + seq![BSplinePole { pole: data[n], weight: ONE_BITS }]
}

impl BSplineApproximation {
    /// What approximation returns once knot generation has succeeded for
    /// the generated sequence `ks`: the solver failure exactly when a pivot
    /// of the normal equations falls to the tolerance, otherwise the fitted
    /// curve, every field pinned.
    pub open spec fn fit_case(self, data: Seq<Point3>, r: Result<BSpline, BSplineApproximationError>, ks: Seq<crate::bspline_knots::BSplineKnot>) -> bool {
        let flat = flatten_spec(ks);
        let uv = generate_spec(self.data_knots_algo, data);
        let ns = ns_spec(uv, flat, self.nb_poles, self.degree);
        let h = self.nb_poles - 1;
        let n = data.len() - 1;
        let aug = aug_rows_spec(data, ns, h as int, n as int);
        if !pivots_ok(aug, h - 1) {
            r == Err::<BSpline, BSplineApproximationError>(BSplineApproximationError::SolverFailure)
        } else {
            match r {
                Result::Ok(curve) => {
                    &&& curve.degree == self.degree
                    &&& !curve.is_periodic
                    &&& !curve.use_rational
                    &&& built_model_ok(curve.knots, ks, self.degree, false)
                    &&& curve.poles@ == final_poles_spec(data, aug, h as int, n as int)
                },
                Result::Err(_) => false,
            }
        }
    }

    /// What approximation returns for one generator strategy.
    pub open spec fn gen_case(self, data: Seq<Point3>, r: Result<BSpline, BSplineApproximationError>, universal: bool, nb: usize) -> bool {
        let (first, last, per, total) = feature_bounds(self.degree, nb, self.feature);
        if total < first + last {
            r == Err::<BSpline, BSplineApproximationError>(
                BSplineApproximationError::BSplineKnotsGeneration(BSplineKnotsGenError::TooFewPoles),
            )
        } else {
            let mid = total - first - last;
            let ks = gen_knot_seq(
                universal,
                mid as int,
                gen_scale(universal, self.degree, nb, mid as int),
                first as usize,
                last as usize,
            );
            match check_spec(ks, self.degree, nb, false) {
                Result::Err(e) => r == Err::<BSpline, BSplineApproximationError>(
                    BSplineApproximationError::BSplineKnotsGeneration(BSplineKnotsGenError::BSplineErr(e)),
                ),
                Result::Ok(_) => self.fit_case(data, r, ks),
            }
        }
    }

    /// What approximation returns, in every case.
    pub open spec fn approx_spec(self, data: Seq<Point3>, r: Result<BSpline, BSplineApproximationError>) -> bool {
        if self.feature matches BSplineFeature::Periodic(_) {
            r == Err::<BSpline, BSplineApproximationError>(BSplineApproximationError::NotAllowPeriodic)
        } else {
            match self.knots_algo {
                BSplineKnotsAlgo::DeBoor(_) => r == Err::<BSpline, BSplineApproximationError>(
                    BSplineApproximationError::BSplineKnotsGeneration(BSplineKnotsGenError::Unsupported),
                ),
                BSplineKnotsAlgo::Uniform(nb) => self.gen_case(data, r, false, nb),
                BSplineKnotsAlgo::Universal(nb) => self.gen_case(data, r, true, nb),
            }
        }
    }

    /// Fits a least-squares curve to the samples: rejects periodic
    /// boundary features before any knot generation, builds the knot model
    /// and the sample parameters, assembles the normal equations from the
    /// basis coefficients at every sample, solves them, and clamps the
    /// fitted curve to its first and last samples. The result is always
    /// open and non-rational.
    pub fn try_approximate(&self, data: &Vec<Point3>) -> (r: Result<BSpline, BSplineApproximationError>)
        requires
            2 <= data@.len(),
            2 <= self.nb_poles,
            self.degree + self.nb_poles + 2 <= usize::MAX,
            2 * self.nb_poles < usize::MAX,
            match self.knots_algo {
                BSplineKnotsAlgo::DeBoor(_) => true,
                BSplineKnotsAlgo::Uniform(nb) => nb == self.nb_poles,
                BSplineKnotsAlgo::Universal(nb) => nb == self.nb_poles
                    && self.degree <= self.nb_poles + 1,
            },
        ensures
            self.approx_spec(data@, r),
            (self.feature matches BSplineFeature::Periodic(_))
                <==> r == Err::<BSpline, BSplineApproximationError>(
                    BSplineApproximationError::NotAllowPeriodic,
                ),
    {
        let ghost dv = data@;
        if let BSplineFeature::Periodic(_) = self.feature {
            return Err(BSplineApproximationError::NotAllowPeriodic);
        }
        let bspline_knots = match BSplineKnots::try_build(self.degree, &self.knots_algo, self.feature) {
            Ok(knots) => knots,
            Err(e) => {
                return Err(BSplineApproximationError::BSplineKnotsGeneration(e));
            },
        };
        let ghost gks = bspline_knots.knots@;
        proof {
            lemma_flatten_len(gks);
            assert(sum_mult(gks) == self.nb_poles + self.degree + 1);
        }
        let knots = bspline_knots.original_flatten();
        let u_vector = self.data_knots_algo.generate(data);

        let h = self.nb_poles - 1;
        let n = data.len() - 1;
        let ghost nsv = ns_spec(u_vector@, knots@, self.nb_poles, self.degree);

        let mut ns: Vec<Vec<u32>> = Vec::new();
        let mut k: usize = 0;
        while k < u_vector.len()
            invariant
                u_vector@.len() == dv.len(),
                knots@ == flatten_spec(gks),
                self.nb_poles + self.degree + 1 <= knots@.len(),
                nsv == ns_spec(u_vector@, knots@, self.nb_poles, self.degree),
                k <= u_vector@.len(),
                ns@.len() == k,
                forall|q: int| 0 <= q < k ==> #[trigger] ns@[q]@ == nsv[q],
            decreases u_vector@.len() - k,
        {
            let row = compute_coefficients(u_vector[k], &knots, self.nb_poles, self.degree, 0);
            proof {
                assert(row@ =~= nsv[k as int]);
            }
            ns.push(row);
            k = k + 1;
        }

        let mut qks: Vec<Point3> = Vec::new();
        qks.push(Point3::zero());
        let mut k2: usize = 1;
        while k2 < n
            invariant
                dv.len() >= 2,
                n == dv.len() - 1,
                data@ == dv,
                h == self.nb_poles - 1,
                1 <= self.nb_poles,
                ns@.len() == dv.len(),
                forall|q: int| 0 <= q < ns@.len() ==> #[trigger] ns@[q]@ == nsv[q],
                forall|q: int| 0 <= q < ns@.len() ==> #[trigger] nsv[q].len() == self.nb_poles,
                1 <= k2 <= n,
                qks@.len() == k2,
                forall|q: int| 0 <= q < k2 ==> #[trigger] qks@[q] == qk_spec(dv, nsv, h as int, n as int, q),
            decreases n - k2,
        {
            let coe = &ns[k2];
            let q = data[k2].sub(data[0].scale(coe[0])).sub(data[n].scale(coe[h]));
            qks.push(q);
            k2 = k2 + 1;
        }

        let ghost augv = aug_rows_spec(dv, nsv, h as int, n as int);
        let mut aug: Vec<Vec<u32>> = Vec::new();
        let mut a: usize = 0;
        while a < h - 1
            invariant
                dv.len() >= 2,
                n == dv.len() - 1,
                h == self.nb_poles - 1,
                2 <= self.nb_poles,
                ns@.len() == dv.len(),
                qks@.len() == n,
                forall|q: int| 0 <= q < ns@.len() ==> #[trigger] ns@[q]@ == nsv[q],
                forall|q: int| 0 <= q < ns@.len() ==> #[trigger] nsv[q].len() == self.nb_poles,
                forall|q: int| 0 <= q < n ==> #[trigger] qks@[q] == qk_spec(dv, nsv, h as int, n as int, q),
                augv == aug_rows_spec(dv, nsv, h as int, n as int),
                a <= h - 1,
                aug@.len() == a,
                forall|q: int| 0 <= q < a ==> #[trigger] aug@[q]@ == augv[q],
            decreases h - 1 - a,
        {
            let mut row: Vec<u32> = Vec::new();
            let mut b: usize = 0;
            while b < h - 1
                invariant
                    dv.len() >= 2,
                    n == dv.len() - 1,
                    h == self.nb_poles - 1,
                    2 <= self.nb_poles,
                    a < h - 1,
                    ns@.len() == dv.len(),
                    forall|q: int| 0 <= q < ns@.len() ==> #[trigger] ns@[q]@ == nsv[q],
                    forall|q: int| 0 <= q < ns@.len() ==> #[trigger] nsv[q].len() == self.nb_poles,
                    b <= h - 1,
                    row@.len() == b,
                    forall|q: int| 0 <= q < b ==> #[trigger] row@[q] == macc(nsv, a + 1, q + 1, n as int - 1),
                decreases h - 1 - b,
            {
                let mut s: u32 = ZERO_BITS;
                let mut kk: usize = 1;
                while kk <= n - 1
                    invariant
                        dv.len() >= 2,
                        n == dv.len() - 1,
                        h == self.nb_poles - 1,
                        2 <= self.nb_poles,
                        a < h - 1,
                        b < h - 1,
                        ns@.len() == dv.len(),
                        forall|q: int| 0 <= q < ns@.len() ==> #[trigger] ns@[q]@ == nsv[q],
                        forall|q: int| 0 <= q < ns@.len() ==> #[trigger] nsv[q].len() == self.nb_poles,
                        1 <= kk <= n,
                        s == macc(nsv, a + 1, b + 1, kk as int - 1),
                    decreases n - kk,
                {
                    s = sc_add(s, sc_mul(ns[kk][a + 1], ns[kk][b + 1]));
                    kk = kk + 1;
                }
                row.push(s);
                b = b + 1;
            }
            let mut qp = Point3::zero();
            let mut kq: usize = 1;
            while kq <= n - 1
                invariant
                    dv.len() >= 2,
                    n == dv.len() - 1,
                    h == self.nb_poles - 1,
                    2 <= self.nb_poles,
                    a < h - 1,
                    ns@.len() == dv.len(),
                    qks@.len() == n,
                    forall|q: int| 0 <= q < ns@.len() ==> #[trigger] ns@[q]@ == nsv[q],
                    forall|q: int| 0 <= q < ns@.len() ==> #[trigger] nsv[q].len() == self.nb_poles,
                    forall|q: int| 0 <= q < n ==> #[trigger] qks@[q] == qk_spec(dv, nsv, h as int, n as int, q),
                    1 <= kq <= n,
                    qp == qrow_acc(dv, nsv, h as int, n as int, a + 1, kq as int - 1),
                decreases n - kq,
            {
                qp = qp.add(qks[kq].scale(ns[kq][a + 1]));
                kq = kq + 1;
            }
            row.push(qp.x);
            row.push(qp.y);
            row.push(qp.z);
            proof {
                assert(row@ =~= augv[a as int]);
            }
            aug.push(row);
            a = a + 1;
        }
        proof {
            assert(row_views(aug@) =~= augv);
        }

        let solved = match solve_system(aug) {
            Some(sol) => sol,
            None => {
                return Err(BSplineApproximationError::SolverFailure);
            },
        };

        let mut poles: Vec<BSplinePole> = Vec::new();
        poles.push(BSplinePole { pole: data[0], weight: ONE_BITS });
        let mut pi: usize = 0;
        while pi < solved.len()
            invariant
                dv.len() >= 2,
                n == dv.len() - 1,
                data@ == dv,
                h == self.nb_poles - 1,
                solved@.len() == h - 1,
                forall|q: int| 0 <= q < solved@.len() ==> #[trigger] solved@[q] == solution_point(
                    elim_upto(augv, h as int - 1),
                    h as int - 1,
                    q,
                ),
                pi <= solved@.len(),
                poles@.len() == pi + 1,
                poles@[0] == (BSplinePole { pole: dv[0], weight: ONE_BITS }),
                forall|q: int| 1 <= q <= pi ==> #[trigger] poles@[q] == (BSplinePole {
                    pole: solution_point(elim_upto(augv, h as int - 1), h as int - 1, q - 1),
                    weight: ONE_BITS,
                }),
            decreases solved@.len() - pi,
        {
            poles.push(BSplinePole { pole: solved[pi], weight: ONE_BITS });
            pi = pi + 1;
        }
        poles.push(BSplinePole { pole: data[n], weight: ONE_BITS });
        proof {
            assert(poles@ =~= final_poles_spec(dv, augv, h as int, n as int));
        }

        Ok(BSpline {
            degree: self.degree,
            is_periodic: false,
            knots: bspline_knots,
            poles,
            use_rational: false,
        })
    }
}

} // verus!
