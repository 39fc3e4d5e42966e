//! The B-spline curve: evaluation, basis coefficients and derivatives.

use vstd::prelude::*;
use crate::bspline_knots::{
    BSplineKnot, BSplineKnots, flatten_spec, knot_index_view, lemma_flatten_len,
    lemma_prefix_mono, lemma_prefix_strict, lower_spec, model_flatten_spec, mult_pos,
    n_extend_spec, prefix_mult, sum_mult, upper_spec, window_view,
};
use crate::point::{BSplinePole, Point3, p_mul_sc, p_sub, p_zero};
use crate::scalar::{div_bits, is_zero_bits, mul_bits, sub_bits, usize_bits, ZERO_BITS};
use crate::utils::{coe_spec, de_boor, de_boor_spec, compute_coefficients};

verus! {

/// A curve: a degree, a knot model, weighted poles, and the periodic and
/// rational flags.
#[derive(Debug, Clone)]
pub struct BSpline {
    pub degree: usize,
    pub knots: BSplineKnots,
    pub poles: Vec<BSplinePole>,
    pub is_periodic: bool,
    pub use_rational: bool,
}

/// The index of the first pole the evaluation window spans: the cumulative
/// multiplicity through the knot index, offset by the first knot's
/// multiplicity (periodic) or by `degree + 1` (open).
pub open spec fn pole_index_spec(m: BSplineKnots, knot_index: int, degree: usize, is_periodic: bool) -> int {
    if is_periodic {
        prefix_mult(m.knots@, knot_index + 1) - m.knots@[m.lower as int].multiplicity
    } else {
        prefix_mult(m.knots@, knot_index + 1) - (degree + 1)
    }
}

/// The pole index used at gathering step `j`: indices advance one at a
/// time from `start`, wrapping to zero whenever they run past the end.
pub open spec fn gather_idx(start: int, j: int, len: int) -> int
    decreases j,
{
    if j <= 0 {
        if start >= len {
            0
        } else {
            start
        }
    } else {
        let prev = gather_idx(start, j - 1, len);
        if prev + 1 >= len {
            0
        } else {
            prev + 1
        }
    }
}

/// The `degree + 1` poles the window spans, gathered with periodic
/// wraparound; when rational, each position is pre-multiplied by its
/// weight (homogeneous coordinates).
pub open spec fn gathered_poles(poles: Seq<BSplinePole>, start: int, degree: usize, rational: bool) -> Seq<BSplinePole> {
    Seq::new(
        (degree + 1) as nat,
        |j: int| {
            let p = poles[gather_idx(start, j, poles.len() as int)];
            if rational {
                BSplinePole { pole: p_mul_sc(p.pole, p.weight), weight: p.weight }
            } else {
                p
            }
        },
    )
}

/// What evaluation returns, over plain views of a model: the knot index
/// and local window are resolved, the owning poles gathered, and the
/// weighted de Boor recursion run on them.
pub open spec fn eval_view(
    ks: Seq<BSplineKnot>,
    lower: int,
    upper: int,
    flatten: Seq<u32>,
    n_extend: int,
    poles: Seq<BSplinePole>,
    degree: usize,
    is_periodic: bool,
    use_rational: bool,
    u: u32,
) -> Point3 {
    let ki = knot_index_view(ks, lower, upper, n_extend, u);
    let win = window_view(ks, flatten, n_extend, ki, degree, is_periodic);
    let start = if is_periodic {
        prefix_mult(ks, ki + 1) - ks[lower].multiplicity
    } else {
        prefix_mult(ks, ki + 1) - (degree + 1)
    };
    let gp = gathered_poles(poles, start, degree, use_rational);
    de_boor_spec(u, win, gp, degree as int, use_rational)
}

/// What evaluation returns, over the model's views.
pub open spec fn eval_spec(m: BSplineKnots, poles: Seq<BSplinePole>, degree: usize, is_periodic: bool, use_rational: bool, u: u32) -> Point3 {
    eval_view(
        m.knots@,
        m.lower as int,
        m.upper as int,
        m.flatten@,
        m.n_extend as int,
        poles,
        degree,
        is_periodic,
        use_rational,
        u,
    )
}

/// One derivative knot reduction: the end multiplicities drop by one, and
/// an end knot whose multiplicity reaches zero disappears.
pub open spec fn derive_knot_seq(ks: Seq<BSplineKnot>) -> Seq<BSplineKnot> {
    let first = ks[0];
    let last = ks[ks.len() - 1];
    let mid = ks.subrange(1, ks.len() - 1);
    let lowp: Seq<BSplineKnot> = if first.multiplicity <= 1 {
        Seq::empty()
    } else {
        seq![BSplineKnot { value: first.value, multiplicity: (first.multiplicity - 1) as usize }]
    };
    let highp: Seq<BSplineKnot> = if last.multiplicity <= 1 {
        Seq::empty()
    } else {
        seq![BSplineKnot { value: last.value, multiplicity: (last.multiplicity - 1) as usize }]
    };
    lowp + mid + highp
}

/// One derivative pole reduction: each new pole is the scaled difference
/// of its two neighbours, `p / (knot[i+p+1] - knot[i+1])` on both the
/// position and the weight channel, zero where the knot span has zero
/// width.
pub open spec fn derive_poles_seq(ps: Seq<BSplinePole>, flat: Seq<u32>, p: usize) -> Seq<BSplinePole> {
    Seq::new(
        (ps.len() - 1) as nat,
        |i: int| {
            let factor = sub_bits(flat[i + p + 1], flat[i + 1]);
            let param = if is_zero_bits(factor) {
                ZERO_BITS
            } else {
                div_bits(usize_bits(p), factor)
            };
            BSplinePole {
                pole: p_mul_sc(p_sub(ps[i + 1].pole, ps[i].pole), param),
                weight: mul_bits(sub_bits(ps[i + 1].weight, ps[i].weight), param),
            }
        },
    )
}

/// The knot sequence after `n` derivative reductions.
pub open spec fn derived_knots_n(ks: Seq<BSplineKnot>, n: nat) -> Seq<BSplineKnot>
    decreases n,
{
    if n == 0 {
        ks
    } else {
        derive_knot_seq(derived_knots_n(ks, (n - 1) as nat))
    }
}

/// The pole sequence after `n` derivative reductions of a degree-`degree`
/// curve.
pub open spec fn derived_poles_n(ps: Seq<BSplinePole>, ks: Seq<BSplineKnot>, degree: usize, n: nat) -> Seq<BSplinePole>
    decreases n,
{
    if n == 0 {
        ps
    } else {
        derive_poles_seq(
            derived_poles_n(ps, ks, degree, (n - 1) as nat),
            flatten_spec(derived_knots_n(ks, (n - 1) as nat)),
            (degree - n + 1) as usize,
        )
    }
}

/// One reduction step stays within bounds: knots and poles remain, and the
/// flattened array is long enough for the differencing reads.
pub open spec fn derive_step_ok(ks: Seq<BSplineKnot>, ps: Seq<BSplinePole>, p: usize) -> bool {
    &&& 2 <= ks.len()
    &&& 1 <= ps.len()
    &&& ps.len() + p <= sum_mult(ks)
}

/// All of the first `n` reduction steps stay within bounds.
pub open spec fn derive_chain_ok(ks: Seq<BSplineKnot>, ps: Seq<BSplinePole>, degree: usize, n: nat) -> bool
    decreases n,
{
    if n == 0 {
        true
    } else {
        &&& derive_chain_ok(ks, ps, degree, (n - 1) as nat)
        &&& derive_step_ok(
            derived_knots_n(ks, (n - 1) as nat),
            derived_poles_n(ps, ks, degree, (n - 1) as nat),
            (degree - n + 1) as usize,
        )
    }
}

/// Once one reduction step breaks, every longer chain breaks.
pub proof fn lemma_chain_break(ks: Seq<BSplineKnot>, ps: Seq<BSplinePole>, degree: usize, m: nat, n: nat)
    requires
        m < n,
        n <= degree,
        !derive_step_ok(
            derived_knots_n(ks, m),
            derived_poles_n(ps, ks, degree, m),
            (degree - m) as usize,
        ),
    ensures
        !derive_chain_ok(ks, ps, degree, n),
    decreases n,
{
    if n == m + 1 {
        assert((degree - (m + 1) + 1) as usize == (degree - m) as usize);
    } else {
        lemma_chain_break(ks, ps, degree, m, (n - 1) as nat);
    }
}

/// The reduced curve still carries what evaluation needs: every knot
/// occurs, at least one pole remains, and the counts relate as a valid
/// model of the reduced degree asks.
pub open spec fn derived_eval_ok(ksf: Seq<BSplineKnot>, psf: Seq<BSplinePole>, degree_f: usize, per: bool) -> bool {
    &&& 2 <= ksf.len()
    &&& mult_pos(ksf)
    &&& 1 <= psf.len()
    &&& if per {
        &&& ksf[0].multiplicity == ksf[ksf.len() - 1].multiplicity
        &&& ksf[0].multiplicity <= degree_f
        &&& sum_mult(ksf) == psf.len() + ksf[0].multiplicity
    } else {
        &&& sum_mult(ksf) == psf.len() + degree_f + 1
        &&& degree_f <= psf.len()
        &&& lower_spec(ksf, degree_f, false) <= upper_spec(ksf, degree_f, false)
        &&& degree_f + 1 <= prefix_mult(ksf, lower_spec(ksf, degree_f, false) + 1)
    }
}

/// The evaluation of the curve left after `d` reductions, over its
/// freshly built model.
pub open spec fn derived_eval_view(ks0: Seq<BSplineKnot>, ps0: Seq<BSplinePole>, degree: usize, d: nat, per: bool, rational: bool, u: u32) -> Point3 {
    let ksf = derived_knots_n(ks0, d);
    let psf = derived_poles_n(ps0, ks0, degree, d);
    let df = (degree - d) as usize;
    eval_view(
        ksf,
        lower_spec(ksf, df, per),
        upper_spec(ksf, df, per),
        model_flatten_spec(ksf, df, per),
        n_extend_spec(ksf, df, per) as int,
        psf,
        df,
        per,
        rational,
        u,
    )
}

impl BSpline {
    /// The structural facts evaluation rests on.
    pub open spec fn wf(self) -> bool {
        self.knots.wf(self.degree, self.poles@.len() as usize, self.is_periodic)
    }

    /// What `interop` returns.
    pub open spec fn eval(self, u: u32) -> Point3 {
        eval_spec(self.knots, self.poles@, self.degree, self.is_periodic, self.use_rational, u)
    }

    /// The first pole the evaluation window spans.
    fn find_pole_index(knots: &BSplineKnots, knot_index: usize, degree: usize, is_periodic: bool) -> (r: usize)
        requires
            knot_index < knots.knots@.len(),
            prefix_mult(knots.knots@, knot_index as int + 1) <= usize::MAX,
            is_periodic ==> knots.lower == 0,
            is_periodic ==> prefix_mult(knots.knots@, 1) <= prefix_mult(knots.knots@, knot_index as int + 1),
            !is_periodic ==> degree + 1 <= prefix_mult(knots.knots@, knot_index as int + 1),
        ensures
            r == pole_index_spec(*knots, knot_index as int, degree, is_periodic),
    {
        proof {
            assert(prefix_mult(knots.knots@, 0) == 0);
            assert(prefix_mult(knots.knots@, 1) == knots.knots@[0].multiplicity);
        }
        let m = knots.knots.len();
        let pole_index = BSplineKnots::prefix_mult_exec(&knots.knots, knot_index + 1);
        if is_periodic {
            pole_index - knots.knots[knots.lower].multiplicity
        } else {
            pole_index - (degree + 1)
        }
    }

    /// Gathers the `degree + 1` poles from the starting index, wrapping
    /// past the end, pre-weighting positions when rational.
    fn get_poles(&self, pole_index: usize) -> (r: Vec<BSplinePole>)
        requires
            1 <= self.poles@.len(),
            self.degree < usize::MAX,
        ensures
            r@ == gathered_poles(self.poles@, pole_index as int, self.degree, self.use_rational),
    {
        let ghost ps = self.poles@;
        let plen = self.poles.len();
        let mut pi: usize = pole_index;
        let mut out: Vec<BSplinePole> = Vec::new();
        let mut j: usize = 0;
        while j < self.degree + 1
            invariant
                self.poles@ == ps,
                plen == ps.len(),
                1 <= plen,
                self.degree < usize::MAX,
                j <= self.degree + 1,
                out@.len() == j,
                (if pi as int >= plen { 0int } else { pi as int })
                    == gather_idx(pole_index as int, j as int, plen as int),
                forall|q: int| 0 <= q < j ==> out@[q] == gathered_poles(
                    ps,
                    pole_index as int,
                    self.degree,
                    self.use_rational,
                )[q],
            decreases self.degree + 1 - j,
        {
            if pi > plen - 1 {
                pi = 0;
            }
            let p = self.poles[pi];
            let gp = if self.use_rational {
                BSplinePole { pole: p.pole.mul_sc(p.weight), weight: p.weight }
            } else {
                p
            };
            out.push(gp);
            pi = pi + 1;
            j = j + 1;
        }
        out
    }

    /// Evaluates the curve at a parameter: position by the weighted
    /// de Boor recursion over the local knot window. Out-of-domain
    /// parameters are clamped to the domain, not rejected.
    pub fn interop(&self, u: u32) -> (r: Point3)
        requires
            self.wf(),
        ensures
            r == self.eval(u),
    {
        let ghost ks = self.knots.knots@;
        let m = self.knots.knots.len();
        let fl = self.knots.flatten.len();
        proof {
            assert(prefix_mult(ks, 0) == 0);
            assert(prefix_mult(ks, 1) == ks[0].multiplicity);
            lemma_prefix_mono(ks, 1, m as int - 1);
            assert(prefix_mult(ks, m as int) == prefix_mult(ks, m as int - 1) + ks[m - 1].multiplicity);
        }
        let knot_index = self.knots.get_knot_index(u);
        proof {
            lemma_prefix_mono(ks, knot_index as int + 1, m as int);
            lemma_prefix_mono(ks, self.knots.lower as int + 1, knot_index as int + 1);
            lemma_prefix_strict(ks, 0, knot_index as int + 1);
        }
        let knot_slice = self.knots.get_knots_bounds(knot_index, self.degree, self.is_periodic);
        let pole_index = Self::find_pole_index(&self.knots, knot_index, self.degree, self.is_periodic);
        let poles = self.get_poles(pole_index);
        de_boor(u, &knot_slice, &poles, self.degree, self.use_rational)
    }

    /// The parameter at the lower end of the domain.
    pub fn lower_parameter(&self) -> (r: u32)
        requires
            self.wf(),
        ensures
            r == self.knots.knots@[self.knots.lower as int].value,
    {
        self.knots.lower_value()
    }

    /// The parameter at the upper end of the domain.
    pub fn upper_parameter(&self) -> (r: u32)
        requires
            self.wf(),
        ensures
            r == self.knots.knots@[self.knots.upper as int].value,
    {
        self.knots.upper_value()
    }

    /// One Cox–de Boor basis-function value per pole at the parameter.
    pub fn coefficients(&self, u: u32) -> (r: Vec<u32>)
        requires
            self.wf(),
        ensures
            r@.len() == self.poles@.len(),
            forall|i: int| 0 <= i < self.poles@.len() ==> r@[i] == coe_spec(
                u,
                self.knots.flatten@,
                self.degree as int,
                i,
                self.knots.n_extend as int,
            ),
    {
        let ghost ks = self.knots.knots@;
        proof {
            assert(prefix_mult(ks, 0) == 0);
            assert(prefix_mult(ks, 1) == ks[0].multiplicity);
            lemma_prefix_mono(ks, 1, ks.len() as int - 1);
            assert(prefix_mult(ks, ks.len() as int)
                == prefix_mult(ks, ks.len() as int - 1) + ks[ks.len() - 1].multiplicity);
        }
        compute_coefficients(
            u,
            &self.knots.flatten,
            self.poles.len(),
            self.degree,
            self.knots.n_extend,
        )
    }

    /// What the `d`-th derivative evaluates to: the plain evaluation for
    /// `d = 0`; the zero vector above the degree (all higher derivatives of
    /// a polynomial segment vanish) and whenever the reduction chain
    /// degenerates; otherwise the evaluation of the reduced curve.
    pub open spec fn derivative_spec(self, u: u32, d: int) -> Point3 {
        if d == 0 {
            self.eval(u)
        } else if d > self.degree {
            p_zero()
        } else {
            let ks0 = self.knots.knots@;
            let ps0 = self.poles@;
            if derive_chain_ok(ks0, ps0, self.degree, d as nat) && derived_eval_ok(
                derived_knots_n(ks0, d as nat),
                derived_poles_n(ps0, ks0, self.degree, d as nat),
                (self.degree - d) as usize,
                self.is_periodic,
            ) {
                derived_eval_view(ks0, ps0, self.degree, d as nat, self.is_periodic, self.use_rational, u)
            } else {
                p_zero()
            }
        }
    }

    /// The `d`-th derivative at a parameter: for each reduction the poles
    /// are differenced and scaled by the shrinking knot spans, the knot
    /// model loses one occurrence at each domain boundary, and the reduced
    /// curve is evaluated. An order above the degree yields the zero
    /// vector, as does a reduction that degenerates structurally. The
    /// reduction differences position and weight channels independently,
    /// which is exact for non-rational curves only.
    pub fn derivate_n(&self, u: u32, d: usize) -> (r: Point3)
        requires
            self.wf(),
        ensures
            r == self.derivative_spec(u, d as int),
            d > self.degree ==> r == p_zero(),
    {
        if d == 0 {
            return self.interop(u);
        }
        if d > self.degree {
            return Point3::zero();
        }
        let ghost ks0 = self.knots.knots@;
        let ghost ps0 = self.poles@;
        let mut ks_cur = copy_knots(&self.knots.knots);
        let mut poles_cur = copy_poles(&self.poles);
        let mut n: usize = 0;
        while n < d
            invariant
                n <= d,
                1 <= d <= self.degree,
                ks0 == self.knots.knots@,
                ps0 == self.poles@,
                ks_cur@ == derived_knots_n(ks0, n as nat),
                poles_cur@ == derived_poles_n(ps0, ks0, self.degree, n as nat),
                derive_chain_ok(ks0, ps0, self.degree, n as nat),
            decreases d - n,
        {
            let ghost n_prev = n as nat;
            let p = self.degree - n;
            let flat = BSplineKnots::flatten_exec(&ks_cur);
            proof {
                lemma_flatten_len(ks_cur@);
            }
            let fits = poles_cur.len() >= 1 && ks_cur.len() >= 2
                && poles_cur.len() as u128 + p as u128 <= flat.len() as u128;
            if !fits {
                proof {
                    assert(!derive_step_ok(ks_cur@, poles_cur@, p));
                    assert((self.degree - n_prev) as usize == p);
                    lemma_chain_break(ks0, ps0, self.degree, n_prev, d as nat);
                }
                return Point3::zero();
            }
            let ghost fv = flat@;
            let mut np: Vec<BSplinePole> = Vec::new();
            let mut i: usize = 0;
            while i < poles_cur.len() - 1
                invariant
                    flat@ == fv,
                    1 <= poles_cur@.len(),
                    poles_cur@.len() + p <= fv.len(),
                    fv.len() <= usize::MAX,
                    i <= poles_cur@.len() - 1,
                    np@.len() == i,
                    forall|q: int| 0 <= q < i ==> np@[q] == derive_poles_seq(poles_cur@, fv, p)[q],
                decreases poles_cur@.len() - i,
            {
                let factor = crate::scalar::sc_sub(flat[i + p + 1], flat[i + 1]);
                let param = if crate::scalar::sc_is_zero(factor) {
                    ZERO_BITS
                } else {
                    crate::scalar::sc_div(crate::scalar::sc_from_usize(p), factor)
                };
                np.push(BSplinePole {
                    pole: poles_cur[i + 1].pole.sub(poles_cur[i].pole).mul_sc(param),
                    weight: crate::scalar::sc_mul(
                        crate::scalar::sc_sub(poles_cur[i + 1].weight, poles_cur[i].weight),
                        param,
                    ),
                });
                i = i + 1;
            }
            proof {
                assert(np@ =~= derive_poles_seq(poles_cur@, fv, p));
            }
            let nk = derive_knots_exec(&ks_cur);
            proof {
                assert(derive_chain_ok(ks0, ps0, self.degree, (n + 1) as nat));
            }
            poles_cur = np;
            ks_cur = nk;
            n = n + 1;
        }
        let df = self.degree - d;
        let ghost ksf = ks_cur@;
        let ghost psf = poles_cur@;
        let counts_ok = ks_cur.len() >= 2 && poles_cur.len() >= 1 && mult_pos_exec(&ks_cur) && {
            let total = BSplineKnots::sum_mult_exec(&ks_cur);
            if self.is_periodic {
                ks_cur[0].multiplicity == ks_cur[ks_cur.len() - 1].multiplicity
                    && ks_cur[0].multiplicity <= df
                    && total == poles_cur.len() as u128 + ks_cur[0].multiplicity as u128
            } else {
                total == poles_cur.len() as u128 + df as u128 + 1 && df <= poles_cur.len()
            }
        };
        if !counts_ok {
            return Point3::zero();
        }
        let model = BSplineKnots::build_model(ks_cur, df, self.is_periodic);
        let mkl = model.knots.len();
        let mfl = model.flatten.len();
        if !self.is_periodic {
            proof {
                lemma_flatten_len(ksf);
                BSplineKnots::lemma_bound_state_start(ksf, (df + 1) as nat);
                BSplineKnots::lemma_bound_state_end(ksf, (df + 1) as nat);
                lemma_prefix_mono(ksf, model.lower as int + 1, ksf.len() as int);
            }
            let bound_ok = model.lower <= model.upper
                && df + 1 <= BSplineKnots::prefix_mult_exec(&model.knots, model.lower + 1);
            if !bound_ok {
                return Point3::zero();
            }
        }
        proof {
            lemma_flatten_len(ksf);
            if !self.is_periodic {
                BSplineKnots::lemma_bound_state_end(ksf, (df + 1) as nat);
            }
            assert(model.wf(df, psf.len() as usize, self.is_periodic));
        }
        let curve = BSpline {
            degree: df,
            knots: model,
            poles: poles_cur,
            is_periodic: self.is_periodic,
            use_rational: self.use_rational,
        };
        curve.interop(u)
    }
}

/// A copy of a knot sequence.
fn copy_knots(ks: &Vec<BSplineKnot>) -> (r: Vec<BSplineKnot>)
    ensures
        r@ == ks@,
{
    let mut out: Vec<BSplineKnot> = Vec::new();
    let mut i: usize = 0;
    while i < ks.len()
        invariant
            i <= ks@.len(),
            out@ == ks@.take(i as int),
        decreases ks@.len() - i,
    {
        out.push(ks[i]);
        proof {
            assert(out@ =~= ks@.take(i + 1));
        }
        i = i + 1;
    }
    proof {
        assert(ks@.take(ks@.len() as int) =~= ks@);
    }
    out
}

/// A copy of a pole sequence.
fn copy_poles(ps: &Vec<BSplinePole>) -> (r: Vec<BSplinePole>)
    ensures
        r@ == ps@,
{
    let mut out: Vec<BSplinePole> = Vec::new();
    let mut i: usize = 0;
    while i < ps.len()
        invariant
            i <= ps@.len(),
            out@ == ps@.take(i as int),
        decreases ps@.len() - i,
    {
        out.push(ps[i]);
        proof {
            assert(out@ =~= ps@.take(i + 1));
        }
        i = i + 1;
    }
    proof {
        assert(ps@.take(ps@.len() as int) =~= ps@);
    }
    out
}

/// Whether every knot occurs at least once.
fn mult_pos_exec(ks: &Vec<BSplineKnot>) -> (r: bool)
    ensures
        r == mult_pos(ks@),
{
    let mut i: usize = 0;
    while i < ks.len()
        invariant
            i <= ks@.len(),
            forall|q: int| 0 <= q < i ==> #[trigger] ks@[q].multiplicity >= 1,
        decreases ks@.len() - i,
    {
        if ks[i].multiplicity < 1 {
            return false;
        }
        i = i + 1;
    }
    true
}

/// One derivative knot reduction, executably.
fn derive_knots_exec(ks: &Vec<BSplineKnot>) -> (r: Vec<BSplineKnot>)
    requires
        2 <= ks@.len(),
    ensures
        r@ == derive_knot_seq(ks@),
{
    let ghost kv = ks@;
    let m = ks.len();
    let first = ks[0];
    let last = ks[m - 1];
    let mut out: Vec<BSplineKnot> = Vec::new();
    let ghost lowp: Seq<BSplineKnot> = if first.multiplicity <= 1 {
        Seq::empty()
    } else {
        seq![BSplineKnot { value: first.value, multiplicity: (first.multiplicity - 1) as usize }]
    };
    if first.multiplicity > 1 {
        out.push(BSplineKnot { value: first.value, multiplicity: first.multiplicity - 1 });
    }
    proof {
        assert(out@ =~= lowp + kv.subrange(1, 1));
    }
    let mut i: usize = 1;
    while i < m - 1
        invariant
            ks@ == kv,
            m == kv.len(),
            2 <= m,
            1 <= i <= m - 1,
            out@ == lowp + kv.subrange(1, i as int),
        decreases m - 1 - i,
    {
        out.push(ks[i]);
        proof {
            assert(kv.subrange(1, i + 1) =~= kv.subrange(1, i as int).push(kv[i as int]));
            assert(out@ =~= lowp + kv.subrange(1, i + 1));
        }
        i = i + 1;
    }
    if last.multiplicity > 1 {
        out.push(BSplineKnot { value: last.value, multiplicity: last.multiplicity - 1 });
    }
    proof {
        assert(out@ =~= derive_knot_seq(kv));
    }
    out
}

} // verus!
