//! The knot model: validation, domain boundaries, flattening and periodic
//! extension.

use vstd::prelude::*;
use crate::bspline_error::BSplineError;
use crate::scalar::{le_bits, lt_bits, add_bits, sub_bits};

verus! {

/// One knot: a parameter value (single-precision bits) and how many times
/// it repeats in the flattened knot array.
#[derive(Debug, Clone, Copy, PartialEq, Eq, Structural)]
pub struct BSplineKnot {
    pub value: u32,
    pub multiplicity: usize,
}

/// A boundary feature for knot generation.
#[derive(Debug, Clone, Copy, PartialEq, Eq, Structural)]
pub enum BSplineFeature {
    /// Closed curve; the payload is the multiplicity of the seam knot.
    Periodic(usize),
    /// Open, multiplicity `degree` at both ends.
    Regular,
    /// Open, clamped at the start only.
    ClampStart,
    /// Open, clamped at the end only.
    ClampEnd,
    /// Open, clamped at both ends.
    ClampAll,
}

/// The knot model: the knot sequence plus its derived fields.
#[derive(Debug, Clone)]
pub struct BSplineKnots {
    pub knots: Vec<BSplineKnot>,
    /// Index of the knot at the lower end of the usable parameter domain.
    pub lower: usize,
    /// Index of the knot at the upper end of the usable parameter domain.
    pub upper: usize,
    /// The knot sequence expanded by multiplicity, padded on both ends for
    /// periodic models.
    pub flatten: Vec<u32>,
    /// Number of padding entries on each side (zero for non-periodic).
    pub n_extend: usize,
}

/// Sum of the multiplicities of the first `i` knots.
pub open spec fn prefix_mult(ks: Seq<BSplineKnot>, i: int) -> nat
    decreases i,
{
    if i <= 0 {
        0
    } else {
        (prefix_mult(ks, i - 1) + ks[i - 1].multiplicity) as nat
    }
}

/// Sum of all multiplicities.
pub open spec fn sum_mult(ks: Seq<BSplineKnot>) -> nat {
    prefix_mult(ks, ks.len() as int)
}

/// Every knot occurs at least once.
pub open spec fn mult_pos(ks: Seq<BSplineKnot>) -> bool {
    forall|i: int| 0 <= i < ks.len() ==> #[trigger] ks[i].multiplicity >= 1
}

/// Prefix sums of multiplicities grow with the index.
pub proof fn lemma_prefix_mono(ks: Seq<BSplineKnot>, i: int, j: int)
    requires
        i <= j,
    ensures
        prefix_mult(ks, i) <= prefix_mult(ks, j),
    decreases j - i,
{
    if i < j {
        lemma_prefix_mono(ks, i, j - 1);
    }
}

/// With every multiplicity positive, prefix sums grow strictly.
pub proof fn lemma_prefix_strict(ks: Seq<BSplineKnot>, i: int, j: int)
    requires
        0 <= i < j <= ks.len(),
        mult_pos(ks),
    ensures
        prefix_mult(ks, i) < prefix_mult(ks, j),
    decreases j,
{
    if i == j - 1 {
        assert(ks[j - 1].multiplicity >= 1);
    } else {
        lemma_prefix_strict(ks, i, j - 1);
        assert(ks[j - 1].multiplicity >= 1);
    }
}

/// How many of the knot values at indices `1 .. i` lie strictly below the
/// parameter.
pub open spec fn count_lt_spec(ks: Seq<BSplineKnot>, u: u32, i: int) -> nat
    decreases i,
{
    if i <= 1 {
        0
    } else {
        (count_lt_spec(ks, u, i - 1) + if lt_bits(ks[i - 1].value, u) {
            1nat
        } else {
            0nat
        }) as nat
    }
}

/// The knot sequence expanded by multiplicity: one scalar per occurrence.
pub open spec fn flatten_spec(ks: Seq<BSplineKnot>) -> Seq<u32>
    decreases ks.len(),
{
    if ks.len() == 0 {
        Seq::empty()
    } else {
        flatten_spec(ks.drop_last()) + Seq::new(ks.last().multiplicity as nat, |j: int| ks.last().value)
    }
}

/// A prefix sum is unchanged by dropping the last knot, as long as the
/// prefix does not reach it.
pub proof fn lemma_prefix_drop_last(ks: Seq<BSplineKnot>, i: int)
    requires
        0 <= i < ks.len(),
    ensures
        prefix_mult(ks, i) == prefix_mult(ks.drop_last(), i),
    decreases i,
{
    if i > 0 {
        lemma_prefix_drop_last(ks, i - 1);
    }
}

/// The flattened sequence is as long as the multiplicities sum.
pub proof fn lemma_flatten_len(ks: Seq<BSplineKnot>)
    ensures
        flatten_spec(ks).len() == sum_mult(ks),
    decreases ks.len(),
{
    if ks.len() > 0 {
        lemma_flatten_len(ks.drop_last());
        lemma_prefix_drop_last(ks, ks.len() - 1);
    }
}

/// The largest multiplicity a knot may carry: interior knots are capped by
/// the degree; for non-periodic models the two end knots may reach one more
/// (clamping).
pub open spec fn max_mult(len: int, degree: usize, is_periodic: bool, i: int) -> nat {
    if (i == 0 || i == len - 1) && !is_periodic {
        (degree + 1) as nat
    } else {
        degree as nat
    }
}

/// One knot entry is acceptable: its multiplicity is within bound, and its
/// value lies strictly above its predecessor's.
pub open spec fn knot_line_ok(ks: Seq<BSplineKnot>, degree: usize, is_periodic: bool, i: int) -> bool {
    &&& ks[i].multiplicity <= max_mult(ks.len() as int, degree, is_periodic, i)
    &&& (i == 0 || !le_bits(ks[i].value, ks[i - 1].value))
}

/// What validation returns: the structural invariants of a knot sequence,
/// checked in the order the errors are reported.
pub open spec fn check_spec(
    ks: Seq<BSplineKnot>,
    degree: usize,
    nb_poles: usize,
    is_periodic: bool,
) -> Result<(), BSplineError> {
    if ks.len() < 2 {
        Err(BSplineError::TooFewKnots)
    } else if nb_poles < 2 {
        Err(BSplineError::TooFewPoles)
    } else if exists|i: int| 0 <= i < ks.len() && !knot_line_ok(ks, degree, is_periodic, i) {
        Err(BSplineError::MultiplicityOverDegree)
    } else if is_periodic && ks[0].multiplicity != ks[ks.len() - 1].multiplicity {
        Err(BSplineError::PeriodicEdgeNotMatch)
    } else if is_periodic && nb_poles + ks[0].multiplicity != sum_mult(ks) {
        Err(BSplineError::KnotsNumberNotMatch)
    } else if !is_periodic && nb_poles + degree + 1 != sum_mult(ks) {
        Err(BSplineError::KnotsNumberNotMatch)
    } else {
        Ok(())
    }
}

/// A non-periodic knot sequence that meets every other invariant but whose
/// multiplicities sum only to `nb_poles + degree` — one short of the
/// required `nb_poles + degree + 1` — is rejected with the
/// knot-count-mismatch error, never silently accepted.
pub proof fn lemma_count_short_rejected(ks: Seq<BSplineKnot>, degree: usize, nb_poles: usize)
    requires
        2 <= ks.len(),
        2 <= nb_poles,
        forall|i: int| 0 <= i < ks.len() ==> knot_line_ok(ks, degree, false, i),
        sum_mult(ks) == nb_poles + degree,
    ensures
        check_spec(ks, degree, nb_poles, false) == Err::<(), BSplineError>(
            BSplineError::KnotsNumberNotMatch,
        ),
{
}

/// A model whose fields were computed from a validated knot sequence with
/// every multiplicity positive is well formed for evaluation: this is how
/// a verified caller discharges the precondition of the evaluation
/// functions for a model that `try_new` returned.
pub proof fn lemma_built_wf(m: BSplineKnots, degree: usize, nb_poles: usize, is_periodic: bool)
    requires
        check_spec(m.knots@, degree, nb_poles, is_periodic) is Ok,
        mult_pos(m.knots@),
        !is_periodic ==> degree <= nb_poles,
        m.lower == lower_spec(m.knots@, degree, is_periodic),
        m.upper == upper_spec(m.knots@, degree, is_periodic),
        m.n_extend == n_extend_spec(m.knots@, degree, is_periodic),
        m.flatten@ == model_flatten_spec(m.knots@, degree, is_periodic),
    ensures
        m.wf(degree, nb_poles, is_periodic),
{
    let ks = m.knots@;
    lemma_flatten_len(ks);
    if is_periodic {
        assert(knot_line_ok(ks, degree, is_periodic, 0));
    } else {
        BSplineKnots::lemma_bound_state_start(ks, (degree + 1) as nat);
        BSplineKnots::lemma_bound_state_end(ks, (degree + 1) as nat);
        let lo = BSplineKnots::bound_state(ks, true, (degree + 1) as nat);
        let hi = BSplineKnots::bound_state(ks, false, (degree + 1) as nat);
        assert(prefix_mult(ks, lo.0 + 1) == prefix_mult(ks, lo.0) + ks[lo.0].multiplicity);
        assert(prefix_mult(ks, lo.0 + 1) >= degree + 1);
        assert(prefix_mult(ks, hi.0 + 1) == sum_mult(ks) - (degree + 1) + hi.1);
        assert(prefix_mult(ks, hi.0 + 1) >= nb_poles + 1);
        if lo.0 > hi.0 {
            lemma_prefix_mono(ks, hi.0 + 1, lo.0);
            assert(prefix_mult(ks, lo.0 + 1) == prefix_mult(ks, lo.0) + ks[lo.0].multiplicity);
            assert(prefix_mult(ks, lo.0) <= degree);
            assert(false);
        }
    }
}

/// The period of a periodic knot sequence: the distance between its last
/// and first values.
pub open spec fn period_spec(ks: Seq<BSplineKnot>) -> u32 {
    sub_bits(ks[ks.len() - 1].value, ks[0].value)
}

/// How many padding entries a periodic model needs on each side.
pub open spec fn split_spec(ks: Seq<BSplineKnot>, degree: usize) -> nat {
    (degree + 1 - ks[0].multiplicity) as nat
}

/// The walk that gathers padding values for a periodic model: starting just
/// inside the chosen end, it consumes multiplicity units and wraps around
/// the sequence. Its state (knot index, units consumed there) after `it`
/// steps.
pub open spec fn ext_state(ks: Seq<BSplineKnot>, from_end: bool, it: nat) -> (int, nat)
    decreases it,
{
    if it == 0 {
        ((if from_end { 1int } else { ks.len() - 2 }), 0nat)
    } else {
        let s = ext_state(ks, from_end, (it - 1) as nat);
        if s.1 + 1 > ks[s.0].multiplicity {
            let k = if from_end {
                if s.0 == ks.len() - 1 {
                    0int
                } else {
                    s.0 + 1
                }
            } else {
                if s.0 == 0 {
                    ks.len() - 1
                } else {
                    s.0 - 1
                }
            };
            (k, 1nat)
        } else {
            (s.0, (s.1 + 1) as nat)
        }
    }
}

/// The padding prepended to a periodic model: knot values mirrored from the
/// far end, shifted down by one period.
pub open spec fn ext_low_spec(ks: Seq<BSplineKnot>, degree: usize) -> Seq<u32> {
    Seq::new(
        split_spec(ks, degree),
        |j: int| sub_bits(
            ks[ext_state(ks, false, (split_spec(ks, degree) - j) as nat).0].value,
            period_spec(ks),
        ),
    )
}

/// The padding appended to a periodic model: knot values mirrored from the
/// near end, shifted up by one period.
pub open spec fn ext_high_spec(ks: Seq<BSplineKnot>, degree: usize) -> Seq<u32> {
    Seq::new(
        split_spec(ks, degree),
        |j: int| add_bits(ks[ext_state(ks, true, (j + 1) as nat).0].value, period_spec(ks)),
    )
}

/// Index of the knot at the lower end of the parameter domain.
pub open spec fn lower_spec(ks: Seq<BSplineKnot>, degree: usize, is_periodic: bool) -> int {
    if is_periodic {
        0
    } else {
        BSplineKnots::bound_spec(ks, degree, true)
    }
}

/// Index of the knot at the upper end of the parameter domain.
pub open spec fn upper_spec(ks: Seq<BSplineKnot>, degree: usize, is_periodic: bool) -> int {
    if is_periodic {
        ks.len() - 1
    } else {
        BSplineKnots::bound_spec(ks, degree, false)
    }
}

/// Padding width of the model: zero unless periodic.
pub open spec fn n_extend_spec(ks: Seq<BSplineKnot>, degree: usize, is_periodic: bool) -> nat {
    if is_periodic {
        split_spec(ks, degree)
    } else {
        0
    }
}

/// The flattened (and, when periodic, extended) knot array of the model.
pub open spec fn model_flatten_spec(ks: Seq<BSplineKnot>, degree: usize, is_periodic: bool) -> Seq<u32> {
    if is_periodic {
        ext_low_spec(ks, degree) + flatten_spec(ks) + ext_high_spec(ks, degree)
    } else {
        flatten_spec(ks)
    }
}

/// A built model's derived fields agree with its knot sequence.
pub open spec fn built_model_ok(m: BSplineKnots, ks: Seq<BSplineKnot>, degree: usize, is_periodic: bool) -> bool {
    &&& m.knots@ == ks
    &&& m.lower == lower_spec(ks, degree, is_periodic)
    &&& m.upper == upper_spec(ks, degree, is_periodic)
    &&& m.n_extend == n_extend_spec(ks, degree, is_periodic)
    &&& m.flatten@ == model_flatten_spec(ks, degree, is_periodic)
}

/// Where a parameter falls in a knot sequence with the given domain
/// bounds: the number of knot values strictly below it, clamped to the
/// domain (and, when padding is present, to one below the seam knot).
pub open spec fn knot_index_view(ks: Seq<BSplineKnot>, lower: int, upper: int, n_extend: int, u: u32) -> int {
    let c = count_lt_spec(ks, u, ks.len() as int) as int;
    let hi = if n_extend > 0 {
        upper - 1
    } else {
        upper
    };
    let t = if c < lower {
        lower
    } else {
        c
    };
    if t > hi {
        hi
    } else {
        t
    }
}

/// The flattened-array position an evaluation window is read around.
pub open spec fn window_base_view(ks: Seq<BSplineKnot>, flatten_len: int, n_extend: int, knot_index: int, degree: usize, is_periodic: bool) -> int {
    let c = prefix_mult(ks, knot_index + 1) as int;
    let cl = if is_periodic {
        c
    } else {
        let a = if c < degree {
            degree as int
        } else {
            c
        };
        let b = flatten_len - degree - 1;
        if a > b {
            b
        } else {
            a
        }
    };
    cl + n_extend - 1
}

/// The `2 * degree` flattened knot values surrounding the evaluation
/// point.
pub open spec fn window_view(ks: Seq<BSplineKnot>, flatten: Seq<u32>, n_extend: int, knot_index: int, degree: usize, is_periodic: bool) -> Seq<u32> {
    let base = window_base_view(ks, flatten.len() as int, n_extend, knot_index, degree, is_periodic);
    flatten.subrange(base - degree + 1, base + degree + 1)
}

impl BSplineKnots {
    /// The structural facts evaluation rests on: the derived fields agree
    /// with the knot sequence, every knot occurs, and the counts relate the
    /// poles, the degree and the multiplicities.
    pub open spec fn wf(self, degree: usize, nb_poles: usize, is_periodic: bool) -> bool {
        &&& 2 <= self.knots@.len()
        &&& mult_pos(self.knots@)
        &&& self.lower <= self.upper
        &&& self.upper < self.knots@.len()
        &&& self.flatten@.len() == sum_mult(self.knots@) + 2 * self.n_extend
        &&& 1 <= nb_poles
        &&& if is_periodic {
            &&& self.lower == 0
            &&& self.upper == self.knots@.len() - 1
            &&& self.knots@[0].multiplicity == self.knots@[self.knots@.len() - 1].multiplicity
            &&& self.knots@[0].multiplicity <= degree
            &&& self.n_extend == degree + 1 - self.knots@[0].multiplicity
            &&& sum_mult(self.knots@) == nb_poles + self.knots@[0].multiplicity
        } else {
            &&& self.n_extend == 0
            &&& sum_mult(self.knots@) == nb_poles + degree + 1
            &&& degree + 1 <= prefix_mult(self.knots@, self.lower as int + 1)
            &&& degree <= nb_poles
        }
    }

    /// Validates a knot sequence against the structural invariants: enough
    /// knots and poles, multiplicities within bound, strictly increasing
    /// values, matching edge multiplicities when periodic, and the count
    /// relation between knots, poles and degree.
    pub fn check(
        knots: &Vec<BSplineKnot>,
        degree: usize,
        nb_poles: usize,
        is_periodic: bool,
    ) -> (r: Result<(), BSplineError>)
        ensures
            r == check_spec(knots@, degree, nb_poles, is_periodic),
    {
        let m = knots.len();
        if m < 2 {
            return Err(BSplineError::TooFewKnots);
        }
        if nb_poles < 2 {
            return Err(BSplineError::TooFewPoles);
        }
        let mut i: usize = 0;
        while i < m
            invariant
                m == knots@.len(),
                2 <= m,
                2 <= nb_poles,
                i <= m,
                forall|j: int| 0 <= j < i ==> knot_line_ok(knots@, degree, is_periodic, j),
            decreases m - i,
        {
            let cap_plus = (i == 0 || i == m - 1) && !is_periodic;
            let over = if cap_plus {
                degree < usize::MAX && knots[i].multiplicity > degree + 1
            } else {
                knots[i].multiplicity > degree
            };
            if over {
                assert(!knot_line_ok(knots@, degree, is_periodic, i as int));
                return Err(BSplineError::MultiplicityOverDegree);
            }
            if i > 0 {
                if crate::scalar::sc_le(knots[i].value, knots[i - 1].value) {
                    assert(!knot_line_ok(knots@, degree, is_periodic, i as int));
                    return Err(BSplineError::MultiplicityOverDegree);
                }
            }
            i = i + 1;
        }
        let total: u128 = Self::sum_mult_exec(knots);
        if is_periodic {
            if knots[0].multiplicity != knots[m - 1].multiplicity {
                return Err(BSplineError::PeriodicEdgeNotMatch);
            }
            if nb_poles as u128 + knots[0].multiplicity as u128 != total {
                return Err(BSplineError::KnotsNumberNotMatch);
            }
        } else {
            if nb_poles as u128 + degree as u128 + 1 != total {
                return Err(BSplineError::KnotsNumberNotMatch);
            }
        }
        Ok(())
    }

    /// The domain-boundary walk from one end of the knot sequence: starting
    /// at that end, one multiplicity unit is consumed per step, moving to the
    /// next knot once the current one is exhausted. This is its state (knot
    /// index, units consumed at that knot) after `it` steps.
    pub open spec fn bound_state(ks: Seq<BSplineKnot>, at_start: bool, it: nat) -> (int, nat)
        decreases it,
    {
        if it == 0 {
            ((if at_start { 0int } else { ks.len() - 1 }), 0nat)
        } else {
            let s = Self::bound_state(ks, at_start, (it - 1) as nat);
            if s.1 + 1 > ks[s.0].multiplicity {
                ((if at_start { s.0 + 1 } else { s.0 - 1 }), 1nat)
            } else {
                (s.0, (s.1 + 1) as nat)
            }
        }
    }

    /// The index of the knot bounding the parameter domain: where the walk
    /// stands after consuming `degree + 1` multiplicity units.
    pub open spec fn bound_spec(ks: Seq<BSplineKnot>, degree: usize, at_start: bool) -> int {
        Self::bound_state(ks, at_start, (degree + 1) as nat).0
    }

    /// When every multiplicity is positive, the walk from the start consumes
    /// exactly one unit per step: after `it` steps it stands at the unique
    /// knot whose prefix sum `it` falls into.
    pub proof fn lemma_bound_state_start(ks: Seq<BSplineKnot>, it: nat)
        requires
            mult_pos(ks),
            1 <= ks.len(),
            it <= sum_mult(ks),
        ensures
            ({
                let s = Self::bound_state(ks, true, it);
                &&& 0 <= s.0 < ks.len()
                &&& s.1 <= ks[s.0].multiplicity
                &&& it == prefix_mult(ks, s.0) + s.1
                &&& (it >= 1 ==> s.1 >= 1)
            }),
        decreases it,
    {
        if it > 0 {
            Self::lemma_bound_state_start(ks, (it - 1) as nat);
            let s = Self::bound_state(ks, true, (it - 1) as nat);
            if s.1 + 1 > ks[s.0].multiplicity {
                assert(s.1 == ks[s.0].multiplicity);
                assert(prefix_mult(ks, s.0 + 1) == prefix_mult(ks, s.0) + ks[s.0].multiplicity);
                if s.0 + 1 == ks.len() {
                    assert(it == sum_mult(ks) + 1);
                    assert(false);
                }
            }
        }
    }

    /// The same for the walk from the end, over suffix sums.
    pub proof fn lemma_bound_state_end(ks: Seq<BSplineKnot>, it: nat)
        requires
            mult_pos(ks),
            1 <= ks.len(),
            it <= sum_mult(ks),
        ensures
            ({
                let s = Self::bound_state(ks, false, it);
                &&& 0 <= s.0 < ks.len()
                &&& s.1 <= ks[s.0].multiplicity
                &&& it == sum_mult(ks) - prefix_mult(ks, s.0 + 1) + s.1
                &&& (it >= 1 ==> s.1 >= 1)
            }),
        decreases it,
    {
        if it == 0 {
            assert(prefix_mult(ks, ks.len() as int) == sum_mult(ks));
        } else {
            Self::lemma_bound_state_end(ks, (it - 1) as nat);
            let s = Self::bound_state(ks, false, (it - 1) as nat);
            if s.1 + 1 > ks[s.0].multiplicity {
                assert(s.1 == ks[s.0].multiplicity);
                assert(prefix_mult(ks, s.0 + 1) == prefix_mult(ks, s.0) + ks[s.0].multiplicity);
                if s.0 == 0 {
                    assert(prefix_mult(ks, 0) == 0);
                    assert(it == sum_mult(ks) + 1);
                    assert(false);
                }
            }
        }
    }

    /// The boundary walk. Consumes `degree + 1` multiplicity units from the
    /// chosen end and returns the knot index it stops at.
    fn non_periodic_bound(knots: &Vec<BSplineKnot>, degree: usize, at_start: bool) -> (r: usize)
        requires
            2 <= knots@.len(),
            degree + 2 <= sum_mult(knots@),
        ensures
            r == Self::bound_spec(knots@, degree, at_start),
            r < knots@.len(),
    {
        let ghost ks = knots@;
        let m = knots.len();
        let mut k_idx: usize = if at_start { 0 } else { m - 1 };
        let mut n: u128 = 0;
        let mut it: u128 = 0;
        let end: u128 = degree as u128 + 1;
        while it < end
            invariant
                m == ks.len(),
                2 <= m,
                knots@ == ks,
                end == degree + 1,
                degree + 2 <= sum_mult(ks),
                it <= end,
                k_idx < m,
                (k_idx as int, n as nat) == Self::bound_state(ks, at_start, it as nat),
                at_start ==> it as int >= prefix_mult(ks, k_idx as int) + n - 1,
                !at_start ==> it as int >= sum_mult(ks) - prefix_mult(ks, k_idx as int + 1) + n - 1,
            decreases end - it,
        {
            let ghost old_k = k_idx as int;
            let ghost old_n = n as nat;
            if n + 1 > knots[k_idx].multiplicity as u128 {
                proof {
                    assert(old_n >= ks[old_k].multiplicity);
                    assert(prefix_mult(ks, old_k + 1) == prefix_mult(ks, old_k) + ks[old_k].multiplicity);
                    if at_start {
                        if old_k == m - 1 {
                            assert(prefix_mult(ks, m as int) == sum_mult(ks));
                            assert(it as int + 1 >= sum_mult(ks));
                            assert(false);
                        }
                    } else {
                        if old_k == 0 {
                            assert(it as int + 1 >= sum_mult(ks));
                            assert(false);
                        }
                    }
                }
                if at_start {
                    k_idx = k_idx + 1;
                } else {
                    k_idx = k_idx - 1;
                }
                n = 1;
            } else {
                n = n + 1;
            }
            it = it + 1;
            proof {
                assert(Self::bound_state(ks, at_start, it as nat)
                    == (if old_n + 1 > ks[old_k].multiplicity {
                        ((if at_start { old_k + 1 } else { old_k - 1 }), 1nat)
                    } else {
                        (old_k, (old_n + 1) as nat)
                    }));
                assert(prefix_mult(ks, old_k + 1) == prefix_mult(ks, old_k) + ks[old_k].multiplicity);
            }
        }
        k_idx
    }

    /// Expands the knot sequence by multiplicity into one value per
    /// occurrence.
    pub(crate) fn flatten_exec(knots: &Vec<BSplineKnot>) -> (r: Vec<u32>)
        ensures
            r@ == flatten_spec(knots@),
    {
        let ghost ks = knots@;
        let mut out: Vec<u32> = Vec::new();
        let mut i: usize = 0;
        while i < knots.len()
            invariant
                knots@ == ks,
                i <= ks.len(),
                out@ == flatten_spec(ks.take(i as int)),
            decreases ks.len() - i,
        {
            let v = knots[i].value;
            let m = knots[i].multiplicity;
            let mut j: usize = 0;
            while j < m
                invariant
                    knots@ == ks,
                    i < ks.len(),
                    v == ks[i as int].value,
                    m == ks[i as int].multiplicity,
                    j <= m,
                    out@ == flatten_spec(ks.take(i as int)) + Seq::new(j as nat, |k: int| v),
                decreases m - j,
            {
                out.push(v);
                proof {
                    assert(Seq::new((j + 1) as nat, |k: int| v)
                        =~= Seq::new(j as nat, |k: int| v).push(v));
                }
                j = j + 1;
            }
            proof {
                let t = ks.take(i + 1);
                assert(t.drop_last() =~= ks.take(i as int));
                assert(t.last() == ks[i as int]);
                assert(out@ =~= flatten_spec(ks.take(i + 1)));
            }
            i = i + 1;
        }
        proof {
            assert(ks.take(ks.len() as int) =~= ks);
        }
        out
    }

    /// Gathers the two padding runs of a periodic model: values mirrored
    /// from the far side of the seam, shifted by one period, so that a
    /// contiguous window read near the seam behaves as if the curve were
    /// open.
    fn extend_knots(knots: &Vec<BSplineKnot>, degree: usize) -> (r: (Vec<u32>, Vec<u32>))
        requires
            2 <= knots@.len(),
            knots@[0].multiplicity <= degree,
        ensures
            r.0@ == ext_low_spec(knots@, degree),
            r.1@ == ext_high_spec(knots@, degree),
    {
        let ghost ks = knots@;
        let m = knots.len();
        let period = crate::scalar::sc_sub(knots[m - 1].value, knots[0].value);
        let split: u128 = degree as u128 + 1 - knots[0].multiplicity as u128;

        let mut high: Vec<u32> = Vec::new();
        let mut i_end: usize = 1;
        let mut n_end: u128 = 0;
        let mut it: u128 = 0;
        while it < split
            invariant
                knots@ == ks,
                m == ks.len(),
                2 <= m,
                split == split_spec(ks, degree),
                period == period_spec(ks),
                it <= split,
                i_end < m,
                (i_end as int, n_end as nat) == ext_state(ks, true, it as nat),
                high@.len() == it,
                forall|j: int| 0 <= j < it ==> high@[j] == ext_high_spec(ks, degree)[j],
            decreases split - it,
        {
            let ghost old_i = i_end as int;
            let ghost old_n = n_end as nat;
            if n_end + 1 > knots[i_end].multiplicity as u128 {
                i_end = if i_end == m - 1 {
                    0
                } else {
                    i_end + 1
                };
                n_end = 1;
            } else {
                n_end = n_end + 1;
            }
            it = it + 1;
            proof {
                assert(ext_state(ks, true, it as nat)
                    == (if old_n + 1 > ks[old_i].multiplicity {
                        ((if old_i == ks.len() - 1 { 0int } else { old_i + 1 }), 1nat)
                    } else {
                        (old_i, (old_n + 1) as nat)
                    }));
            }
            high.push(crate::scalar::sc_add(knots[i_end].value, period));
        }

        let mut tmp: Vec<u32> = Vec::new();
        let mut i_start: usize = m - 2;
        let mut n_start: u128 = 0;
        let mut it2: u128 = 0;
        while it2 < split
            invariant
                knots@ == ks,
                m == ks.len(),
                2 <= m,
                split == split_spec(ks, degree),
                period == period_spec(ks),
                it2 <= split,
                i_start < m,
                (i_start as int, n_start as nat) == ext_state(ks, false, it2 as nat),
                tmp@.len() == it2,
                forall|j: int| 0 <= j < it2 ==> tmp@[j] == sub_bits(
                    ks[ext_state(ks, false, (j + 1) as nat).0].value,
                    period_spec(ks),
                ),
            decreases split - it2,
        {
            let ghost old_i = i_start as int;
            let ghost old_n = n_start as nat;
            if n_start + 1 > knots[i_start].multiplicity as u128 {
                i_start = if i_start == 0 {
                    m - 1
                } else {
                    i_start - 1
                };
                n_start = 1;
            } else {
                n_start = n_start + 1;
            }
            it2 = it2 + 1;
            proof {
                assert(ext_state(ks, false, it2 as nat)
                    == (if old_n + 1 > ks[old_i].multiplicity {
                        ((if old_i == 0 { ks.len() - 1 } else { old_i - 1 }), 1nat)
                    } else {
                        (old_i, (old_n + 1) as nat)
                    }));
            }
            tmp.push(crate::scalar::sc_sub(knots[i_start].value, period));
        }

        let mut low: Vec<u32> = Vec::new();
        let mut j: usize = 0;
        let split_us: usize = tmp.len();
        while j < split_us
            invariant
                split_us == tmp@.len(),
                split_us == split_spec(ks, degree),
                j <= split_us,
                forall|k: int| 0 <= k < split_us ==> tmp@[k] == sub_bits(
                    ks[ext_state(ks, false, (k + 1) as nat).0].value,
                    period_spec(ks),
                ),
                low@.len() == j,
                forall|k: int| 0 <= k < j ==> low@[k] == ext_low_spec(ks, degree)[k],
            decreases split_us - j,
        {
            low.push(tmp[split_us - 1 - j]);
            j = j + 1;
        }
        (low, high)
    }

    /// Assembles a model from a knot sequence whose counts have been
    /// settled: computes the domain boundary indices, the flattened array,
    /// and the periodic padding.
    pub(crate) fn build_model(knots: Vec<BSplineKnot>, degree: usize, is_periodic: bool) -> (r: BSplineKnots)
        requires
            2 <= knots@.len(),
            !is_periodic ==> degree + 2 <= sum_mult(knots@),
            is_periodic ==> knots@[0].multiplicity <= degree,
        ensures
            r.knots@ == knots@,
            r.lower == lower_spec(knots@, degree, is_periodic),
            r.upper == upper_spec(knots@, degree, is_periodic),
            r.n_extend == n_extend_spec(knots@, degree, is_periodic),
            r.flatten@ == model_flatten_spec(knots@, degree, is_periodic),
    {
        let ghost ks = knots@;
        let lower: usize = if is_periodic {
            0
        } else {
            Self::non_periodic_bound(&knots, degree, true)
        };
        let upper: usize = if is_periodic {
            knots.len() - 1
        } else {
            Self::non_periodic_bound(&knots, degree, false)
        };
        let mut flatten = Self::flatten_exec(&knots);
        let n_extend: usize = if is_periodic {
            let (mut low, mut high) = Self::extend_knots(&knots, degree);
            proof {
                lemma_flatten_len(ks);
            }
            let split = low.len();
            low.append(&mut flatten);
            low.append(&mut high);
            flatten = low;
            split
        } else {
            0
        };
        BSplineKnots { knots, lower, upper, flatten, n_extend }
    }

    /// Builds a knot model: validates the sequence, computes the domain
    /// boundary indices, the flattened array, and (for periodic models) the
    /// seam padding.
    pub fn try_new(
        knots: Vec<BSplineKnot>,
        degree: usize,
        nb_poles: usize,
        is_periodic: bool,
    ) -> (r: Result<BSplineKnots, BSplineError>)
        ensures
            match r {
                Result::Err(e) => check_spec(knots@, degree, nb_poles, is_periodic)
                    == Err::<(), BSplineError>(e),
                Result::Ok(m) => {
                    &&& check_spec(knots@, degree, nb_poles, is_periodic) is Ok
                    &&& built_model_ok(m, knots@, degree, is_periodic)
                },
            },
    {
        if let Err(e) = Self::check(&knots, degree, nb_poles, is_periodic) {
            return Err(e);
        }
        proof {
            if is_periodic {
                assert(knot_line_ok(knots@, degree, is_periodic, 0));
            }
        }
        Ok(Self::build_model(knots, degree, is_periodic))
    }

    /// The flattened knot array without periodic padding.
    pub fn original_flatten(&self) -> (r: Vec<u32>)
        ensures
            r@ == flatten_spec(self.knots@),
    {
        Self::flatten_exec(&self.knots)
    }

    /// Where a parameter falls in the knot sequence: the number of knot
    /// values strictly below it, clamped to the parameter domain. A
    /// parameter equal to a knot value belongs to the lower span.
    pub open spec fn knot_index_spec(self, u: u32) -> int {
        knot_index_view(self.knots@, self.lower as int, self.upper as int, self.n_extend as int, u)
    }

    /// Counts the knot values strictly below the parameter and clamps the
    /// count to the domain (for periodic models, to one below the seam knot,
    /// so a window read near the seam stays inside the padded array).
    pub fn get_knot_index(&self, u: u32) -> (r: usize)
        requires
            self.lower <= self.upper < self.knots@.len(),
            self.n_extend > 0 ==> self.lower == 0 && 1 <= self.upper,
        ensures
            r == self.knot_index_spec(u),
            self.lower <= r <= self.upper,
            r < self.knots@.len(),
            self.n_extend > 0 ==> r < self.knots@.len() - 1,
    {
        let ghost ks = self.knots@;
        let m = self.knots.len();
        let mut idx: usize = 0;
        let mut i: usize = 1;
        while i < m
            invariant
                self.knots@ == ks,
                m == ks.len(),
                1 <= m,
                1 <= i <= m,
                idx == count_lt_spec(ks, u, i as int),
                idx < i,
            decreases m - i,
        {
            if crate::scalar::sc_lt(self.knots[i].value, u) {
                idx = idx + 1;
            }
            i = i + 1;
        }
        let lo_clamped = if idx < self.lower {
            self.lower
        } else {
            idx
        };
        let hi = if self.n_extend > 0 {
            self.upper - 1
        } else {
            self.upper
        };
        if lo_clamped > hi {
            hi
        } else {
            lo_clamped
        }
    }

    /// The position in the flattened array the evaluation window is read
    /// around, for a given knot index: the cumulative multiplicity through
    /// that knot, clamped away from the array ends for open models, shifted
    /// by the periodic padding.
    pub open spec fn window_base_spec(self, knot_index: int, degree: usize, is_periodic: bool) -> int {
        window_base_view(self.knots@, self.flatten@.len() as int, self.n_extend as int, knot_index, degree, is_periodic)
    }

    /// The `2 * degree` flattened knot values surrounding the evaluation
    /// point.
    pub open spec fn window_spec(self, knot_index: int, degree: usize, is_periodic: bool) -> Seq<u32> {
        window_view(self.knots@, self.flatten@, self.n_extend as int, knot_index, degree, is_periodic)
    }

    /// Reads the local evaluation window: the `2 * degree` flattened knot
    /// values around the knot index, clamped at the array ends for open
    /// models.
    pub fn get_knots_bounds(&self, knot_index: usize, degree: usize, is_periodic: bool) -> (r: Vec<u32>)
        requires
            2 <= self.knots@.len(),
            mult_pos(self.knots@),
            knot_index < self.knots@.len(),
            self.flatten@.len() == sum_mult(self.knots@) + 2 * self.n_extend,
            2 * degree + 1 <= self.flatten@.len(),
            !is_periodic ==> self.n_extend == 0,
            is_periodic ==> {
                &&& mult_pos(self.knots@)
                &&& knot_index + 2 <= self.knots@.len()
                &&& self.knots@[0].multiplicity == self.knots@[self.knots@.len() - 1].multiplicity
                &&& self.knots@[0].multiplicity <= degree
                &&& self.n_extend == degree + 1 - self.knots@[0].multiplicity
            },
        ensures
            r@ == self.window_spec(knot_index as int, degree, is_periodic),
            r@.len() == 2 * degree,
    {
        let ghost ks = self.knots@;
        let m = self.knots.len();
        let fl = self.flatten.len();
        proof {
            assert(prefix_mult(ks, 0) == 0);
            lemma_prefix_strict(ks, 0, knot_index as int + 1);
            lemma_prefix_mono(ks, knot_index as int + 1, ks.len() as int);
            if is_periodic {
                lemma_prefix_mono(ks, 1, knot_index as int + 1);
                lemma_prefix_mono(ks, knot_index as int + 1, ks.len() as int - 1);
                assert(prefix_mult(ks, 1) == ks[0].multiplicity);
                assert(prefix_mult(ks, ks.len() as int)
                    == prefix_mult(ks, ks.len() as int - 1) + ks[ks.len() - 1].multiplicity);
                assert(ks[0].multiplicity >= 1);
            }
        }
        let c = Self::prefix_mult_exec(&self.knots, knot_index + 1);
        let cl = if is_periodic {
            c
        } else {
            let a = if c < degree {
                degree
            } else {
                c
            };
            let b = fl - degree - 1;
            if a > b {
                b
            } else {
                a
            }
        };
        let base = cl + self.n_extend - 1;
        let start = base + 1 - degree;
        let w = 2 * degree;
        let mut out: Vec<u32> = Vec::new();
        let mut j: usize = 0;
        while j < w
            invariant
                j <= w,
                start + w <= self.flatten@.len(),
                self.flatten@.len() <= usize::MAX,
                out@ == self.flatten@.subrange(start as int, start as int + j),
            decreases w - j,
        {
            out.push(self.flatten[start + j]);
            proof {
                assert(out@ =~= self.flatten@.subrange(start as int, start as int + j + 1));
            }
            j = j + 1;
        }
        out
    }

    /// The cumulative multiplicity of the first `end` knots (which fits in
    /// a `usize` whenever it is bounded by the flattened array's length).
    pub(crate) fn prefix_mult_exec(knots: &Vec<BSplineKnot>, end: usize) -> (r: usize)
        requires
            end <= knots@.len(),
            prefix_mult(knots@, end as int) <= usize::MAX,
        ensures
            r == prefix_mult(knots@, end as int),
    {
        let ghost ks = knots@;
        let mut acc: usize = 0;
        let mut i: usize = 0;
        while i < end
            invariant
                knots@ == ks,
                end <= ks.len(),
                i <= end,
                acc == prefix_mult(ks, i as int),
                prefix_mult(ks, end as int) <= usize::MAX,
            decreases end - i,
        {
            proof {
                lemma_prefix_mono(ks, i as int + 1, end as int);
            }
            acc = acc + knots[i].multiplicity;
            i = i + 1;
        }
        acc
    }

    /// The flattened-array index of the span a parameter falls in.
    pub fn get_flat_index(&self, u: u32) -> (r: usize)
        requires
            self.lower <= self.upper < self.knots@.len(),
            self.n_extend > 0 ==> self.lower == 0 && 1 <= self.upper,
            mult_pos(self.knots@),
            self.flatten@.len() == sum_mult(self.knots@) + 2 * self.n_extend,
        ensures
            r == prefix_mult(self.knots@, self.knot_index_spec(u) + 1) + self.n_extend - 1,
    {
        let ghost ks = self.knots@;
        let m = self.knots.len();
        let fl = self.flatten.len();
        let u_id = self.get_knot_index(u);
        proof {
            assert(prefix_mult(ks, 0) == 0);
            lemma_prefix_strict(ks, 0, u_id as int + 1);
            lemma_prefix_mono(ks, u_id as int + 1, ks.len() as int);
        }
        let idx = Self::prefix_mult_exec(&self.knots, u_id + 1) - 1;
        idx + self.n_extend
    }

    /// The parameter value at the lower end of the domain.
    pub fn lower_value(&self) -> (r: u32)
        requires
            self.lower <= self.upper < self.knots@.len(),
        ensures
            r == self.knots@[self.lower as int].value,
    {
        self.knots[self.lower].value
    }

    /// The parameter value at the upper end of the domain.
    pub fn upper_value(&self) -> (r: u32)
        requires
            self.lower <= self.upper < self.knots@.len(),
        ensures
            r == self.knots@[self.upper as int].value,
    {
        self.knots[self.upper].value
    }

    /// The sum of all multiplicities, exactly (the sum of `usize` values
    /// always fits in a `u128`).
    pub(crate) fn sum_mult_exec(knots: &Vec<BSplineKnot>) -> (r: u128)
        ensures
            r == sum_mult(knots@),
    {
        let mut acc: u128 = 0;
        let mut i: usize = 0;
        while i < knots.len()
            invariant
                i <= knots@.len(),
                acc == prefix_mult(knots@, i as int),
                acc <= i * 0xFFFF_FFFF_FFFF_FFFFu128,
            decreases knots@.len() - i,
        {
            assert(knots@[i as int].multiplicity <= 0xFFFF_FFFF_FFFF_FFFFu128) by {
                assert(usize::MAX <= 0xFFFF_FFFF_FFFF_FFFFu128);
            }
            acc = acc + knots[i].multiplicity as u128;
            i = i + 1;
        }
        acc
    }
}

} // verus!
