//! The two evaluation recursions: weighted de Boor blending and the
//! Cox–de Boor basis coefficients.

use vstd::prelude::*;
use crate::point::{BSplinePole, Point3, p_add, p_div, p_scale};
use crate::scalar::{
    add_bits, div_bits, is_zero_bits, le_bits, lt_bits, mul_bits, sub_bits, sc_add, sc_div,
    sc_is_zero, sc_le, sc_lt, sc_mul, sc_sub, ONE_BITS, ZERO_BITS,
};

verus! {

/// One de Boor blend: the interpolation factor `a = (u - kl) / (kh - kl)`
/// mixes two adjacent poles; when rational, the weights mix the same way,
/// otherwise the blended weight is left at zero.
pub open spec fn blend_pole(u: u32, kl: u32, kh: u32, a0: BSplinePole, a1: BSplinePole, rational: bool) -> BSplinePole {
    let a = div_bits(sub_bits(u, kl), sub_bits(kh, kl));
    let om = sub_bits(ONE_BITS, a);
    BSplinePole {
        pole: p_add(p_scale(om, a0.pole), p_scale(a, a1.pole)),
        weight: if rational {
            add_bits(mul_bits(om, a0.weight), mul_bits(a, a1.weight))
        } else {
            ZERO_BITS
        },
    }
}

/// One reduction round of the de Boor recursion: row `i` blends each pair
/// of neighbours against the window knots.
pub open spec fn de_boor_step(u: u32, knots: Seq<u32>, rs: Seq<BSplinePole>, degree: int, i: int, rational: bool) -> Seq<BSplinePole> {
    Seq::new(
        (degree - i) as nat,
        |j: int| blend_pole(u, knots[j + i], knots[j + degree], rs[j], rs[j + 1], rational),
    )
}

/// The pole row after `i` reduction rounds.
pub open spec fn de_boor_rows(u: u32, knots: Seq<u32>, poles: Seq<BSplinePole>, degree: int, i: int, rational: bool) -> Seq<BSplinePole>
    decreases i,
{
    if i <= 0 {
        poles
    } else {
        de_boor_step(u, knots, de_boor_rows(u, knots, poles, degree, i - 1, rational), degree, i - 1, rational)
    }
}

/// What the de Boor recursion evaluates to: the sole pole left after
/// `degree` rounds, de-projected by its blended weight when rational.
pub open spec fn de_boor_spec(u: u32, knots: Seq<u32>, poles: Seq<BSplinePole>, degree: int, rational: bool) -> Point3 {
    let last = de_boor_rows(u, knots, poles, degree, degree, rational);
    if rational {
        p_div(last[0].pole, last[0].weight)
    } else {
        last[0].pole
    }
}

/// Evaluates the weighted de Boor recursion over a local window of
/// `2 * degree` knots and `degree + 1` gathered poles.
pub fn de_boor(u: u32, knots: &Vec<u32>, poles: &Vec<BSplinePole>, degree: usize, rational: bool) -> (r: Point3)
    requires
        2 * degree <= knots@.len(),
        poles@.len() == degree + 1,
    ensures
        r == de_boor_spec(u, knots@, poles@, degree as int, rational),
{
    let ghost kn = knots@;
    let ghost ps = poles@;
    let nlen = knots.len();
    let mut rs: Vec<BSplinePole> = Vec::new();
    let mut k: usize = 0;
    while k < poles.len()
        invariant
            poles@ == ps,
            k <= ps.len(),
            rs@ == ps.take(k as int),
        decreases ps.len() - k,
    {
        rs.push(poles[k]);
        proof {
            assert(rs@ =~= ps.take(k + 1));
        }
        k = k + 1;
    }
    proof {
        assert(ps.take(ps.len() as int) =~= ps);
    }
    let mut i: usize = 0;
    while i < degree
        invariant
            knots@ == kn,
            2 * degree <= kn.len(),
            kn.len() <= usize::MAX,
            i <= degree,
            rs@.len() == degree + 1 - i,
            rs@ == de_boor_rows(u, kn, ps, degree as int, i as int, rational),
        decreases degree - i,
    {
        let mut rs_temp: Vec<BSplinePole> = Vec::new();
        let mut j: usize = 0;
        while j < degree - i
            invariant
                knots@ == kn,
                2 * degree <= kn.len(),
            kn.len() <= usize::MAX,
                i < degree,
                j <= degree - i,
                rs@.len() == degree + 1 - i,
                rs_temp@.len() == j,
                forall|q: int| 0 <= q < j ==> rs_temp@[q] == blend_pole(
                    u,
                    kn[q + i],
                    kn[q + degree],
                    rs@[q],
                    rs@[q + 1],
                    rational,
                ),
            decreases degree - i - j,
        {
            let kl = knots[j + i];
            let kh = knots[j + degree];
            let a = sc_div(sc_sub(u, kl), sc_sub(kh, kl));
            let om = sc_sub(ONE_BITS, a);
            let blended = rs[j].pole.scale(om).add(rs[j + 1].pole.scale(a));
            let wgt = if rational {
                sc_add(sc_mul(om, rs[j].weight), sc_mul(a, rs[j + 1].weight))
            } else {
                ZERO_BITS
            };
            rs_temp.push(BSplinePole { pole: blended, weight: wgt });
            j = j + 1;
        }
        proof {
            assert(rs_temp@ =~= de_boor_step(u, kn, rs@, degree as int, i as int, rational));
            assert(de_boor_rows(u, kn, ps, degree as int, i as int + 1, rational)
                == de_boor_step(
                    u,
                    kn,
                    de_boor_rows(u, kn, ps, degree as int, i as int, rational),
                    degree as int,
                    i as int,
                    rational,
                ));
        }
        rs = rs_temp;
        i = i + 1;
    }
    if rational {
        rs[0].pole.div(rs[0].weight)
    } else {
        rs[0].pole
    }
}

/// The Cox–de Boor recursion: the value of the order-`p` basis function
/// `N_{i,p}` at the parameter, over the flattened knots (shifted by the
/// periodic padding). A recursion term whose knot span has zero width
/// contributes zero.
pub open spec fn coe_spec(u: u32, knots: Seq<u32>, p: int, i: int, n_extend: int) -> u32
    decreases p,
{
    if p <= 0 {
        if le_bits(knots[n_extend + i], u) && lt_bits(u, knots[n_extend + i + 1]) {
            ONE_BITS
        } else {
            ZERO_BITS
        }
    } else {
        let f1 = sub_bits(knots[n_extend + i + p], knots[n_extend + i]);
        let f2 = sub_bits(knots[n_extend + i + p + 1], knots[n_extend + i + 1]);
        let n1 = coe_spec(u, knots, p - 1, i, n_extend);
        let n2 = coe_spec(u, knots, p - 1, i + 1, n_extend);
        let part1 = if is_zero_bits(f1) {
            ZERO_BITS
        } else {
            div_bits(mul_bits(sub_bits(u, knots[n_extend + i]), n1), f1)
        };
        let part2 = if is_zero_bits(f2) {
            ZERO_BITS
        } else {
            div_bits(mul_bits(sub_bits(knots[n_extend + i + p + 1], u), n2), f2)
        };
        add_bits(part1, part2)
    }
}

/// One basis-function value per pole, by the Cox–de Boor recursion. The
/// recursion is shared across poles: the triangular table below computes
/// each order from the previous one, so the whole call is quadratic in the
/// degree rather than exponential.
pub fn compute_coefficients(u: u32, knots: &Vec<u32>, nb_poles: usize, degree: usize, n_extend: usize) -> (r: Vec<u32>)
    requires
        n_extend + nb_poles + degree + 1 <= knots@.len(),
    ensures
        r@.len() == nb_poles,
        forall|i: int| 0 <= i < nb_poles ==> r@[i] == coe_spec(u, knots@, degree as int, i, n_extend as int),
{
    let ghost kn = knots@;
    let nlen = knots.len();
    let width0 = nb_poles + degree;
    let mut row: Vec<u32> = Vec::new();
    let mut i: usize = 0;
    while i < width0
        invariant
            knots@ == kn,
            width0 == nb_poles + degree,
            n_extend + width0 + 1 <= kn.len(),
            kn.len() <= usize::MAX,
            i <= width0,
            row@.len() == i,
            forall|q: int| 0 <= q < i ==> row@[q] == coe_spec(u, kn, 0, q, n_extend as int),
        decreases width0 - i,
    {
        let inside = sc_le(knots[n_extend + i], u) && sc_lt(u, knots[n_extend + i + 1]);
        row.push(if inside {
            ONE_BITS
        } else {
            ZERO_BITS
        });
        i = i + 1;
    }
    let mut p: usize = 1;
    while p <= degree
        invariant
            knots@ == kn,
            n_extend + nb_poles + degree + 1 <= kn.len(),
            kn.len() <= usize::MAX,
            1 <= p,
            p <= degree + 1,
            row@.len() == nb_poles + degree + 1 - p,
            forall|q: int| 0 <= q < row@.len() ==> row@[q] == coe_spec(u, kn, p - 1, q, n_extend as int),
        decreases degree + 1 - p,
    {
        let wid = nb_poles + degree - p;
        let mut nrow: Vec<u32> = Vec::new();
        let mut j: usize = 0;
        while j < wid
            invariant
                knots@ == kn,
                n_extend + nb_poles + degree + 1 <= kn.len(),
            kn.len() <= usize::MAX,
                1 <= p,
                p <= degree,
                wid == nb_poles + degree - p,
                row@.len() == wid + 1,
                forall|q: int| 0 <= q < row@.len() ==> row@[q] == coe_spec(u, kn, p - 1, q, n_extend as int),
                j <= wid,
                nrow@.len() == j,
                forall|q: int| 0 <= q < j ==> nrow@[q] == coe_spec(u, kn, p as int, q, n_extend as int),
            decreases wid - j,
        {
            let f1 = sc_sub(knots[n_extend + j + p], knots[n_extend + j]);
            let f2 = sc_sub(knots[n_extend + j + p + 1], knots[n_extend + j + 1]);
            let part1 = if sc_is_zero(f1) {
                ZERO_BITS
            } else {
                sc_div(sc_mul(sc_sub(u, knots[n_extend + j]), row[j]), f1)
            };
            let part2 = if sc_is_zero(f2) {
                ZERO_BITS
            } else {
                sc_div(sc_mul(sc_sub(knots[n_extend + j + p + 1], u), row[j + 1]), f2)
            };
            nrow.push(sc_add(part1, part2));
            j = j + 1;
        }
        row = nrow;
        p = p + 1;
    }
    row
}

} // verus!
