//! A small dense linear solver for the normal equations of the
//! least-squares fit: forward Gaussian elimination without pivot exchange,
//! a magnitude tolerance on each pivot, and back substitution, carried out
//! for three right-hand-side columns at once.
//!
//! This stands in for a singular-value decomposition: no such
//! decomposition is computable over the trusted scalar operations, and the
//! normal equations are symmetric positive semi-definite, where unpivoted
//! elimination is sound. A rank-deficient system is reported as a failure
//! (a pivot at or below the tolerance) rather than answered with a
//! minimal-norm solution.

use vstd::prelude::*;
use vstd::pervasive::VecAdditionalExecFns;
use crate::point::Point3;
use crate::scalar::{div_bits, lt_bits, mul_bits, sub_bits, sc_div, sc_lt, sc_mul, sc_sub};

verus! {

/// The bits of `1e-6`, the absolute tolerance below which a pivot counts
/// as zero.
pub const EPS_BITS: u32 = 0x3586_37BD;

/// The views of a vector of rows.
pub open spec fn row_views(vv: Seq<Vec<u32>>) -> Seq<Seq<u32>> {
    vv.map_values(|v: Vec<u32>| v@)
}

/// A pivot passes when its magnitude (sign bit cleared) lies strictly
/// above the tolerance; a NaN pivot fails.
pub open spec fn pivot_pass(x: u32) -> bool {
    lt_bits(EPS_BITS, x & 0x7FFF_FFFF)
}

/// One elimination column: every row below the pivot row has the pivot
/// row, scaled by its leading factor, subtracted from it.
pub open spec fn elim_col(rows: Seq<Seq<u32>>, c: int) -> Seq<Seq<u32>> {
    Seq::new(
        rows.len(),
        |r: int| if r <= c {
            rows[r]
        } else {
            let f = div_bits(rows[r][c], rows[c][c]);
            Seq::new(rows[r].len(), |j: int| sub_bits(rows[r][j], mul_bits(f, rows[c][j])))
        },
    )
}

/// The rows after the first `c` elimination columns.
pub open spec fn elim_upto(rows: Seq<Seq<u32>>, c: int) -> Seq<Seq<u32>>
    decreases c,
{
    if c <= 0 {
        rows
    } else {
        elim_col(elim_upto(rows, c - 1), c - 1)
    }
}

/// Whether the first `c` pivots all pass the tolerance.
pub open spec fn pivots_ok(rows: Seq<Seq<u32>>, c: int) -> bool
    decreases c,
{
    if c <= 0 {
        true
    } else {
        pivots_ok(rows, c - 1) && pivot_pass(elim_upto(rows, c - 1)[c - 1][c - 1])
    }
}

/// The running value of a back-substitution row: the right-hand-side entry
/// of column `w + t`, minus the products of the coefficients at `c+1 .. j`
/// with the already-solved variables.
pub open spec fn tail_dot(row: Seq<u32>, rest: Seq<u32>, w: int, c: int, j: int, t: int) -> u32
    decreases j - c,
{
    if j <= c + 1 {
        row[w + t]
    } else {
        sub_bits(tail_dot(row, rest, w, c, j - 1, t), mul_bits(row[j - 1], rest[j - 1 - (c + 1)]))
    }
}

/// The solved variables `c .. w-1` of right-hand-side column `t`, from the
/// bottom row up.
pub open spec fn solution_from(rows: Seq<Seq<u32>>, w: int, t: int, c: int) -> Seq<u32>
    decreases w - c,
{
    if c >= w {
        Seq::empty()
    } else {
        let rest = solution_from(rows, w, t, c + 1);
        let s = tail_dot(rows[c], rest, w, c, w, t);
        seq![div_bits(s, rows[c][c])] + rest
    }
}

/// The solution point of row `c`: one solved coordinate per right-hand-side
/// column.
pub open spec fn solution_point(rows: Seq<Seq<u32>>, w: int, c: int) -> Point3 {
    Point3 {
        x: solution_from(rows, w, 0, 0)[c],
        y: solution_from(rows, w, 1, 0)[c],
        z: solution_from(rows, w, 2, 0)[c],
    }
}

/// Solves the square system held in augmented rows (each row: `w` matrix
/// coefficients, then the three right-hand-side coordinates). Returns
/// `None` exactly when some pivot's magnitude falls to the tolerance.
pub fn solve_system(mat: Vec<Vec<u32>>) -> (r: Option<Vec<Point3>>)
    requires
        mat@.len() + 3 <= usize::MAX,
        forall|i: int| 0 <= i < mat@.len() ==> #[trigger] mat@[i]@.len() == mat@.len() + 3,
    ensures
        r is Some <==> pivots_ok(row_views(mat@), mat@.len() as int),
        r matches Some(sol) ==> {
            &&& sol@.len() == mat@.len()
            &&& forall|c: int| 0 <= c < mat@.len() ==> sol@[c] == solution_point(
                elim_upto(row_views(mat@), mat@.len() as int),
                mat@.len() as int,
                c,
            )
        },
{
    let ghost rows0 = row_views(mat@);
    let w = mat.len();
    let mut rows = mat;
    let mut c: usize = 0;
    while c < w
        invariant
            rows0 == row_views(mat@),
            w == mat@.len(),
            w == rows0.len(),
            w + 3 <= usize::MAX,
            c <= w,
            rows@.len() == w,
            forall|i: int| 0 <= i < w ==> #[trigger] rows@[i]@.len() == w + 3,
            row_views(rows@) == elim_upto(rows0, c as int),
            pivots_ok(rows0, c as int),
        decreases w - c,
    {
        let ghost before = row_views(rows@);
        let pivot = rows[c][c];
        if !sc_lt(EPS_BITS, pivot & 0x7FFF_FFFF) {
            proof {
                assert(!pivot_pass(before[c as int][c as int]));
                lemma_pivots_break(rows0, c as int, w as int);
            }
            return None;
        }
        let prow = copy_row(&rows[c]);
        let mut r_i: usize = c + 1;
        while r_i < w
            invariant
                w == before.len(),
                c < w,
                c + 1 <= r_i <= w,
                rows@.len() == w,
                forall|i: int| 0 <= i < w ==> #[trigger] rows@[i]@.len() == w + 3,
                prow@ == before[c as int],
                prow@.len() == w + 3,
                w + 3 <= usize::MAX,
                forall|i: int| 0 <= i < r_i ==> #[trigger] rows@[i]@ == elim_col(before, c as int)[i],
                forall|i: int| r_i <= i < w ==> #[trigger] rows@[i]@ == before[i],
            decreases w - r_i,
        {
            let ghost oldrow = rows@[r_i as int]@;
            let f = sc_div(rows[r_i][c], prow[c]);
            let mut newrow: Vec<u32> = Vec::new();
            let mut j: usize = 0;
            while j < w + 3
                invariant
                    c < w,
                    r_i < w,
                    rows@.len() == w,
                    rows@[r_i as int]@ == oldrow,
                    oldrow.len() == w + 3,
                    prow@.len() == w + 3,
                    w + 3 <= usize::MAX,
                    j <= w + 3,
                    newrow@.len() == j,
                    forall|q: int| 0 <= q < j ==> newrow@[q] == sub_bits(
                        oldrow[q],
                        mul_bits(f, prow@[q]),
                    ),
                decreases w + 3 - j,
            {
                newrow.push(sc_sub(rows[r_i][j], sc_mul(f, prow[j])));
                j = j + 1;
            }
            proof {
                assert(newrow@ =~= elim_col(before, c as int)[r_i as int]);
            }
            rows.set(r_i, newrow);
            r_i = r_i + 1;
        }
        proof {
            assert(row_views(rows@) =~= elim_col(before, c as int));
        }
        c = c + 1;
    }
    let ghost ef = elim_upto(rows0, w as int);
    let mut sx: Vec<u32> = Vec::new();
    let mut sy: Vec<u32> = Vec::new();
    let mut sz: Vec<u32> = Vec::new();
    let mut ci: usize = w;
    while ci > 0
        invariant
            w == rows0.len(),
            w + 3 <= usize::MAX,
            ci <= w,
            rows@.len() == w,
            forall|i: int| 0 <= i < w ==> #[trigger] rows@[i]@.len() == w + 3,
            row_views(rows@) == ef,
            sx@ == solution_from(ef, w as int, 0, ci as int),
            sy@ == solution_from(ef, w as int, 1, ci as int),
            sz@ == solution_from(ef, w as int, 2, ci as int),
            sx@.len() == w - ci,
            sy@.len() == w - ci,
            sz@.len() == w - ci,
        decreases ci,
    {
        let c2 = ci - 1;
        let mut s_x = rows[c2][w];
        let mut s_y = rows[c2][w + 1];
        let mut s_z = rows[c2][w + 2];
        let mut j: usize = c2 + 1;
        while j < w
            invariant
                w == rows0.len(),
                c2 < w,
                c2 + 1 <= j <= w,
                rows@.len() == w,
                forall|i: int| 0 <= i < w ==> #[trigger] rows@[i]@.len() == w + 3,
                row_views(rows@) == ef,
                sx@ == solution_from(ef, w as int, 0, c2 + 1),
                sy@ == solution_from(ef, w as int, 1, c2 + 1),
                sz@ == solution_from(ef, w as int, 2, c2 + 1),
                sx@.len() == w - c2 - 1,
                sy@.len() == w - c2 - 1,
                sz@.len() == w - c2 - 1,
                s_x == tail_dot(ef[c2 as int], sx@, w as int, c2 as int, j as int, 0),
                s_y == tail_dot(ef[c2 as int], sy@, w as int, c2 as int, j as int, 1),
                s_z == tail_dot(ef[c2 as int], sz@, w as int, c2 as int, j as int, 2),
            decreases w - j,
        {
            s_x = sc_sub(s_x, sc_mul(rows[c2][j], sx[j - (c2 + 1)]));
            s_y = sc_sub(s_y, sc_mul(rows[c2][j], sy[j - (c2 + 1)]));
            s_z = sc_sub(s_z, sc_mul(rows[c2][j], sz[j - (c2 + 1)]));
            j = j + 1;
        }
        let piv = rows[c2][c2];
        sx.insert(0, sc_div(s_x, piv));
        sy.insert(0, sc_div(s_y, piv));
        sz.insert(0, sc_div(s_z, piv));
        proof {
            assert(sx@ =~= solution_from(ef, w as int, 0, c2 as int));
            assert(sy@ =~= solution_from(ef, w as int, 1, c2 as int));
            assert(sz@ =~= solution_from(ef, w as int, 2, c2 as int));
        }
        ci = c2;
    }
    let mut out: Vec<Point3> = Vec::new();
    let mut oc: usize = 0;
    while oc < w
        invariant
            w == rows0.len(),
            oc <= w,
            sx@ == solution_from(ef, w as int, 0, 0),
            sy@ == solution_from(ef, w as int, 1, 0),
            sz@ == solution_from(ef, w as int, 2, 0),
            sx@.len() == w,
            sy@.len() == w,
            sz@.len() == w,
            out@.len() == oc,
            forall|q: int| 0 <= q < oc ==> out@[q] == solution_point(ef, w as int, q),
        decreases w - oc,
    {
        out.push(Point3 { x: sx[oc], y: sy[oc], z: sz[oc] });
        oc = oc + 1;
    }
    Some(out)
}

/// A copy of one row.
fn copy_row(row: &Vec<u32>) -> (r: Vec<u32>)
    ensures
        r@ == row@,
{
    let mut out: Vec<u32> = Vec::new();
    let mut i: usize = 0;
    while i < row.len()
        invariant
            i <= row@.len(),
            out@ == row@.take(i as int),
        decreases row@.len() - i,
    {
        out.push(row[i]);
        proof {
            assert(out@ =~= row@.take(i + 1));
        }
        i = i + 1;
    }
    proof {
        assert(row@.take(row@.len() as int) =~= row@);
    }
    out
}

/// Once one pivot fails, the longer prefix fails.
pub proof fn lemma_pivots_break(rows: Seq<Seq<u32>>, c: int, w: int)
    requires
        0 <= c < w,
        !pivot_pass(elim_upto(rows, c)[c][c]),
    ensures
        !pivots_ok(rows, w),
    decreases w,
{
    if w == c + 1 {
    } else {
        lemma_pivots_break(rows, c, w - 1);
    }
}

} // verus!
