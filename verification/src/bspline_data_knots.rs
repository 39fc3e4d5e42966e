//! Data parameterization: maps a point sequence to scalar parameters on
//! the unit interval for approximation.

use vstd::prelude::*;
use crate::point::{Point3, p_dist};
use crate::scalar::{
    add_bits, div_bits, mul_bits, sqrt_bits, usize_bits, sc_add, sc_div, sc_from_usize, sc_mul,
    sc_sqrt, ONE_BITS, ZERO_BITS,
};

verus! {

/// A parameterization strategy. The centripetal strategy uses the
/// square-root exponent (one half) on the chord lengths; an exponent of
/// one is the chord-length strategy.
#[derive(Debug, Clone, Copy, PartialEq, Eq, Structural)]
pub enum BSplineDataKnotsAlgo {
    /// Evenly spaced parameters.
    Uniform,
    /// Cumulative chord length, normalized by the total.
    ChordLength,
    /// Cumulative square root of chord length, normalized by the total.
    Centripetal,
}

/// The distance between two consecutive samples, raised to the strategy's
/// exponent.
pub open spec fn dist_pow(a: Point3, b: Point3, half: bool) -> u32 {
    if half {
        sqrt_bits(p_dist(a, b))
    } else {
        p_dist(a, b)
    }
}

/// The cumulative distance sum through sample `i`.
pub open spec fn acc_spec(data: Seq<Point3>, half: bool, i: int) -> u32
    decreases i,
{
    if i <= 0 {
        ZERO_BITS
    } else {
        add_bits(acc_spec(data, half, i - 1), dist_pow(data[i - 1], data[i], half))
    }
}

/// Evenly spaced parameters: `(i+1) / n`.
pub open spec fn uniform_spec(data: Seq<Point3>) -> Seq<u32> {
    Seq::new(
        data.len(),
        |i: int| mul_bits(usize_bits((i + 1) as usize), div_bits(ONE_BITS, usize_bits(data.len() as usize))),
    )
}

/// Cumulative powered chord lengths, normalized by the total. A dataset
/// whose total length is zero divides by zero; guarding against such
/// degenerate data is the caller's task.
pub open spec fn centripetal_spec(data: Seq<Point3>, half: bool) -> Seq<u32> {
    Seq::new(
        data.len(),
        |i: int| div_bits(acc_spec(data, half, i), acc_spec(data, half, data.len() - 1)),
    )
}

/// What each strategy assigns to a point sequence.
pub open spec fn generate_spec(algo: BSplineDataKnotsAlgo, data: Seq<Point3>) -> Seq<u32> {
    match algo {
        BSplineDataKnotsAlgo::Uniform => uniform_spec(data),
        BSplineDataKnotsAlgo::ChordLength => centripetal_spec(data, false),
        BSplineDataKnotsAlgo::Centripetal => centripetal_spec(data, true),
    }
}

impl BSplineDataKnotsAlgo {
    /// Maps the samples to monotonically growing parameters on the unit
    /// interval by the chosen strategy.
    pub fn generate(&self, data: &Vec<Point3>) -> (r: Vec<u32>)
        ensures
            r@ == generate_spec(*self, data@),
    {
        match self {
            BSplineDataKnotsAlgo::Uniform => uniform(data),
            BSplineDataKnotsAlgo::ChordLength => centripetal(data, false),
            BSplineDataKnotsAlgo::Centripetal => centripetal(data, true),
        }
    }
}

/// Evenly spaced parameters.
fn uniform(data: &Vec<Point3>) -> (r: Vec<u32>)
    ensures
        r@ == uniform_spec(data@),
{
    let ghost dv = data@;
    let len = data.len();
    let n = sc_div(ONE_BITS, sc_from_usize(len));
    let mut out: Vec<u32> = Vec::new();
    let mut i: usize = 0;
    while i < len
        invariant
            data@ == dv,
            len == dv.len(),
            i <= len,
            n == div_bits(ONE_BITS, usize_bits(len)),
            out@.len() == i,
            forall|q: int| 0 <= q < i ==> out@[q] == uniform_spec(dv)[q],
        decreases len - i,
    {
        out.push(sc_mul(sc_from_usize(i + 1), n));
        i = i + 1;
    }
    out
}

/// Cumulative powered chord lengths, normalized by the total.
fn centripetal(data: &Vec<Point3>, half: bool) -> (r: Vec<u32>)
    ensures
        r@ == centripetal_spec(data@, half),
{
    let ghost dv = data@;
    let len = data.len();
    let mut acc: Vec<u32> = Vec::new();
    let mut i: usize = 0;
    while i < len
        invariant
            data@ == dv,
            len == dv.len(),
            i <= len,
            acc@.len() == i,
            forall|q: int| 0 <= q < i ==> acc@[q] == acc_spec(dv, half, q),
        decreases len - i,
    {
        if i == 0 {
            acc.push(ZERO_BITS);
        } else {
            let mut d = data[i - 1].distance(data[i]);
            if half {
                d = sc_sqrt(d);
            }
            let prev = acc[i - 1];
            acc.push(sc_add(prev, d));
        }
        i = i + 1;
    }
    if len == 0 {
        proof {
            assert(acc@ =~= centripetal_spec(dv, half));
        }
        return acc;
    }
    let sum = acc[len - 1];
    let mut out: Vec<u32> = Vec::new();
    let mut j: usize = 0;
    while j < len
        invariant
            dv.len() == len,
            acc@.len() == len,
            1 <= len,
            sum == acc_spec(dv, half, len - 1),
            forall|q: int| 0 <= q < len ==> acc@[q] == acc_spec(dv, half, q),
            j <= len,
            out@.len() == j,
            forall|q: int| 0 <= q < j ==> out@[q] == centripetal_spec(dv, half)[q],
        decreases len - j,
    {
        out.push(sc_div(acc[j], sum));
        j = j + 1;
    }
    out
}

} // verus!
