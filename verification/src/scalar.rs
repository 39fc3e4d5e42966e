//! IEEE 754 single-precision scalars, carried as raw bit patterns (`u32`).
//!
//! No floating-point type appears in this crate; every arithmetic step goes
//! through one of the trusted operations below, each backed by the software
//! floating-point implementation of `rustc_apfloat` (IEEE 754 binary32,
//! rounded to nearest even, exactly as hardware single precision rounds).
//! Each operation's result is a pure function of the operand bits, named by
//! an uninterpreted spec function.

use vstd::prelude::*;
use rustc_apfloat::Float;

verus! {

/// The bit pattern of positive zero.
pub const ZERO_BITS: u32 = 0;

/// The bit pattern of negative zero.
pub const NEG_ZERO_BITS: u32 = 0x8000_0000;

/// The bit pattern of one.
pub const ONE_BITS: u32 = 0x3F80_0000;

/// The bit pattern of one half.
pub const HALF_BITS: u32 = 0x3F00_0000;

/// A single-precision value is zero exactly when its bits are one of the
/// two zero patterns.
pub open spec fn is_zero_bits(a: u32) -> bool {
    a == ZERO_BITS || a == NEG_ZERO_BITS
}

/// The bits of the sum of two single-precision values.
pub uninterp spec fn add_bits(a: u32, b: u32) -> u32;

/// The bits of the difference of two single-precision values.
pub uninterp spec fn sub_bits(a: u32, b: u32) -> u32;

/// The bits of the product of two single-precision values.
pub uninterp spec fn mul_bits(a: u32, b: u32) -> u32;

/// The bits of the quotient of two single-precision values.
pub uninterp spec fn div_bits(a: u32, b: u32) -> u32;

/// Whether the first single-precision value compares strictly below the
/// second (false when either operand is a NaN).
pub uninterp spec fn lt_bits(a: u32, b: u32) -> bool;

/// Whether the first single-precision value compares at or below the
/// second (false when either operand is a NaN).
pub uninterp spec fn le_bits(a: u32, b: u32) -> bool;

/// The bits of the single-precision value nearest to the given unsigned
/// integer.
pub uninterp spec fn usize_bits(n: usize) -> u32;

/// Relies on `rustc_apfloat::ieee::Single` addition (`add_r`, round to
/// nearest even): a pure function of the operand bits.
#[verifier::external_body]
pub(crate) fn sc_add(a: u32, b: u32) -> (r: u32)
    ensures
        r == add_bits(a, b),
{
    let x = rustc_apfloat::ieee::Single::from_bits(a as u128);
    let y = rustc_apfloat::ieee::Single::from_bits(b as u128);
    (x + y).value.to_bits() as u32
}

/// Relies on `rustc_apfloat::ieee::Single` subtraction (`sub_r`, round to
/// nearest even): a pure function of the operand bits.
#[verifier::external_body]
pub(crate) fn sc_sub(a: u32, b: u32) -> (r: u32)
    ensures
        r == sub_bits(a, b),
{
    let x = rustc_apfloat::ieee::Single::from_bits(a as u128);
    let y = rustc_apfloat::ieee::Single::from_bits(b as u128);
    (x - y).value.to_bits() as u32
}

/// Relies on `rustc_apfloat::ieee::Single` multiplication (`mul_r`, round
/// to nearest even): a pure function of the operand bits.
#[verifier::external_body]
pub(crate) fn sc_mul(a: u32, b: u32) -> (r: u32)
    ensures
        r == mul_bits(a, b),
{
    let x = rustc_apfloat::ieee::Single::from_bits(a as u128);
    let y = rustc_apfloat::ieee::Single::from_bits(b as u128);
    (x * y).value.to_bits() as u32
}

/// Relies on `rustc_apfloat::ieee::Single` division (`div_r`, round to
/// nearest even): a pure function of the operand bits; division by zero
/// yields an infinity or a NaN, never a panic.
#[verifier::external_body]
pub(crate) fn sc_div(a: u32, b: u32) -> (r: u32)
    ensures
        r == div_bits(a, b),
{
    let x = rustc_apfloat::ieee::Single::from_bits(a as u128);
    let y = rustc_apfloat::ieee::Single::from_bits(b as u128);
    (x / y).value.to_bits() as u32
}

/// Relies on `PartialOrd for rustc_apfloat::ieee::IeeeFloat`: the IEEE 754
/// comparison, a pure function of the operand bits; a NaN compares below
/// nothing.
#[verifier::external_body]
pub(crate) fn sc_lt(a: u32, b: u32) -> (r: bool)
    ensures
        r == lt_bits(a, b),
{
    let x = rustc_apfloat::ieee::Single::from_bits(a as u128);
    let y = rustc_apfloat::ieee::Single::from_bits(b as u128);
    x < y
}

/// Relies on `PartialOrd for rustc_apfloat::ieee::IeeeFloat`: the IEEE 754
/// comparison, a pure function of the operand bits; a NaN compares at or
/// below nothing.
#[verifier::external_body]
pub(crate) fn sc_le(a: u32, b: u32) -> (r: bool)
    ensures
        r == le_bits(a, b),
{
    let x = rustc_apfloat::ieee::Single::from_bits(a as u128);
    let y = rustc_apfloat::ieee::Single::from_bits(b as u128);
    x <= y
}

/// Relies on `rustc_apfloat::Float::is_zero`: true exactly for the two
/// IEEE 754 zero bit patterns (category `Zero`, i.e. plus or minus zero).
#[verifier::external_body]
pub(crate) fn sc_is_zero(a: u32) -> (r: bool)
    ensures
        r == is_zero_bits(a),
{
    rustc_apfloat::ieee::Single::from_bits(a as u128).is_zero()
}

/// Relies on `rustc_apfloat::Float::from_u128` (round to nearest even): the
/// single-precision value nearest to the integer, a pure function of it.
#[verifier::external_body]
pub(crate) fn sc_from_usize(n: usize) -> (r: u32)
    ensures
        r == usize_bits(n),
{
    rustc_apfloat::ieee::Single::from_u128(n as u128).value.to_bits() as u32
}

/// The square-root iteration below, as a spec-level recursion: one Newton
/// step maps `x` to `(x + a / x) / 2`.
pub open spec fn sqrt_iter_bits(a: u32, x: u32, n: nat) -> u32
    decreases n,
{
    if n == 0 {
        x
    } else {
        sqrt_iter_bits(a, mul_bits(HALF_BITS, add_bits(x, div_bits(a, x))), (n - 1) as nat)
    }
}

/// The seed the square root starts from: a shift-and-offset estimate read
/// off the bit pattern.
pub open spec fn sqrt_seed_bits(a: u32) -> u32 {
    ((a / 2) + 0x1FBD_1DF5) as u32
}

/// The square root this library uses: zero on a zero input, otherwise a
/// fixed number of Newton steps from the seeded estimate.
pub open spec fn sqrt_bits(a: u32) -> u32 {
    if is_zero_bits(a) {
        ZERO_BITS
    } else {
        sqrt_iter_bits(a, sqrt_seed_bits(a), 8)
    }
}

/// An approximate single-precision square root: Newton's method from a
/// bit-pattern seed, eight iterations.
pub fn sc_sqrt(a: u32) -> (r: u32)
    ensures
        r == sqrt_bits(a),
{
    if sc_is_zero(a) {
        return ZERO_BITS;
    }
    let mut x: u32 = (a / 2) + 0x1FBD_1DF5;
    let mut i: usize = 0;
    while i < 8
        invariant
            i <= 8,
            sqrt_iter_bits(a, x, (8 - i) as nat) == sqrt_iter_bits(a, sqrt_seed_bits(a), 8),
        decreases 8 - i,
    {
        x = sc_mul(HALF_BITS, sc_add(x, sc_div(a, x)));
        i = i + 1;
    }
    proof {
        assert(sqrt_iter_bits(a, x, 0) == x);
    }
    x
}

} // verus!
