//! IEEE-754 double-precision scalars, carried as their 64-bit patterns.
//!
//! Verified code never interprets a pattern as a number; every arithmetic
//! step is an outside call whose result is named by an uninterpreted spec
//! function of the operands' patterns alone. IEEE-754 fixes each
//! operation's value, but when that value is NaN the produced pattern is
//! the language's choice, and the trusted contracts say no more: the call
//! returns the named pattern, or some NaN when the named pattern is one.
//! Verified code then replaces every NaN by the canonical quiet NaN, so
//! each of the library's scalar operations (`add_c`, `mul_c`, ...) is a
//! genuine function of the operand patterns. `exp` and `tanh` come from
//! libm, whose pure-Rust routines give every non-NaN result the same
//! pattern for the same argument on every machine; negation and ordered
//! comparison need no name at all, as IEEE-754 fixes them exactly.

use vstd::prelude::*;
use byteorder::ByteOrder;

verus! {

/// Bit pattern of the double 0.0.
pub const F_ZERO: u64 = 0;
/// Bit pattern of the double 1.0.
pub const F_ONE: u64 = 0x3FF0_0000_0000_0000;
/// Bit pattern of the double 2.0.
pub const F_TWO: u64 = 0x4000_0000_0000_0000;
/// Bit pattern of the double 0.1, the framework's learning rate.
pub const F_TENTH: u64 = 0x3FB9_9999_9999_999A;
/// The canonical quiet NaN, standing in for every NaN a computation makes.
pub const F_QNAN: u64 = 0x7FF8_0000_0000_0000;

/// The exponent bits are all ones and the mantissa is not zero: the
/// pattern of a NaN.
pub open spec fn is_nan_bits(x: u64) -> bool {
    (x >> 52) & 0x7FF == 0x7FF && x & 0x000F_FFFF_FFFF_FFFF != 0
}

/// `x` with a NaN replaced by the canonical quiet NaN.
pub open spec fn canon_spec(x: u64) -> u64 {
    if is_nan_bits(x) {
        F_QNAN
    } else {
        x
    }
}

/// Every entry of `s` with a NaN replaced by the canonical quiet NaN.
pub open spec fn canon_row(s: Seq<u64>) -> Seq<u64> {
    Seq::new(s.len(), |j: int| canon_spec(s[j]))
}

/// `x` with a NaN replaced by the canonical quiet NaN, by the bit test.
pub(crate) fn canon(x: u64) -> (r: u64)
    ensures
        r == canon_spec(x),
{
    if (x >> 52) & 0x7FF == 0x7FF && x & 0x000F_FFFF_FFFF_FFFF != 0 {
        F_QNAN
    } else {
        x
    }
}

pub uninterp spec fn add_bits(a: u64, b: u64) -> u64;

pub uninterp spec fn sub_bits(a: u64, b: u64) -> u64;

pub uninterp spec fn mul_bits(a: u64, b: u64) -> u64;

pub uninterp spec fn div_bits(a: u64, b: u64) -> u64;

pub uninterp spec fn exp_bits(a: u64) -> u64;

pub uninterp spec fn tanh_bits(a: u64) -> u64;

pub uninterp spec fn count_bits(n: usize) -> u64;

/// The library's addition: the IEEE-754 sum with a canonical NaN.
pub open spec fn add_c(a: u64, b: u64) -> u64 {
    canon_spec(add_bits(a, b))
}

/// The library's subtraction: the IEEE-754 difference with a canonical NaN.
pub open spec fn sub_c(a: u64, b: u64) -> u64 {
    canon_spec(sub_bits(a, b))
}

/// The library's multiplication: the IEEE-754 product with a canonical NaN.
pub open spec fn mul_c(a: u64, b: u64) -> u64 {
    canon_spec(mul_bits(a, b))
}

/// The library's division: the IEEE-754 quotient with a canonical NaN.
pub open spec fn div_c(a: u64, b: u64) -> u64 {
    canon_spec(div_bits(a, b))
}

/// The library's e^a: libm's value with a canonical NaN.
pub open spec fn exp_c(a: u64) -> u64 {
    canon_spec(exp_bits(a))
}

/// The library's tanh: libm's value with a canonical NaN.
pub open spec fn tanh_c(a: u64) -> u64 {
    canon_spec(tanh_bits(a))
}

/// IEEE-754 negation: the sign bit flipped, everything else kept.
pub open spec fn neg_c(a: u64) -> u64 {
    a ^ 0x8000_0000_0000_0000
}

/// The magnitude bits: everything but the sign.
pub open spec fn mag_bits(x: u64) -> u64 {
    x & 0x7FFF_FFFF_FFFF_FFFF
}

/// The pattern's place in the numeric order: magnitude, negated for a set
/// sign bit. Both zeros map to 0.
pub open spec fn num_key(x: u64) -> int {
    if x >> 63 == 0 {
        mag_bits(x) as int
    } else {
        -(mag_bits(x) as int)
    }
}

/// IEEE-754 ordered `>`: false when either operand is a NaN, else the
/// sign-magnitude comparison of the patterns.
pub open spec fn gt_c(a: u64, b: u64) -> bool {
    !is_nan_bits(a) && !is_nan_bits(b) && num_key(a) > num_key(b)
}

/// Relies on IEEE-754 addition of doubles (std's `+` on two 64-bit
/// floats): the sum's value is fixed by the operand patterns; only when
/// the sum is NaN is the produced pattern unspecified.
#[verifier::external_body]
fn f_add_raw(a: u64, b: u64) -> (r: u64)
    ensures
        r == add_bits(a, b) || (is_nan_bits(r) && is_nan_bits(add_bits(a, b))),
{
    (byteorder::LittleEndian::read_f64(&a.to_le_bytes())
        + byteorder::LittleEndian::read_f64(&b.to_le_bytes())).to_bits()
}

/// Relies on IEEE-754 subtraction of doubles (std's `-`), as `f_add_raw`.
#[verifier::external_body]
fn f_sub_raw(a: u64, b: u64) -> (r: u64)
    ensures
        r == sub_bits(a, b) || (is_nan_bits(r) && is_nan_bits(sub_bits(a, b))),
{
    (byteorder::LittleEndian::read_f64(&a.to_le_bytes())
        - byteorder::LittleEndian::read_f64(&b.to_le_bytes())).to_bits()
}

/// Relies on IEEE-754 multiplication of doubles (std's `*`), as `f_add_raw`.
#[verifier::external_body]
fn f_mul_raw(a: u64, b: u64) -> (r: u64)
    ensures
        r == mul_bits(a, b) || (is_nan_bits(r) && is_nan_bits(mul_bits(a, b))),
{
    (byteorder::LittleEndian::read_f64(&a.to_le_bytes())
        * byteorder::LittleEndian::read_f64(&b.to_le_bytes())).to_bits()
}

/// Relies on IEEE-754 division of doubles (std's `/`), as `f_add_raw`.
#[verifier::external_body]
fn f_div_raw(a: u64, b: u64) -> (r: u64)
    ensures
        r == div_bits(a, b) || (is_nan_bits(r) && is_nan_bits(div_bits(a, b))),
{
    (byteorder::LittleEndian::read_f64(&a.to_le_bytes())
        / byteorder::LittleEndian::read_f64(&b.to_le_bytes())).to_bits()
}

/// Relies on libm's `exp`, a pure-Rust routine whose non-NaN results are
/// the same pattern for the same argument on every machine.
#[verifier::external_body]
fn f_exp_raw(a: u64) -> (r: u64)
    ensures
        r == exp_bits(a) || (is_nan_bits(r) && is_nan_bits(exp_bits(a))),
{
    libm::exp(byteorder::LittleEndian::read_f64(&a.to_le_bytes())).to_bits()
}

/// Relies on libm's `tanh`, as `f_exp_raw`.
#[verifier::external_body]
fn f_tanh_raw(a: u64) -> (r: u64)
    ensures
        r == tanh_bits(a) || (is_nan_bits(r) && is_nan_bits(tanh_bits(a))),
{
    libm::tanh(byteorder::LittleEndian::read_f64(&a.to_le_bytes())).to_bits()
}

/// The sum as the library computes it: canonical in its NaN.
pub(crate) fn f_add(a: u64, b: u64) -> (r: u64)
    ensures
        r == add_c(a, b),
{
    canon(f_add_raw(a, b))
}

/// The difference as the library computes it: canonical in its NaN.
pub(crate) fn f_sub(a: u64, b: u64) -> (r: u64)
    ensures
        r == sub_c(a, b),
{
    canon(f_sub_raw(a, b))
}

/// The product as the library computes it: canonical in its NaN.
pub(crate) fn f_mul(a: u64, b: u64) -> (r: u64)
    ensures
        r == mul_c(a, b),
{
    canon(f_mul_raw(a, b))
}

/// The quotient as the library computes it: canonical in its NaN.
pub(crate) fn f_div(a: u64, b: u64) -> (r: u64)
    ensures
        r == div_c(a, b),
{
    canon(f_div_raw(a, b))
}

/// e^a as the library computes it: canonical in its NaN.
pub(crate) fn f_exp(a: u64) -> (r: u64)
    ensures
        r == exp_c(a),
{
    canon(f_exp_raw(a))
}

/// tanh(a) as the library computes it: canonical in its NaN.
pub(crate) fn f_tanh(a: u64) -> (r: u64)
    ensures
        r == tanh_c(a),
{
    canon(f_tanh_raw(a))
}

/// Negation needs no outside call: IEEE-754 fixes it as a sign-bit flip.
pub(crate) fn f_neg(a: u64) -> (r: u64)
    ensures
        r == neg_c(a),
{
    a ^ 0x8000_0000_0000_0000
}

/// Relies on IEEE-754 ordered comparison (std's `>` on two 64-bit
/// floats), which the standard fixes for every pattern: false on a NaN,
/// else by sign and magnitude.
#[verifier::external_body]
pub(crate) fn f_gt(a: u64, b: u64) -> (r: bool)
    ensures
        r == gt_c(a, b),
{
    byteorder::LittleEndian::read_f64(&a.to_le_bytes())
        > byteorder::LittleEndian::read_f64(&b.to_le_bytes())
}

/// Relies on num-traits' `ToPrimitive::to_f64` for `usize`, which returns
/// `Some` of the round-to-nearest conversion for every `usize`.
#[verifier::external_body]
pub(crate) fn f_of_count(n: usize) -> (r: u64)
    ensures
        r == count_bits(n),
{
    num_traits::ToPrimitive::to_f64(&n).unwrap().to_bits()
}

} // verus!
