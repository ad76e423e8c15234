//! The decimal128 primitive: what a bit pattern is classified as, and the
//! calls into the `decimal` crate that compute on bit patterns.
//!
//! A value crosses this boundary as a `u128`: the sixteen bytes of a `d128`
//! read as one number in the byte order of the host, which is the order in
//! which decNumber lays them out. Its top 32 bits are therefore, on every
//! host, the word that decNumber tests to classify a value. A `d128` is read
//! out with `to_raw_bytes`; one is made with `d128::from_hex`, which takes
//! the bytes lowest first whatever the host.
//!
//! The functions marked `external_body` are not proved. Each one's comment
//! says what is taken on trust about the call it makes.
use vstd::prelude::*;
use decimal::d128;
use decimal::Status;
use std::cmp::Ordering;
use std::str::FromStr;

verus! {

/// The bit pattern of positive zero with exponent zero.
pub const ZERO_BITS: u128 = 0x2208_0000_0000_0000_0000_0000_0000_0000;

/// NaN or infinity: the four bits below the sign are all set.
pub open spec fn is_special(bits: u128) -> bool {
    bits & 0x7800_0000_0000_0000_0000_0000_0000_0000 == 0x7800_0000_0000_0000_0000_0000_0000_0000
}

/// Quiet or signaling NaN: the five bits below the sign are all set.
pub open spec fn is_nan(bits: u128) -> bool {
    bits & 0x7c00_0000_0000_0000_0000_0000_0000_0000 == 0x7c00_0000_0000_0000_0000_0000_0000_0000
}

/// An infinity of either sign.
pub open spec fn is_infinite(bits: u128) -> bool {
    bits & 0x7c00_0000_0000_0000_0000_0000_0000_0000 == 0x7800_0000_0000_0000_0000_0000_0000_0000
}

/// Neither NaN nor an infinity.
pub open spec fn is_finite(bits: u128) -> bool {
    !is_special(bits)
}

/// The sign bit is set.
pub open spec fn is_signed(bits: u128) -> bool {
    bits & 0x8000_0000_0000_0000_0000_0000_0000_0000 != 0
}

/// A finite value whose coefficient is zero, whatever its sign and exponent.
pub open spec fn is_zero(bits: u128) -> bool {
    &&& bits & 0x1c00_3fff_ffff_ffff_ffff_ffff_ffff_ffff == 0
    &&& bits & 0x6000_0000_0000_0000_0000_0000_0000_0000 != 0x6000_0000_0000_0000_0000_0000_0000_0000
}

/// Below zero: signed, and neither a zero nor a NaN.
pub open spec fn is_negative(bits: u128) -> bool {
    is_signed(bits) && !is_zero(bits) && !is_nan(bits)
}

/// Every bit pattern is exactly one of NaN, infinite and finite.
pub proof fn lemma_classes_partition(bits: u128)
    ensures
        is_finite(bits) <==> !is_nan(bits) && !is_infinite(bits),
        !(is_nan(bits) && is_infinite(bits)),
{
    assert((bits & 0x7800_0000_0000_0000_0000_0000_0000_0000
        != 0x7800_0000_0000_0000_0000_0000_0000_0000) <==> (bits
        & 0x7c00_0000_0000_0000_0000_0000_0000_0000 != 0x7c00_0000_0000_0000_0000_0000_0000_0000
        && bits & 0x7c00_0000_0000_0000_0000_0000_0000_0000
        != 0x7800_0000_0000_0000_0000_0000_0000_0000)) by (bit_vector);
}

/// A zero is finite.
pub proof fn lemma_zero_is_finite(bits: u128)
    requires
        is_zero(bits),
    ensures
        is_finite(bits),
        !is_negative(bits),
{
    assert(bits & 0x6000_0000_0000_0000_0000_0000_0000_0000
        != 0x6000_0000_0000_0000_0000_0000_0000_0000 ==> bits
        & 0x7800_0000_0000_0000_0000_0000_0000_0000 != 0x7800_0000_0000_0000_0000_0000_0000_0000)
        by (bit_vector);
}

/// [`ZERO_BITS`] is a finite, unsigned zero.
pub proof fn lemma_zero_bits()
    ensures
        is_zero(ZERO_BITS),
        is_finite(ZERO_BITS),
        !is_signed(ZERO_BITS),
{
    let z: u128 = ZERO_BITS;
    assert(z & 0x1c00_3fff_ffff_ffff_ffff_ffff_ffff_ffff == 0 && z
        & 0x6000_0000_0000_0000_0000_0000_0000_0000 != 0x6000_0000_0000_0000_0000_0000_0000_0000
        && z & 0x8000_0000_0000_0000_0000_0000_0000_0000 == 0) by (bit_vector)
        requires
            z == 0x2208_0000_0000_0000_0000_0000_0000_0000u128,
    ;
    lemma_zero_is_finite(z);
}

/// What `d128::from_str` makes of a text: the bit pattern it returns, or
/// `None` where it reports that the text is no literal.
pub uninterp spec fn parse_of(text: Seq<char>) -> Option<u128>;

/// The text that `d128`'s `Display` writes for a bit pattern.
pub uninterp spec fn text_of(bits: u128) -> Seq<char>;

/// The bit pattern of `d128::from(i32)`.
pub uninterp spec fn of_i32(value: i32) -> u128;

/// The bit pattern of `d128::from(u32)`.
pub uninterp spec fn of_u32(value: u32) -> u128;

/// The bit pattern of `d128::from(i64)`.
pub uninterp spec fn of_i64(value: i64) -> u128;

/// The bit pattern of `d128::from(u64)`.
pub uninterp spec fn of_u64(value: u64) -> u128;

/// The bit pattern of `d128`'s `+`.
pub uninterp spec fn sum_of(a: u128, b: u128) -> u128;

/// The bit pattern of `d128`'s binary `-`.
pub uninterp spec fn difference_of(a: u128, b: u128) -> u128;

/// The bit pattern of `d128`'s `*`.
pub uninterp spec fn product_of(a: u128, b: u128) -> u128;

/// The bit pattern of `d128`'s `/`.
pub uninterp spec fn quotient_of(a: u128, b: u128) -> u128;

/// The bit pattern of `d128`'s `%`.
pub uninterp spec fn remainder_of(a: u128, b: u128) -> u128;

/// The bit pattern of `d128`'s unary `-`.
pub uninterp spec fn negation_of(a: u128) -> u128;

/// The bit pattern of `d128::abs`.
pub uninterp spec fn magnitude_of(a: u128) -> u128;

/// The bit pattern of `d128::max`.
pub uninterp spec fn larger_of(a: u128, b: u128) -> u128;

/// The bit pattern of `d128::min`.
pub uninterp spec fn smaller_of(a: u128, b: u128) -> u128;

/// The bit pattern of `d128::mul_add`: `a` times `b` plus `c`, rounded once.
pub uninterp spec fn fused_of(a: u128, b: u128, c: u128) -> u128;

/// The bit pattern of `d128::pow`: `a` raised to `b`.
pub uninterp spec fn power_of(a: u128, b: u128) -> u128;

/// The bit pattern of `d128::reduce`.
pub uninterp spec fn reduced_of(a: u128) -> u128;

/// The bit pattern of `d128::canonical`.
pub uninterp spec fn canonical_of(a: u128) -> u128;

/// What `d128`'s `partial_cmp` returns for `a` against `b`.
pub uninterp spec fn comparison_of(a: u128, b: u128) -> Option<Ordering>;

/// The operand that is not the smaller: `b` where `a` is less, else `a`.
pub open spec fn larger_operand(a: u128, b: u128) -> u128 {
    if comparison_of(a, b) == Some(Ordering::Less) {
        b
    } else {
        a
    }
}

/// The operand that is not the larger: `b` where `a` is greater, else `a`.
pub open spec fn smaller_operand(a: u128, b: u128) -> u128 {
    if comparison_of(a, b) == Some(Ordering::Greater) {
        b
    } else {
        a
    }
}

/// Calls `d128::zero`. Trusted: it returns [`ZERO_BITS`], the word that
/// decNumber stores for a quad zero followed by 96 clear bits.
#[verifier::external_body]
pub(crate) fn raw_zero() -> (r: u128)
    ensures
        r == ZERO_BITS,
{
    u128::from_ne_bytes(d128::zero().to_raw_bytes())
}

/// Calls `d128::from_str`, which reports a text that is no literal by
/// raising the thread's `CONVERSION_SYNTAX` flag; the flags that stood before
/// the call are kept. Trusted: the outcome depends on the text alone.
#[verifier::external_body]
pub(crate) fn raw_parse(text: &str) -> (r: Option<u128>)
    ensures
        r == parse_of(text@),
{
    let before = d128::get_status();
    d128::set_status(Status::empty());
    let parsed = d128::from_str(text);
    let raised = d128::get_status();
    d128::set_status(before | raised);
    match parsed {
        Ok(d) if !raised.contains(Status::CONVERSION_SYNTAX) => {
            Some(u128::from_ne_bytes(d.to_raw_bytes()))
        },
        _ => None,
    }
}

/// Calls `d128`'s `Display`. Trusted: the text depends on the bits alone.
#[verifier::external_body]
pub(crate) fn raw_format(a: u128) -> (r: String)
    ensures
        r@ == text_of(a),
{
    d128::from_hex(&format!("{:032x}", u128::from_le_bytes(a.to_ne_bytes()))).to_string()
}

/// Calls `d128::is_nan`. Trusted: it tests the five bits below the sign.
#[verifier::external_body]
pub(crate) fn raw_is_nan(a: u128) -> (r: bool)
    ensures
        r == is_nan(a),
{
    d128::from_hex(&format!("{:032x}", u128::from_le_bytes(a.to_ne_bytes()))).is_nan()
}

/// Calls `d128::is_infinite`. Trusted: it tests the five bits below the sign.
#[verifier::external_body]
pub(crate) fn raw_is_infinite(a: u128) -> (r: bool)
    ensures
        r == is_infinite(a),
{
    d128::from_hex(&format!("{:032x}", u128::from_le_bytes(a.to_ne_bytes()))).is_infinite()
}

/// Calls `d128::is_finite`. Trusted: it tests the four bits below the sign.
#[verifier::external_body]
pub(crate) fn raw_is_finite(a: u128) -> (r: bool)
    ensures
        r == is_finite(a),
{
    d128::from_hex(&format!("{:032x}", u128::from_le_bytes(a.to_ne_bytes()))).is_finite()
}

/// Calls `d128::is_zero`. Trusted: it tests that the coefficient's bits are
/// clear and that the value is not special.
#[verifier::external_body]
pub(crate) fn raw_is_zero(a: u128) -> (r: bool)
    ensures
        r == is_zero(a),
{
    d128::from_hex(&format!("{:032x}", u128::from_le_bytes(a.to_ne_bytes()))).is_zero()
}

/// Calls `d128::is_negative`. Trusted: signed, and neither zero nor NaN.
#[verifier::external_body]
pub(crate) fn raw_is_negative(a: u128) -> (r: bool)
    ensures
        r == is_negative(a),
{
    d128::from_hex(&format!("{:032x}", u128::from_le_bytes(a.to_ne_bytes()))).is_negative()
}

/// Calls `d128::from(i32)`. Trusted: the conversion is exact, so finite.
#[verifier::external_body]
pub(crate) fn raw_from_i32(value: i32) -> (r: u128)
    ensures
        r == of_i32(value),
        is_finite(r),
{
    u128::from_ne_bytes(d128::from(value).to_raw_bytes())
}

/// Calls `d128::from(u32)`. Trusted: the conversion is exact, so finite.
#[verifier::external_body]
pub(crate) fn raw_from_u32(value: u32) -> (r: u128)
    ensures
        r == of_u32(value),
        is_finite(r),
{
    u128::from_ne_bytes(d128::from(value).to_raw_bytes())
}

/// Calls `d128::from(i64)`. Trusted: the conversion is exact, so finite.
#[verifier::external_body]
pub(crate) fn raw_from_i64(value: i64) -> (r: u128)
    ensures
        r == of_i64(value),
        is_finite(r),
{
    u128::from_ne_bytes(d128::from(value).to_raw_bytes())
}

/// Calls `d128::from(u64)`. Trusted: the conversion is exact, so finite.
#[verifier::external_body]
pub(crate) fn raw_from_u64(value: u64) -> (r: u128)
    ensures
        r == of_u64(value),
        is_finite(r),
{
    u128::from_ne_bytes(d128::from(value).to_raw_bytes())
}

/// Calls `d128`'s `+`. Nothing is claimed of the sum but its name: it may be
/// an infinity where the operands are large.
#[verifier::external_body]
pub(crate) fn raw_add(a: u128, b: u128) -> (r: u128)
    ensures
        r == sum_of(a, b),
{
    let x = d128::from_hex(&format!("{:032x}", u128::from_le_bytes(a.to_ne_bytes())));
    let y = d128::from_hex(&format!("{:032x}", u128::from_le_bytes(b.to_ne_bytes())));
    u128::from_ne_bytes((x + y).to_raw_bytes())
}

/// Calls `d128`'s binary `-`. Nothing is claimed of the result but its name.
#[verifier::external_body]
pub(crate) fn raw_sub(a: u128, b: u128) -> (r: u128)
    ensures
        r == difference_of(a, b),
{
    let x = d128::from_hex(&format!("{:032x}", u128::from_le_bytes(a.to_ne_bytes())));
    let y = d128::from_hex(&format!("{:032x}", u128::from_le_bytes(b.to_ne_bytes())));
    u128::from_ne_bytes((x - y).to_raw_bytes())
}

/// Calls `d128`'s `*`. Nothing is claimed of the result but its name.
#[verifier::external_body]
pub(crate) fn raw_mul(a: u128, b: u128) -> (r: u128)
    ensures
        r == product_of(a, b),
{
    let x = d128::from_hex(&format!("{:032x}", u128::from_le_bytes(a.to_ne_bytes())));
    let y = d128::from_hex(&format!("{:032x}", u128::from_le_bytes(b.to_ne_bytes())));
    u128::from_ne_bytes((x * y).to_raw_bytes())
}

/// Calls `d128`'s `/`. Trusted: a zero divisor gives an infinity or a NaN,
/// whatever the dividend.
#[verifier::external_body]
pub(crate) fn raw_div(a: u128, b: u128) -> (r: u128)
    ensures
        r == quotient_of(a, b),
        is_zero(b) ==> is_special(r),
{
    let x = d128::from_hex(&format!("{:032x}", u128::from_le_bytes(a.to_ne_bytes())));
    let y = d128::from_hex(&format!("{:032x}", u128::from_le_bytes(b.to_ne_bytes())));
    u128::from_ne_bytes((x / y).to_raw_bytes())
}

/// Calls `d128`'s `%`. Trusted: a zero divisor gives a NaN, whatever the
/// dividend.
#[verifier::external_body]
pub(crate) fn raw_rem(a: u128, b: u128) -> (r: u128)
    ensures
        r == remainder_of(a, b),
        is_zero(b) ==> is_special(r),
{
    let x = d128::from_hex(&format!("{:032x}", u128::from_le_bytes(a.to_ne_bytes())));
    let y = d128::from_hex(&format!("{:032x}", u128::from_le_bytes(b.to_ne_bytes())));
    u128::from_ne_bytes((x % y).to_raw_bytes())
}

/// Calls `d128`'s unary `-`. Trusted: of a value that is not a NaN it
/// changes the sign alone, clearing it for a zero and flipping it otherwise,
/// so a finite operand gives a finite result.
#[verifier::external_body]
pub(crate) fn raw_neg(a: u128) -> (r: u128)
    ensures
        r == negation_of(a),
        is_finite(a) ==> is_finite(r) && is_signed(r) == (!is_signed(a) && !is_zero(a)),
{
    let x = d128::from_hex(&format!("{:032x}", u128::from_le_bytes(a.to_ne_bytes())));
    u128::from_ne_bytes((-x).to_raw_bytes())
}

/// Calls `d128::abs`. Trusted: of a value that is not a NaN it clears the
/// sign alone, so a finite operand gives a finite, unsigned result.
#[verifier::external_body]
pub(crate) fn raw_abs(a: u128) -> (r: u128)
    ensures
        r == magnitude_of(a),
        is_finite(a) ==> is_finite(r) && !is_signed(r),
{
    let x = d128::from_hex(&format!("{:032x}", u128::from_le_bytes(a.to_ne_bytes())));
    u128::from_ne_bytes(x.abs().to_raw_bytes())
}

/// Calls `d128::max`. Trusted: of two finite operands it returns the larger
/// one, in canonical encoding: a finite pattern that `partial_cmp` finds
/// equal to the second operand where the first is less, else to the first.
#[verifier::external_body]
pub(crate) fn raw_max(a: u128, b: u128) -> (r: u128)
    ensures
        r == larger_of(a, b),
        is_finite(a) && is_finite(b) ==> is_finite(r) && comparison_of(r, larger_operand(a, b))
            == Some(Ordering::Equal),
{
    let x = d128::from_hex(&format!("{:032x}", u128::from_le_bytes(a.to_ne_bytes())));
    let y = d128::from_hex(&format!("{:032x}", u128::from_le_bytes(b.to_ne_bytes())));
    u128::from_ne_bytes(x.max(y).to_raw_bytes())
}

/// Calls `d128::min`. Trusted: of two finite operands it returns the
/// smaller one, in canonical encoding: a finite pattern that `partial_cmp`
/// finds equal to the second operand where the first is greater, else to the
/// first.
#[verifier::external_body]
pub(crate) fn raw_min(a: u128, b: u128) -> (r: u128)
    ensures
        r == smaller_of(a, b),
        is_finite(a) && is_finite(b) ==> is_finite(r) && comparison_of(r, smaller_operand(a, b))
            == Some(Ordering::Equal),
{
    let x = d128::from_hex(&format!("{:032x}", u128::from_le_bytes(a.to_ne_bytes())));
    let y = d128::from_hex(&format!("{:032x}", u128::from_le_bytes(b.to_ne_bytes())));
    u128::from_ne_bytes(x.min(y).to_raw_bytes())
}

/// Calls `d128::mul_add`. Nothing is claimed of the result but its name.
#[verifier::external_body]
pub(crate) fn raw_mul_add(a: u128, b: u128, c: u128) -> (r: u128)
    ensures
        r == fused_of(a, b, c),
{
    let x = d128::from_hex(&format!("{:032x}", u128::from_le_bytes(a.to_ne_bytes())));
    let y = d128::from_hex(&format!("{:032x}", u128::from_le_bytes(b.to_ne_bytes())));
    let z = d128::from_hex(&format!("{:032x}", u128::from_le_bytes(c.to_ne_bytes())));
    u128::from_ne_bytes(x.mul_add(y, z).to_raw_bytes())
}

/// Calls `d128::pow`. Nothing is claimed of the result but its name.
#[verifier::external_body]
pub(crate) fn raw_pow(a: u128, b: u128) -> (r: u128)
    ensures
        r == power_of(a, b),
{
    let x = d128::from_hex(&format!("{:032x}", u128::from_le_bytes(a.to_ne_bytes())));
    let y = d128::from_hex(&format!("{:032x}", u128::from_le_bytes(b.to_ne_bytes())));
    u128::from_ne_bytes(x.pow(y).to_raw_bytes())
}

/// Calls `d128::reduce`. Nothing is claimed of the result but its name.
#[verifier::external_body]
pub(crate) fn raw_reduce(a: u128) -> (r: u128)
    ensures
        r == reduced_of(a),
{
    let x = d128::from_hex(&format!("{:032x}", u128::from_le_bytes(a.to_ne_bytes())));
    u128::from_ne_bytes(x.reduce().to_raw_bytes())
}

/// Calls `d128::canonical`. Nothing is claimed of the result but its name.
#[verifier::external_body]
pub(crate) fn raw_canonical(a: u128) -> (r: u128)
    ensures
        r == canonical_of(a),
{
    let x = d128::from_hex(&format!("{:032x}", u128::from_le_bytes(a.to_ne_bytes())));
    u128::from_ne_bytes(x.canonical().to_raw_bytes())
}

/// Calls `d128`'s `partial_cmp`. Trusted: it answers `None` only where an
/// operand is a NaN.
#[verifier::external_body]
pub(crate) fn raw_partial_cmp(a: u128, b: u128) -> (r: Option<Ordering>)
    ensures
        r == comparison_of(a, b),
        r is None ==> is_nan(a) || is_nan(b),
{
    let x = d128::from_hex(&format!("{:032x}", u128::from_le_bytes(a.to_ne_bytes())));
    let y = d128::from_hex(&format!("{:032x}", u128::from_le_bytes(b.to_ne_bytes())));
    x.partial_cmp(&y)
}

/// Calls `d128`'s `==`. Trusted: it holds exactly where `partial_cmp`
/// answers `Equal`, both being read off one numeric comparison.
#[verifier::external_body]
pub(crate) fn raw_eq(a: u128, b: u128) -> (r: bool)
    ensures
        r == (comparison_of(a, b) == Some(Ordering::Equal)),
{
    let x = d128::from_hex(&format!("{:032x}", u128::from_le_bytes(a.to_ne_bytes())));
    let y = d128::from_hex(&format!("{:032x}", u128::from_le_bytes(b.to_ne_bytes())));
    x == y
}

} // verus!
