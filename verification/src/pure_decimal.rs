//! The decimal value type, its constructors, comparisons and arithmetic.
use vstd::prelude::*;
use std::cmp::Ordering;
use vstd::std_specs::cmp::PartialEqSpec;
use vstd::std_specs::cmp::PartialOrdSpec;
use vstd::std_specs::convert::FromSpec;
use crate::error::Error;
use crate::primitive::{
    canonical_of, comparison_of, difference_of, fused_of, is_finite, is_infinite, is_nan,
    is_negative, is_signed, is_zero, larger_of, larger_operand, lemma_classes_partition,
    lemma_zero_bits, magnitude_of, negation_of, of_i32, of_i64, of_u32, of_u64, parse_of,
    power_of, product_of, quotient_of, raw_abs, raw_add, raw_canonical, raw_div, raw_eq,
    raw_format, raw_from_i32, raw_from_i64, raw_from_u32, raw_from_u64, raw_is_finite,
    raw_is_infinite, raw_is_nan, raw_is_negative, raw_is_zero, raw_max, raw_min, raw_mul,
    raw_mul_add, raw_neg, raw_parse, raw_partial_cmp, raw_pow, raw_reduce, raw_rem, raw_sub,
    raw_zero, reduced_of, remainder_of, smaller_of, smaller_operand, sum_of, text_of, ZERO_BITS,
};

verus! {

/// A finite decimal number, held as its decimal128 bit pattern.
///
/// The view of a `Decimal` is that bit pattern. [`Decimal::wf`] is the
/// invariant of the type: no value ever holds a NaN or an infinity.
#[derive(Clone, Copy, Debug)]
pub struct Decimal {
    bits: u128,
}

impl View for Decimal {
    type V = u128;

    closed spec fn view(&self) -> u128 {
        self.bits
    }
}

impl Decimal {
    /// The invariant of the type: the bit pattern is neither NaN nor infinite.
    /// Verus holds every constructor and every assignment to it.
    #[verifier::type_invariant]
    pub open spec fn wf(&self) -> bool {
        is_finite(self@)
    }

    /// What becomes of a bit pattern offered as a value: a NaN and an
    /// infinity are turned away, each with its own error.
    pub open spec fn admitted(bits: u128) -> Result<u128, Error> {
        if is_nan(bits) {
            Err(Error::NotANumber)
        } else if is_infinite(bits) {
            Err(Error::Infinite)
        } else {
            Ok(bits)
        }
    }

    /// What becomes of a text: a parse error where the primitive rejects it,
    /// else whatever [`Decimal::admitted`] says of the parsed bit pattern.
    pub open spec fn parse_result(text: Seq<char>) -> Result<u128, Error> {
        match parse_of(text) {
            None => Err(Error::Parse),
            Some(bits) => Self::admitted(bits),
        }
    }

    /// What becomes of a quotient or remainder: a value where it is finite.
    pub open spec fn guarded(bits: u128) -> Result<u128, Error> {
        if is_finite(bits) {
            Ok(bits)
        } else {
            Err(Error::NonFiniteResult)
        }
    }

    /// `r` is the outcome `expected`, and holds a well-formed value if any.
    pub open spec fn agrees(r: Result<Decimal, Error>, expected: Result<u128, Error>) -> bool {
        match r {
            Ok(d) => expected == Ok::<u128, Error>(d@) && d.wf(),
            Err(e) => expected == Err::<u128, Error>(e),
        }
    }

    /// The left-to-right sum of `items`, starting from zero.
    pub open spec fn fold_sum(items: Seq<Decimal>) -> u128
        decreases items.len(),
    {
        if items.len() == 0 {
            ZERO_BITS
        } else {
            sum_of(Self::fold_sum(items.drop_last()), items.last()@)
        }
    }

    /// Every partial sum of `items`, taken from the left, is finite.
    pub open spec fn summable(items: Seq<Decimal>) -> bool {
        forall|k: int| 0 <= k <= items.len() ==> is_finite(#[trigger] Self::fold_sum(items.take(k)))
    }

    /// The bit pattern by which values are hashed: one pattern for every
    /// zero, and for any other value its canonical encoding with the
    /// trailing zeros of the coefficient taken off.
    pub open spec fn hash_key_spec(&self) -> u128 {
        if is_zero(self@) {
            ZERO_BITS
        } else {
            reduced_of(canonical_of(self@))
        }
    }

    /// Adding one more item to a prefix adds it to the prefix's sum.
    pub proof fn lemma_fold_sum_step(items: Seq<Decimal>, k: int)
        requires
            0 <= k < items.len(),
        ensures
            Self::fold_sum(items.take(k + 1)) == sum_of(Self::fold_sum(items.take(k)), items[k]@),
    {
        assert(items.take(k + 1).drop_last() =~= items.take(k));
    }

    /// A literal that the primitive reads as a NaN or an infinity never
    /// becomes a value: reading it fails, with [`Error::NotANumber`] for a
    /// NaN and [`Error::Infinite`] for an infinity.
    pub proof fn lemma_non_finite_literal_rejected(text: Seq<char>, r: Result<Decimal, Error>)
        requires
            parse_of(text) matches Some(bits) && !is_finite(bits),
            Self::agrees(r, Self::parse_result(text)),
        ensures
            r is Err,
            is_nan(parse_of(text).unwrap()) ==> r == Err::<Decimal, Error>(Error::NotANumber),
            !is_nan(parse_of(text).unwrap()) ==> r == Err::<Decimal, Error>(Error::Infinite),
    {
        lemma_classes_partition(parse_of(text).unwrap());
    }

    /// Reading a text gives a value exactly where the primitive reads it as
    /// a finite bit pattern, and then the value holds that pattern.
    pub proof fn lemma_literal_accepted_iff_finite(text: Seq<char>, r: Result<Decimal, Error>)
        requires
            Self::agrees(r, Self::parse_result(text)),
        ensures
            r is Ok <==> (parse_of(text) matches Some(bits) && is_finite(bits)),
            r matches Ok(d) ==> parse_of(text) == Some(d@) && d.wf(),
    {
        if parse_of(text) is Some {
            lemma_classes_partition(parse_of(text).unwrap());
        }
    }

    /// A division or a remainder gives a value exactly where the primitive's
    /// result is finite; in every other case it fails with
    /// [`Error::NonFiniteResult`] and no value is made.
    pub proof fn lemma_guarded_outcome(bits: u128, r: Result<Decimal, Error>)
        requires
            Self::agrees(r, Self::guarded(bits)),
        ensures
            r is Ok <==> is_finite(bits),
            r matches Ok(d) ==> d@ == bits && d.wf(),
            r is Err ==> r == Err::<Decimal, Error>(Error::NonFiniteResult),
    {
    }

    /// Two values are equal exactly where the order between them is
    /// `Equal`: `==`, `partial_cmp` and `cmp` read one comparison.
    pub proof fn lemma_eq_is_order_equal(a: Decimal, b: Decimal)
        ensures
            a.eq_spec(&b) <==> a.partial_cmp_spec(&b) == Some(Ordering::Equal),
    {
    }

    /// What `Decimal::from` gives for an integer holds the bit pattern that
    /// the primitive converts that integer to.
    pub proof fn lemma_from_integer(a: i32, b: u32, c: i64, d: u64)
        ensures
            Decimal::from_spec(a)@ == of_i32(a),
            Decimal::from_spec(b)@ == of_u32(b),
            Decimal::from_spec(c)@ == of_i64(c),
            Decimal::from_spec(d)@ == of_u64(d),
    {
    }

    /// Makes a value of a bit pattern, unless the pattern is a NaN or an
    /// infinity.
    pub fn from_bits(bits: u128) -> (r: Result<Decimal, Error>)
        ensures
            Self::agrees(r, Self::admitted(bits)),
    {
        proof {
            lemma_classes_partition(bits);
        }
        if raw_is_nan(bits) {
            Err(Error::NotANumber)
        } else if raw_is_infinite(bits) {
            Err(Error::Infinite)
        } else {
            Ok(Decimal { bits })
        }
    }

    /// The bit pattern of this value.
    pub fn to_bits(&self) -> (r: u128)
        ensures
            r == self@,
    {
        self.bits
    }

    /// The value `0`.
    pub fn zero() -> (r: Decimal)
        ensures
            r@ == ZERO_BITS,
            r.wf(),
            is_zero(r@),
    {
        proof {
            lemma_zero_bits();
        }
        Decimal { bits: raw_zero() }
    }

    /// Reads a decimal literal. Fails with [`Error::Parse`] where the text is
    /// no literal, with [`Error::NotANumber`] or [`Error::Infinite`] where it
    /// is one but does not spell a finite number.
    pub fn from_str(s: &str) -> (r: Result<Decimal, Error>)
        ensures
            Self::agrees(r, Self::parse_result(s@)),
    {
        match raw_parse(s) {
            Some(bits) => Self::from_bits(bits),
            None => Err(Error::Parse),
        }
    }

    /// The canonical text of this value.
    pub fn to_string(&self) -> (r: String)
        ensures
            r@ == text_of(self@),
    {
        raw_format(self.bits)
    }

    /// The exact value of a signed 32-bit integer.
    pub fn from_i32(value: i32) -> (r: Decimal)
        ensures
            r@ == of_i32(value),
            r.wf(),
    {
        Decimal { bits: raw_from_i32(value) }
    }

    /// The exact value of an unsigned 32-bit integer.
    pub fn from_u32(value: u32) -> (r: Decimal)
        ensures
            r@ == of_u32(value),
            r.wf(),
    {
        Decimal { bits: raw_from_u32(value) }
    }

    /// The exact value of a signed 64-bit integer.
    pub fn from_i64(value: i64) -> (r: Decimal)
        ensures
            r@ == of_i64(value),
            r.wf(),
    {
        Decimal { bits: raw_from_i64(value) }
    }

    /// The exact value of an unsigned 64-bit integer.
    pub fn from_u64(value: u64) -> (r: Decimal)
        ensures
            r@ == of_u64(value),
            r.wf(),
    {
        Decimal { bits: raw_from_u64(value) }
    }

    /// The larger of `self` and `other`.
    pub fn max(self, other: &Decimal) -> (r: Decimal)
        ensures
            r@ == larger_of(self@, other@),
            r.wf(),
            comparison_of(r@, larger_operand(self@, other@)) == Some(Ordering::Equal),
    {
        proof {
            use_type_invariant(&self);
            use_type_invariant(other);
        }
        Decimal { bits: raw_max(self.bits, other.bits) }
    }

    /// The smaller of `self` and `other`.
    pub fn min(self, other: &Decimal) -> (r: Decimal)
        ensures
            r@ == smaller_of(self@, other@),
            r.wf(),
            comparison_of(r@, smaller_operand(self@, other@)) == Some(Ordering::Equal),
    {
        proof {
            use_type_invariant(&self);
            use_type_invariant(other);
        }
        Decimal { bits: raw_min(self.bits, other.bits) }
    }

    /// The absolute value of `self`.
    pub fn abs(&self) -> (r: Decimal)
        ensures
            r@ == magnitude_of(self@),
            r.wf(),
            !is_negative(r@),
    {
        proof {
            use_type_invariant(self);
        }
        Decimal { bits: raw_abs(self.bits) }
    }

    /// `self` with its sign changed.
    pub fn neg(&self) -> (r: Decimal)
        ensures
            r@ == negation_of(self@),
            r.wf(),
            is_signed(r@) == (!is_signed(self@) && !is_zero(self@)),
    {
        proof {
            use_type_invariant(self);
        }
        Decimal { bits: raw_neg(self.bits) }
    }

    /// Whether `self` is below zero.
    pub fn is_negative(&self) -> (r: bool)
        ensures
            r == is_negative(self@),
    {
        raw_is_negative(self.bits)
    }

    /// Whether `self` is zero, of either sign and any exponent.
    pub fn is_zero(&self) -> (r: bool)
        ensures
            r == is_zero(self@),
    {
        raw_is_zero(self.bits)
    }

    /// `self` times `a` plus `b`, rounded once. The caller shows that the
    /// result is finite; [`Decimal::checked_mul_add`] asks nothing.
    pub fn mul_add(self, a: &Decimal, b: &Decimal) -> (r: Decimal)
        requires
            is_finite(fused_of(self@, a@, b@)),
        ensures
            r@ == fused_of(self@, a@, b@),
            r.wf(),
    {
        Decimal { bits: raw_mul_add(self.bits, a.bits, b.bits) }
    }

    /// `self` times `a` plus `b`, or `None` where that is not finite.
    pub fn checked_mul_add(self, a: &Decimal, b: &Decimal) -> (r: Option<Decimal>)
        ensures
            match r {
                Some(d) => d@ == fused_of(self@, a@, b@) && d.wf(),
                None => !is_finite(fused_of(self@, a@, b@)),
            },
    {
        if raw_is_finite(raw_mul_add(self.bits, a.bits, b.bits)) {
            Some(self.mul_add(a, b))
        } else {
            None
        }
    }

    /// `self` raised to `exp`. The caller shows that the result is finite;
    /// [`Decimal::checked_pow`] asks nothing.
    pub fn pow(self, exp: &Decimal) -> (r: Decimal)
        requires
            is_finite(power_of(self@, exp@)),
        ensures
            r@ == power_of(self@, exp@),
            r.wf(),
    {
        Decimal { bits: raw_pow(self.bits, exp.bits) }
    }

    /// `self` raised to `exp`, or `None` where that is not finite.
    pub fn checked_pow(self, exp: &Decimal) -> (r: Option<Decimal>)
        ensures
            match r {
                Some(d) => d@ == power_of(self@, exp@) && d.wf(),
                None => !is_finite(power_of(self@, exp@)),
            },
    {
        if raw_is_finite(raw_pow(self.bits, exp.bits)) {
            Some(self.pow(exp))
        } else {
            None
        }
    }

    /// `self` plus `other`. The caller shows that the sum is finite;
    /// [`Decimal::checked_add`] asks nothing.
    pub fn add(&self, other: &Decimal) -> (r: Decimal)
        requires
            is_finite(sum_of(self@, other@)),
        ensures
            r@ == sum_of(self@, other@),
            r.wf(),
    {
        Decimal { bits: raw_add(self.bits, other.bits) }
    }

    /// `self` plus `other`, or `None` where the sum is not finite.
    pub fn checked_add(&self, other: &Decimal) -> (r: Option<Decimal>)
        ensures
            match r {
                Some(d) => d@ == sum_of(self@, other@) && d.wf(),
                None => !is_finite(sum_of(self@, other@)),
            },
    {
        if raw_is_finite(raw_add(self.bits, other.bits)) {
            Some(self.add(other))
        } else {
            None
        }
    }

    /// `self` minus `other`. The caller shows that the difference is finite;
    /// [`Decimal::checked_sub`] asks nothing.
    pub fn sub(&self, other: &Decimal) -> (r: Decimal)
        requires
            is_finite(difference_of(self@, other@)),
        ensures
            r@ == difference_of(self@, other@),
            r.wf(),
    {
        Decimal { bits: raw_sub(self.bits, other.bits) }
    }

    /// `self` minus `other`, or `None` where the difference is not finite.
    pub fn checked_sub(&self, other: &Decimal) -> (r: Option<Decimal>)
        ensures
            match r {
                Some(d) => d@ == difference_of(self@, other@) && d.wf(),
                None => !is_finite(difference_of(self@, other@)),
            },
    {
        if raw_is_finite(raw_sub(self.bits, other.bits)) {
            Some(self.sub(other))
        } else {
            None
        }
    }

    /// `self` times `other`. The caller shows that the product is finite;
    /// [`Decimal::checked_mul`] asks nothing.
    pub fn mul(&self, other: &Decimal) -> (r: Decimal)
        requires
            is_finite(product_of(self@, other@)),
        ensures
            r@ == product_of(self@, other@),
            r.wf(),
    {
        Decimal { bits: raw_mul(self.bits, other.bits) }
    }

    /// `self` times `other`, or `None` where the product is not finite.
    pub fn checked_mul(&self, other: &Decimal) -> (r: Option<Decimal>)
        ensures
            match r {
                Some(d) => d@ == product_of(self@, other@) && d.wf(),
                None => !is_finite(product_of(self@, other@)),
            },
    {
        if raw_is_finite(raw_mul(self.bits, other.bits)) {
            Some(self.mul(other))
        } else {
            None
        }
    }

    /// `self` divided by `other`: the quotient where it is finite, else
    /// [`Error::NonFiniteResult`]. Division by a zero always fails.
    pub fn div(&self, other: &Decimal) -> (r: Result<Decimal, Error>)
        ensures
            Self::agrees(r, Self::guarded(quotient_of(self@, other@))),
            is_zero(other@) ==> r == Err::<Decimal, Error>(Error::NonFiniteResult),
    {
        let val = raw_div(self.bits, other.bits);
        if raw_is_finite(val) {
            Ok(Decimal { bits: val })
        } else {
            Err(Error::NonFiniteResult)
        }
    }

    /// The remainder of `self` divided by `other` where it is finite, else
    /// [`Error::NonFiniteResult`]. A zero divisor always fails.
    pub fn rem(&self, other: &Decimal) -> (r: Result<Decimal, Error>)
        ensures
            Self::agrees(r, Self::guarded(remainder_of(self@, other@))),
            is_zero(other@) ==> r == Err::<Decimal, Error>(Error::NonFiniteResult),
    {
        let val = raw_rem(self.bits, other.bits);
        if raw_is_finite(val) {
            Ok(Decimal { bits: val })
        } else {
            Err(Error::NonFiniteResult)
        }
    }

    /// Replaces `self` by `self` plus `other`. The caller shows that the sum
    /// is finite; [`Decimal::try_add_assign`] asks nothing.
    pub fn add_assign(&mut self, other: Decimal)
        requires
            is_finite(sum_of(old(self)@, other@)),
        ensures
            final(self)@ == sum_of(old(self)@, other@),
            final(self).wf(),
    {
        self.bits = raw_add(self.bits, other.bits);
    }

    /// Replaces `self` by `self` minus `other`. The caller shows that the
    /// difference is finite; [`Decimal::try_sub_assign`] asks nothing.
    pub fn sub_assign(&mut self, other: Decimal)
        requires
            is_finite(difference_of(old(self)@, other@)),
        ensures
            final(self)@ == difference_of(old(self)@, other@),
            final(self).wf(),
    {
        self.bits = raw_sub(self.bits, other.bits);
    }

    /// Replaces `self` by `self` times `other`. The caller shows that the
    /// product is finite; [`Decimal::try_mul_assign`] asks nothing.
    pub fn mul_assign(&mut self, other: Decimal)
        requires
            is_finite(product_of(old(self)@, other@)),
        ensures
            final(self)@ == product_of(old(self)@, other@),
            final(self).wf(),
    {
        self.bits = raw_mul(self.bits, other.bits);
    }

    /// Adds `other` to `self` where the sum is finite and says so; else
    /// leaves `self` as it was.
    pub fn try_add_assign(&mut self, other: Decimal) -> (done: bool)
        ensures
            done == is_finite(sum_of(old(self)@, other@)),
            done ==> final(self)@ == sum_of(old(self)@, other@),
            !done ==> *final(self) == *old(self),
            final(self).wf(),
    {
        proof {
            use_type_invariant(&*self);
        }
        if raw_is_finite(raw_add(self.bits, other.bits)) {
            self.add_assign(other);
            true
        } else {
            false
        }
    }

    /// Subtracts `other` from `self` where the difference is finite and says
    /// so; else leaves `self` as it was.
    pub fn try_sub_assign(&mut self, other: Decimal) -> (done: bool)
        ensures
            done == is_finite(difference_of(old(self)@, other@)),
            done ==> final(self)@ == difference_of(old(self)@, other@),
            !done ==> *final(self) == *old(self),
            final(self).wf(),
    {
        proof {
            use_type_invariant(&*self);
        }
        if raw_is_finite(raw_sub(self.bits, other.bits)) {
            self.sub_assign(other);
            true
        } else {
            false
        }
    }

    /// Multiplies `self` by `other` where the product is finite and says so;
    /// else leaves `self` as it was.
    pub fn try_mul_assign(&mut self, other: Decimal) -> (done: bool)
        ensures
            done == is_finite(product_of(old(self)@, other@)),
            done ==> final(self)@ == product_of(old(self)@, other@),
            !done ==> *final(self) == *old(self),
            final(self).wf(),
    {
        proof {
            use_type_invariant(&*self);
        }
        if raw_is_finite(raw_mul(self.bits, other.bits)) {
            self.mul_assign(other);
            true
        } else {
            false
        }
    }

    /// The sum of `items`, added from the left to zero. The caller shows that
    /// every partial sum is finite; [`Decimal::checked_sum`] asks nothing.
    pub fn sum(items: &Vec<Decimal>) -> (r: Decimal)
        requires
            Self::summable(items@),
        ensures
            r@ == Self::fold_sum(items@),
            r.wf(),
    {
        let mut acc = Decimal::zero();
        let mut i: usize = 0;
        assert(items@.take(0) =~= Seq::<Decimal>::empty());
        while i < items.len()
            invariant
                0 <= i <= items@.len(),
                Self::summable(items@),
                acc@ == Self::fold_sum(items@.take(i as int)),
                acc.wf(),
            decreases items@.len() - i,
        {
            proof {
                Self::lemma_fold_sum_step(items@, i as int);
                assert(is_finite(Self::fold_sum(items@.take(i + 1))));
            }
            acc = acc.add(&items[i]);
            i = i + 1;
        }
        assert(items@.take(items@.len() as int) =~= items@);
        acc
    }

    /// The sum of `items`, or `None` where some partial sum is not finite.
    pub fn checked_sum(items: &Vec<Decimal>) -> (r: Option<Decimal>)
        ensures
            match r {
                Some(d) => Self::summable(items@) && d@ == Self::fold_sum(items@) && d.wf(),
                None => !Self::summable(items@),
            },
    {
        let mut acc: u128 = raw_zero();
        let mut i: usize = 0;
        proof {
            lemma_zero_bits();
            assert(items@.take(0) =~= Seq::<Decimal>::empty());
        }
        while i < items.len()
            invariant
                0 <= i <= items@.len(),
                acc == Self::fold_sum(items@.take(i as int)),
                forall|k: int| 0 <= k <= i ==> is_finite(#[trigger] Self::fold_sum(items@.take(k))),
            decreases items@.len() - i,
        {
            proof {
                Self::lemma_fold_sum_step(items@, i as int);
            }
            let next = raw_add(acc, items[i].bits);
            if !raw_is_finite(next) {
                assert(!is_finite(Self::fold_sum(items@.take(i + 1))));
                return None;
            }
            acc = next;
            i = i + 1;
        }
        Some(Self::sum(items))
    }

    /// The order of `self` against `other`. Two finite values always have
    /// one.
    pub fn cmp(&self, other: &Decimal) -> (r: Ordering)
        ensures
            comparison_of(self@, other@) == Some(r),
    {
        proof {
            use_type_invariant(self);
            use_type_invariant(other);
            lemma_classes_partition(self@);
            lemma_classes_partition(other@);
        }
        match raw_partial_cmp(self.bits, other.bits) {
            Some(order) => order,
            None => vstd::pervasive::unreached(),
        }
    }

    /// The bit pattern to hash this value by: see
    /// [`Decimal::hash_key_spec`].
    pub fn hash_key(&self) -> (r: u128)
        ensures
            r == self.hash_key_spec(),
    {
        if raw_is_zero(self.bits) {
            raw_zero()
        } else {
            raw_reduce(raw_canonical(self.bits))
        }
    }

    /// All zeros, whatever their sign and exponent, hash alike.
    pub proof fn lemma_zeros_share_hash_key(a: Decimal, b: Decimal)
        requires
            is_zero(a@),
            is_zero(b@),
        ensures
            a.hash_key_spec() == b.hash_key_spec(),
    {
    }
}

impl From<i32> for Decimal {
    fn from(value: i32) -> (r: Decimal) {
        Decimal::from_i32(value)
    }
}

impl vstd::std_specs::convert::FromSpecImpl<i32> for Decimal {
    open spec fn obeys_from_spec() -> bool {
        true
    }

    closed spec fn from_spec(value: i32) -> Decimal {
        Decimal { bits: of_i32(value) }
    }
}

impl From<u32> for Decimal {
    fn from(value: u32) -> (r: Decimal) {
        Decimal::from_u32(value)
    }
}

impl vstd::std_specs::convert::FromSpecImpl<u32> for Decimal {
    open spec fn obeys_from_spec() -> bool {
        true
    }

    closed spec fn from_spec(value: u32) -> Decimal {
        Decimal { bits: of_u32(value) }
    }
}

impl From<i64> for Decimal {
    fn from(value: i64) -> (r: Decimal) {
        Decimal::from_i64(value)
    }
}

impl vstd::std_specs::convert::FromSpecImpl<i64> for Decimal {
    open spec fn obeys_from_spec() -> bool {
        true
    }

    closed spec fn from_spec(value: i64) -> Decimal {
        Decimal { bits: of_i64(value) }
    }
}

impl From<u64> for Decimal {
    fn from(value: u64) -> (r: Decimal) {
        Decimal::from_u64(value)
    }
}

impl vstd::std_specs::convert::FromSpecImpl<u64> for Decimal {
    open spec fn obeys_from_spec() -> bool {
        true
    }

    closed spec fn from_spec(value: u64) -> Decimal {
        Decimal { bits: of_u64(value) }
    }
}

impl Default for Decimal {
    fn default() -> (r: Decimal)
        ensures
            r@ == ZERO_BITS,
            r.wf(),
    {
        Decimal::zero()
    }
}

impl PartialEq for Decimal {
    fn eq(&self, other: &Decimal) -> (r: bool) {
        raw_eq(self.bits, other.bits)
    }
}

impl vstd::std_specs::cmp::PartialEqSpecImpl for Decimal {
    open spec fn obeys_eq_spec() -> bool {
        true
    }

    open spec fn eq_spec(&self, other: &Decimal) -> bool {
        comparison_of(self@, other@) == Some(Ordering::Equal)
    }
}

impl Eq for Decimal {

}

impl PartialOrd for Decimal {
    fn partial_cmp(&self, other: &Decimal) -> (r: Option<Ordering>) {
        raw_partial_cmp(self.bits, other.bits)
    }
}

impl vstd::std_specs::cmp::PartialOrdSpecImpl for Decimal {
    open spec fn obeys_partial_cmp_spec() -> bool {
        true
    }

    open spec fn partial_cmp_spec(&self, other: &Decimal) -> Option<Ordering> {
        comparison_of(self@, other@)
    }
}

} // verus!
