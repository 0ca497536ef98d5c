//! Exact decimal numbers.
//!
//! A [`Decimal`] is an integer of any size together with a scale: it stands
//! for `unscaled / 10^scale`. The integer is kept as its decimal digits, so no
//! value is ever rounded.

use bigdecimal::num_bigint::{BigInt, Sign};
use bigdecimal::BigDecimal;
use vstd::prelude::*;
use vstd::std_specs::cmp::PartialEqSpecImpl;

verus! {

/// What a [`Decimal`] stands for: the number `unscaled / 10^scale`.
pub struct DecimalView {
    pub unscaled: int,
    pub scale: int,
}

/// The number that `digits` write in base ten, most significant digit first.
pub open spec fn digits_value(digits: Seq<u8>) -> nat
    decreases digits.len(),
{
    if digits.len() == 0 {
        0
    } else {
        digits_value(digits.drop_last()) * 10 + digits.last() as nat
    }
}

/// The digits of `n` in base ten, most significant first and without leading
/// zeros; zero is the single digit `0`.
pub open spec fn decimal_digits(n: nat) -> Seq<u8>
    decreases n,
{
    if n < 10 {
        seq![n as u8]
    } else {
        decimal_digits(n / 10).push((n % 10) as u8)
    }
}

/// `digits` is the shortest way to write a number: at least one digit, each
/// below ten, and no leading zero before another digit.
pub open spec fn is_numeral(digits: Seq<u8>) -> bool {
    &&& digits.len() >= 1
    &&& forall|i: int| 0 <= i < digits.len() ==> digits[i] <= 9
    &&& digits.len() > 1 ==> digits[0] != 0
}

/// The absolute value of `x`.
pub open spec fn magnitude(x: int) -> nat {
    if x < 0 {
        (-x) as nat
    } else {
        x as nat
    }
}

/// The largest number of characters that a decimal's digits and the zeros
/// that its scale adds may take together: written out in full, with a sign and
/// a decimal point, the number must still fit in one allocation.
pub open spec fn max_written_len() -> int {
    isize::MAX - 2
}

/// Sign, digits and scale describe a decimal that this library holds: the
/// digits are a numeral, zero has no sign, and the number can be written out.
pub open spec fn is_decimal(negative: bool, digits: Seq<u8>, scale: int) -> bool {
    &&& is_numeral(digits)
    &&& negative ==> digits_value(digits) != 0
    &&& digits.len() + magnitude(scale) <= max_written_len()
}

/// The digits of a number write that number, and are a numeral.
pub proof fn lemma_decimal_digits_value(n: nat)
    ensures
        is_numeral(decimal_digits(n)),
        digits_value(decimal_digits(n)) == n,
        n >= 10 <==> decimal_digits(n).len() > 1,
    decreases n,
{
    if n < 10 {
        let d = decimal_digits(n);
        assert(d.drop_last() =~= Seq::<u8>::empty());
        assert(digits_value(d.drop_last()) == 0);
    } else {
        lemma_decimal_digits_value(n / 10);
        let front = decimal_digits(n / 10);
        let d = decimal_digits(n);
        assert(d.drop_last() =~= front);
        assert(d.last() == (n % 10) as u8);
        assert(d[0] == front[0]);
        if front.len() == 1 {
            assert(front[0] != 0) by {
                assert(front.drop_last() =~= Seq::<u8>::empty());
                assert(digits_value(front.drop_last()) == 0);
            }
        }
    }
}

/// A numeral is the digits of the number that it writes: no number has two
/// numerals.
pub proof fn lemma_numeral_is_decimal_digits(digits: Seq<u8>)
    requires
        is_numeral(digits),
    ensures
        decimal_digits(digits_value(digits)) == digits,
    decreases digits.len(),
{
    let front = digits.drop_last();
    if digits.len() == 1 {
        assert(front =~= Seq::<u8>::empty());
        assert(digits_value(front) == 0);
        assert(decimal_digits(digits_value(digits)) =~= digits);
    } else {
        assert(front[0] == digits[0]);
        lemma_numeral_is_decimal_digits(front);
        lemma_numeral_at_least(front);
        let n = digits_value(digits);
        let m = digits_value(front);
        assert(n == m * 10 + digits.last() as nat);
        assert(n / 10 == m && n % 10 == digits.last() as nat);
        assert(decimal_digits(n) =~= digits);
    }
}

/// A numeral of more than one digit writes a number of at least ten; one that
/// does not start with zero writes a number of at least one.
proof fn lemma_numeral_at_least(digits: Seq<u8>)
    requires
        is_numeral(digits),
    ensures
        digits[0] != 0 ==> digits_value(digits) >= 1,
        digits.len() > 1 ==> digits_value(digits) >= 10,
    decreases digits.len(),
{
    let front = digits.drop_last();
    if digits.len() == 1 {
        assert(front =~= Seq::<u8>::empty());
        assert(digits_value(front) == 0);
    } else {
        assert(front[0] == digits[0]);
        lemma_numeral_at_least(front);
    }
}

/// The integer that a sign and digits write.
pub open spec fn signed_value(negative: bool, digits: Seq<u8>) -> int {
    if negative {
        -(digits_value(digits) as int)
    } else {
        digits_value(digits) as int
    }
}

/// The text in which `BigDecimal` writes the number with the given sign,
/// digits and scale.
pub uninterp spec fn decimal_text_of(negative: bool, digits: Seq<u8>, scale: int) -> Seq<char>;

/// Calls `BigInt::from_radix_be`, `BigDecimal::new` and the `to_string` that
/// `BigDecimal`'s `Display` gives: the result is the text in which that crate
/// writes `digits * 10^-scale`, with a minus sign where `negative` is set.
/// The digits must each be below ten, as `from_radix_be` asks of base ten, and
/// the written number must fit in one allocation.
#[verifier::external_body]
fn decimal_text(negative: bool, digits: &Vec<u8>, scale: i64) -> (text: String)
    requires
        forall|i: int| 0 <= i < digits@.len() ==> digits@[i] <= 9,
        digits@.len() + magnitude(scale as int) <= max_written_len(),
    ensures
        text@ == decimal_text_of(negative, digits@, scale as int),
{
    let sign = if negative { Sign::Minus } else { Sign::Plus };
    let unscaled = BigInt::from_radix_be(sign, digits, 10).unwrap();
    BigDecimal::new(unscaled, scale).to_string()
}

impl DecimalView {
    /// The text that stands for this number in a serialized clause.
    pub open spec fn text(self) -> Seq<char> {
        decimal_text_of(self.unscaled < 0, decimal_digits(magnitude(self.unscaled)), self.scale)
    }
}

/// A decimal keeps the sign, every digit and the scale that it is made
/// from, and its text is the text of exactly these: nothing is rounded.
pub proof fn lemma_decimal_keeps_its_digits(negative: bool, digits: Seq<u8>, scale: int)
    requires
        is_decimal(negative, digits, scale),
    ensures
        ({
            let held = DecimalView { unscaled: signed_value(negative, digits), scale };
            &&& (held.unscaled < 0) == negative
            &&& decimal_digits(magnitude(held.unscaled)) == digits
            &&& held.text() == decimal_text_of(negative, digits, scale)
        }),
{
    lemma_numeral_is_decimal_digits(digits);
}

/// An exact decimal number: `unscaled / 10^scale`, with an integer `unscaled`
/// of any size.
#[derive(Debug)]
pub struct Decimal {
    negative: bool,
    digits: Vec<u8>,
    scale: i64,
}

impl View for Decimal {
    type V = DecimalView;

    closed spec fn view(&self) -> DecimalView {
        DecimalView {
            unscaled: signed_value(self.negative, self.digits@),
            scale: self.scale as int,
        }
    }
}

impl Clone for Decimal {
    fn clone(&self) -> (copy: Decimal)
        ensures
            copy@ == self@,
    {
        proof {
            use_type_invariant(self);
        }
        Decimal { negative: self.negative, digits: self.digits.clone(), scale: self.scale }
    }
}

/// Whether `left` and `right` hold the same digits.
fn same_digits(left: &Vec<u8>, right: &Vec<u8>) -> (same: bool)
    ensures
        same == (left@ == right@),
{
    if left.len() != right.len() {
        return false;
    }
    let mut i: usize = 0;
    while i < left.len()
        invariant
            left@.len() == right@.len(),
            i <= left@.len(),
            forall|j: int| 0 <= j < i ==> left@[j] == right@[j],
        decreases left@.len() - i,
    {
        if left[i] != right[i] {
            return false;
        }
        i = i + 1;
    }
    assert(left@ =~= right@);
    true
}

impl PartialEq for Decimal {
    /// Two decimals are equal where they have the same `unscaled` and the
    /// same `scale`: `1.0` and `1.00` are two decimals.
    fn eq(&self, other: &Decimal) -> (equal: bool) {
        proof {
            use_type_invariant(self);
            use_type_invariant(other);
            lemma_numeral_is_decimal_digits(self.digits@);
            lemma_numeral_is_decimal_digits(other.digits@);
        }
        self.negative == other.negative && self.scale == other.scale && same_digits(
            &self.digits,
            &other.digits,
        )
    }
}

impl Eq for Decimal {

}

impl PartialEqSpecImpl for Decimal {
    open spec fn obeys_eq_spec() -> bool {
        true
    }

    open spec fn eq_spec(&self, other: &Decimal) -> bool {
        self@ == other@
    }
}

/// A number below ten to the tenth has at most ten digits.
proof fn lemma_ten_digits(n: nat)
    requires
        n < 10_000_000_000,
    ensures
        decimal_digits(n).len() <= 10,
{
    reveal_with_fuel(decimal_digits, 11);
}

impl Decimal {
    #[verifier::type_invariant]
    spec fn well_formed(self) -> bool {
        is_decimal(self.negative, self.digits@, self.scale as int)
    }

    /// The decimal that equals the integer `value`, with scale zero.
    pub fn from_i32(value: i32) -> (decimal: Decimal)
        ensures
            decimal@ == (DecimalView { unscaled: value as int, scale: 0 }),
    {
        let negative = value < 0;
        let wide: i64 = value as i64;
        let whole: u64 = if negative {
            (-wide) as u64
        } else {
            wide as u64
        };
        let mut rest: u64 = whole;
        let mut digits: Vec<u8> = Vec::new();
        while rest >= 10
            invariant
                decimal_digits(whole as nat) == decimal_digits(rest as nat) + digits@,
            decreases rest,
        {
            let digit: u8 = (rest % 10) as u8;
            proof {
                let longer = digits@.insert(0, digit);
                assert(decimal_digits(rest as nat) + digits@ =~= decimal_digits(
                    (rest / 10) as nat,
                ) + longer);
            }
            digits.insert(0, digit);
            rest = rest / 10;
        }
        proof {
            assert(decimal_digits(rest as nat) + digits@ =~= digits@.insert(0, rest as u8));
            lemma_decimal_digits_value(whole as nat);
            lemma_ten_digits(whole as nat);
        }
        digits.insert(0, rest as u8);
        Decimal { negative, digits, scale: 0 }
    }

    /// The decimal with the given sign, digits and scale, where these describe
    /// one: the digits, most significant first, are a numeral, zero has no
    /// sign, and the number can be written out. Anything else gives `None`.
    pub fn from_digits(negative: bool, digits: Vec<u8>, scale: i64) -> (decimal: Option<Decimal>)
        ensures
            decimal is Some <==> is_decimal(negative, digits@, scale as int),
            decimal matches Some(d) ==> d@ == (DecimalView {
                unscaled: signed_value(negative, digits@),
                scale: scale as int,
            }),
    {
        let len = digits.len();
        if len == 0 {
            return None;
        }
        if len > 1 && digits[0] == 0 {
            return None;
        }
        let mut i: usize = 0;
        while i < len
            invariant
                len == digits@.len(),
                i <= len,
                forall|j: int| 0 <= j < i ==> digits@[j] <= 9,
            decreases len - i,
        {
            if digits[i] > 9 {
                return None;
            }
            i = i + 1;
        }
        proof {
            lemma_numeral_at_least(digits@);
            if digits@[0] == 0 {
                assert(digits@.drop_last() =~= Seq::<u8>::empty());
                assert(digits_value(digits@.drop_last()) == 0);
            }
        }
        if negative && digits[0] == 0 {
            return None;
        }
        let wide: i128 = scale as i128;
        let zeros: i128 = if wide < 0 {
            -wide
        } else {
            wide
        };
        if len as i128 + zeros > isize::MAX as i128 - 2 {
            return None;
        }
        Some(Decimal { negative, digits, scale })
    }

    /// Whether the number is below zero.
    pub fn is_negative(&self) -> (negative: bool)
        ensures
            negative == (self@.unscaled < 0),
    {
        proof {
            use_type_invariant(self);
        }
        self.negative
    }

    /// The digits of the absolute value of `unscaled`, most significant first.
    pub fn digits(&self) -> (digits: &Vec<u8>)
        ensures
            digits@ == decimal_digits(magnitude(self@.unscaled)),
    {
        proof {
            use_type_invariant(self);
            lemma_numeral_is_decimal_digits(self.digits@);
        }
        &self.digits
    }

    /// The scale: the number of digits of `unscaled` that stand behind the
    /// decimal point, or, where it is negative, the number of zeros that
    /// follow them.
    pub fn scale(&self) -> (scale: i64)
        ensures
            scale == self@.scale,
    {
        self.scale
    }

    /// The number written out, as it stands in a serialized clause.
    pub fn to_text(&self) -> (text: String)
        ensures
            text@ == self@.text(),
    {
        proof {
            use_type_invariant(self);
            lemma_numeral_is_decimal_digits(self.digits@);
        }
        decimal_text(self.negative, &self.digits, self.scale)
    }
}

} // verus!
