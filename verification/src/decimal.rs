//! Fixed-point decimal numbers, as the amounts and fractions of discounts.
//!
//! A [`Decimal`] is a signed mantissa of at most 96 bits and a scale, the number
//! of digits behind the decimal point. Its text form is the one that
//! `rust_decimal` writes and reads; this module calls that crate for both
//! directions and gives each result a name for the contracts.

use std::str::FromStr;
use vstd::prelude::*;

verus! {

/// The largest scale that a decimal can have.
pub const MAX_SCALE: u32 = 28;

/// The largest absolute value of a mantissa: `2^96 - 1`.
pub const MAX_MANTISSA: i128 = 79228162514264337593543950335;

/// A decimal number `mantissa / 10^scale`.
#[derive(Clone, Copy, Debug, PartialEq, Eq, Structural)]
pub struct Decimal {
    pub mantissa: i128,
    pub scale: u32,
}

/// The text that `rust_decimal` writes for the decimal `value`.
pub uninterp spec fn decimal_text(value: Decimal) -> Seq<char>;

/// The decimal that `rust_decimal` reads from `text`, if it reads one.
pub uninterp spec fn parsed_decimal(text: Seq<char>) -> Option<Decimal>;

/// `<rust_decimal::Decimal as ToString>::to_string` on the decimal built by
/// `rust_decimal::Decimal::from_i128_with_scale`.
///
/// Trusted: the result is the text named [`decimal_text`], and
/// `rust_decimal::Decimal::from_str` reads that text back as the same mantissa
/// and scale. The text holds the mantissa's digits with exactly `scale` of them
/// behind the point and a leading `-` for a negative mantissa; the reader
/// counts the digits behind the point as the scale and rounds nothing within
/// 28 digits and 96 bits.
#[verifier::external_body]
fn write_decimal(value: &Decimal) -> (text: String)
    requires
        value.wf(),
    ensures
        text@ == decimal_text(*value),
        parsed_decimal(text@) == Some(*value),
{
    rust_decimal::Decimal::from_i128_with_scale(value.mantissa, value.scale).to_string()
}

/// `rust_decimal::Decimal::from_str`, with the result taken apart by
/// `mantissa` and `scale`.
///
/// Trusted: the result is the decimal named [`parsed_decimal`], and a decimal
/// that was read is within the bounds of [`Decimal::wf`].
#[verifier::external_body]
fn read_decimal(text: &str) -> (value: Option<Decimal>)
    ensures
        value == parsed_decimal(text@),
        value matches Some(d) ==> d.wf(),
{
    match rust_decimal::Decimal::from_str(text) {
        Ok(d) => Some(Decimal { mantissa: d.mantissa(), scale: d.scale() }),
        Err(_) => None,
    }
}

impl Decimal {
    /// The mantissa fits in 96 bits and the scale is at most [`MAX_SCALE`].
    pub open spec fn wf(&self) -> bool {
        &&& -MAX_MANTISSA <= self.mantissa <= MAX_MANTISSA
        &&& self.scale <= MAX_SCALE
    }

    /// A decimal of the given parts, if they are within bounds.
    pub fn new(mantissa: i128, scale: u32) -> (r: Option<Decimal>)
        ensures
            r == if (Decimal { mantissa, scale }).wf() {
                Some(Decimal { mantissa, scale })
            } else {
                None
            },
    {
        let value = Decimal { mantissa, scale };
        if value.is_valid() {
            Some(value)
        } else {
            None
        }
    }

    /// Whether the parts are within bounds.
    pub fn is_valid(&self) -> (r: bool)
        ensures
            r == self.wf(),
    {
        -MAX_MANTISSA <= self.mantissa && self.mantissa <= MAX_MANTISSA && self.scale <= MAX_SCALE
    }

    /// The text form of a decimal within bounds; `None` for one out of bounds.
    pub fn to_text(&self) -> (r: Option<String>)
        ensures
            self.wf() ==> (r matches Some(text) && text@ == decimal_text(*self)
                && parsed_decimal(text@) == Some(*self)),
            !self.wf() ==> r is None,
    {
        if self.is_valid() {
            Some(write_decimal(self))
        } else {
            None
        }
    }

    /// The decimal that `text` stands for, if it stands for one.
    pub fn from_text(text: &str) -> (r: Option<Decimal>)
        ensures
            r == parsed_decimal(text@),
            r matches Some(d) ==> d.wf(),
    {
        read_decimal(text)
    }
}

} // verus!
