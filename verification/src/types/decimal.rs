//! Decimal numbers as `rust_decimal` holds them, and their rounding.
use vstd::prelude::*;
use std::str::FromStr;

verus! {

/// The largest mantissa magnitude of a decimal: 96 bits.
pub const MAX_MANTISSA: i128 = 0xFFFF_FFFF_FFFF_FFFF_FFFF_FFFFi128;

/// The largest scale of a decimal.
pub const MAX_SCALE: u32 = 28;

/// The decimal number `mantissa / 10^scale`, within the range of
/// `rust_decimal::Decimal`: a scale of at most 28 and a 96-bit mantissa.
#[derive(Debug, Clone, Copy)]
pub struct DecimalValue {
    mantissa: i128,
    scale: u32,
}

/// Whether a mantissa and a scale make a decimal.
pub open spec fn is_decimal(mantissa: i128, scale: u32) -> bool {
    scale <= MAX_SCALE && -MAX_MANTISSA <= mantissa <= MAX_MANTISSA
}

impl DecimalValue {
    #[verifier::type_invariant]
    spec fn inv(&self) -> bool {
        is_decimal(self.mantissa, self.scale)
    }

    pub closed spec fn spec_mantissa(&self) -> i128 {
        self.mantissa
    }

    pub closed spec fn spec_scale(&self) -> u32 {
        self.scale
    }

    /// The decimal `mantissa / 10^scale`, when it is in range.
    pub fn new(mantissa: i128, scale: u32) -> (d: Option<DecimalValue>)
        ensures
            match d {
                Some(d) => is_decimal(mantissa, scale) && d.spec_mantissa() == mantissa && d.spec_scale() == scale,
                None => !is_decimal(mantissa, scale),
            },
    {
        if scale <= MAX_SCALE && -MAX_MANTISSA <= mantissa && mantissa <= MAX_MANTISSA {
            Some(DecimalValue { mantissa, scale })
        } else {
            None
        }
    }

    pub fn mantissa(&self) -> (m: i128)
        ensures
            m == self.spec_mantissa(),
    {
        self.mantissa
    }

    pub fn scale(&self) -> (s: u32)
        ensures
            s == self.spec_scale(),
    {
        self.scale
    }

    /// The decimal text of the number rounded to `dp` fractional digits.
    pub fn round_dp_text(&self, dp: u32) -> (s: String)
        ensures
            s@ == decimal_round_dp_text(self.spec_mantissa(), self.spec_scale(), dp),
    {
        proof {
            use_type_invariant(self);
        }
        round_dp_text(self.mantissa, self.scale, dp)
    }
}

/// The text of `Decimal::round_dp(dp)` (half to even) on the decimal
/// `mantissa / 10^scale`, as written by its `Display`.
pub uninterp spec fn decimal_round_dp_text(mantissa: i128, scale: u32, dp: u32) -> Seq<char>;

/// Calls `rust_decimal::Decimal::round_dp` on the decimal of a mantissa and
/// a scale and writes the result with `to_string`. Trusted: the text is the
/// named function of the three arguments.
#[verifier::external_body]
fn round_dp_text(mantissa: i128, scale: u32, dp: u32) -> (s: String)
    requires
        is_decimal(mantissa, scale),
    ensures
        s@ == decimal_round_dp_text(mantissa, scale, dp),
{
    rust_decimal::Decimal::from_i128_with_scale(mantissa, scale).round_dp(dp).to_string()
}

/// What `rust_decimal::Decimal::from_str` reads from a text, as the mantissa
/// and scale of the decimal, or `None` where it refuses the text.
pub uninterp spec fn decimal_parse(s: Seq<char>) -> Option<(i128, u32)>;

/// Calls `rust_decimal::Decimal::from_str` and takes the mantissa and scale of
/// the result. Trusted: the result is the named function of the text, and a
/// decimal's mantissa has 96 bits and its scale is at most 28.
#[verifier::external_body]
pub(crate) fn parse_decimal(s: &str) -> (d: Option<(i128, u32)>)
    ensures
        d == decimal_parse(s@),
        d matches Some((m, e)) ==> is_decimal(m, e),
{
    match rust_decimal::Decimal::from_str(s) {
        Ok(v) => Some((v.mantissa(), v.scale())),
        Err(_) => None,
    }
}

} // verus!
