//! Decimal fields of the payload (scores, prices, ratings).
//!
//! The payload writes them as strings; the library keeps them as a
//! normalized mantissa and scale, so equal quantities written differently
//! ("4.5", "4.50") compare equal, and a value that does not parse falls
//! back to zero rather than failing a fetch.

use vstd::prelude::*;

verus! {

/// A decimal quantity in normalized form: `mantissa * 10^(-scale)`, with
/// no trailing zero in the fraction.
#[derive(Clone, Copy, Debug, PartialEq, Eq, Structural)]
pub struct Dec {
    pub mantissa: i128,
    pub scale: u32,
}

/// Zero, the fallback for a field that does not parse.
pub open spec fn spec_dec_zero() -> Dec {
    Dec { mantissa: 0, scale: 0 }
}

/// What rust_decimal reads out of a decimal string, after normalization:
/// a function of the characters alone.
pub uninterp spec fn dec_of(s: Seq<char>) -> Option<(i128, u32)>;

/// Relies on rust_decimal's `FromStr`, `normalize`, `mantissa` and `scale`:
/// the parsed value in normalized mantissa/scale form, a function of the
/// string alone; an unparsable string yields nothing.
#[verifier::external_body]
fn parse_decimal_normalized(s: &str) -> (r: Option<(i128, u32)>)
    ensures
        r == dec_of(s@),
{
    s.parse::<rust_decimal::Decimal>().ok().map(|d| {
        let n = d.normalize();
        (n.mantissa(), n.scale())
    })
}

/// The decimal a payload string stands for, zero when it does not parse.
pub open spec fn spec_dec_or_zero(s: Seq<char>) -> Dec {
    match dec_of(s) {
        Some((m, sc)) => Dec { mantissa: m, scale: sc },
        None => spec_dec_zero(),
    }
}

/// Parses a payload string as a decimal, falling back to zero.
pub fn parse_dec_or_zero(s: &str) -> (r: Dec)
    ensures
        r == spec_dec_or_zero(s@),
{
    match parse_decimal_normalized(s) {
        Some((m, sc)) => Dec { mantissa: m, scale: sc },
        None => Dec { mantissa: 0, scale: 0 },
    }
}

} // verus!
