//! Identifiers and the fixed-precision monetary amount.

use vstd::prelude::*;
use std::str::FromStr;
use rust_decimal::Decimal;

verus! {

/// Identifier of a transaction.
pub type TransactionId = u32;

/// Identifier of a client account.
pub type AccountId = u16;

/// Number of decimal places an amount carries.
pub const SCALE: u32 = 4;

/// Largest magnitude, in units of `10^-SCALE`, that an amount may have: the
/// largest 96-bit mantissa of a decimal.
pub const MAX_UNITS: i128 = 79228162514264337593543950335;

/// Whether a number of units lies in the representable range.
pub open spec fn in_range(v: int) -> bool {
    -MAX_UNITS <= v <= MAX_UNITS
}

/// A monetary amount held as a whole number of units of `10^-4`.
///
/// Sums and differences are exact: no rounding takes place after an amount
/// has been read.
#[derive(Clone, Copy, Debug, PartialEq, Eq, Structural)]
pub struct Currency {
    /// Ten-thousandths of the unit of account.
    pub units: i128,
}

impl View for Currency {
    type V = int;

    open spec fn view(&self) -> int {
        self.units as int
    }
}

/// The `(mantissa, scale)` pair of the decimal written in `s`, brought to
/// `scale` decimal places, or `None` where `s` is no decimal.
pub uninterp spec fn decimal_at_scale(s: Seq<char>, scale: u32) -> Option<(i128, u32)>;

/// The amount written in `s`, where it is a decimal whose value, rounded to
/// four places, lies in range.
pub open spec fn parsed_currency(s: Seq<char>) -> Option<Currency> {
    match decimal_at_scale(s, SCALE) {
        Some((m, sc)) => if sc == SCALE && in_range(m as int) {
            Some(Currency { units: m })
        } else {
            None
        },
        None => None,
    }
}

/// Relies on `<rust_decimal::Decimal as FromStr>::from_str` to read a decimal
/// and on `Decimal::rescale`, `Decimal::mantissa` and `Decimal::scale` to take it
/// apart; the outcome depends on the text and the asked scale alone.
#[verifier::external_body]
fn parse_decimal(s: &str, scale: u32) -> (r: Option<(i128, u32)>)
    ensures
        r == decimal_at_scale(s@, scale),
{
    match Decimal::from_str(s) {
        Ok(mut d) => {
            d.rescale(scale);
            Some((d.mantissa(), d.scale()))
        },
        Err(_) => None,
    }
}

impl Currency {
    /// Zero.
    pub fn zero() -> (r: Currency)
        ensures
            r@ == 0,
    {
        Currency { units: 0 }
    }

    /// The amount whose decimal mantissa is `mantissa` at `scale` places, when
    /// that scale is the one amounts carry and the value lies in range.
    pub fn from_scaled(mantissa: i128, scale: u32) -> (r: Option<Currency>)
        ensures
            r == (if scale == SCALE && in_range(mantissa as int) {
                Some(Currency { units: mantissa })
            } else {
                None::<Currency>
            }),
    {
        if scale == SCALE && -MAX_UNITS <= mantissa && mantissa <= MAX_UNITS {
            Some(Currency { units: mantissa })
        } else {
            None
        }
    }

    /// Reads a decimal such as `"10.5"`, rounded to four places.
    ///
    /// Yields `None` for text that is no decimal or a value out of range.
    pub fn parse(s: &str) -> (r: Option<Currency>)
        ensures
            r == parsed_currency(s@),
    {
        match parse_decimal(s, SCALE) {
            Some((m, sc)) => Currency::from_scaled(m, sc),
            None => None,
        }
    }
}

} // verus!
