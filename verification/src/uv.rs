//! The UV index field: a bounded numeric code and its exposure band.

use vstd::prelude::*;
use crate::numbers::{dec_string_of, parse_decimal_u8, spec_parse_u8, lemma_unsigned_round_trip};

verus! {

/// A decoded UV index: the wire value and the advisory description of the
/// exposure band the value falls in.
#[derive(Debug, PartialEq, Eq)]
pub struct UvIndex {
    pub index: u8,
    pub description: String,
}

/// A decoded UV index as plain values: the wire value and the characters of
/// its band description.
pub struct UvIndexView {
    pub index: u8,
    pub description: Seq<char>,
}

impl View for UvIndex {
    type V = UvIndexView;

    open spec fn view(&self) -> UvIndexView {
        UvIndexView { index: self.index, description: self.description@ }
    }
}

/// Failure to decode a UV code, carrying the offending input.
#[derive(Debug, PartialEq, Eq)]
pub enum UvCodeConversionError {
    InvalidCode(String),
}

/// The five exposure bands, keyed by inclusive thresholds: 0-2 low, 3-5
/// moderate, 6-7 high, 8-10 very high, 11 and above extreme.
pub open spec fn spec_uv_description(index: u8) -> Seq<char> {
    if index <= 2 {
        "Low exposure. No protection required. You can safely stay outside"@
    } else if index <= 5 {
        "Moderate exposure. Seek shade during midday hours, cover up and wear sunscreen"@
    } else if index <= 7 {
        "High exposure. Seek shade during midday hours, cover up and wear sunscreen"@
    } else if index <= 10 {
        "Very high. Avoid being outside during midday hours. Shirt, sunscreen and hat are essential"@
    } else {
        "Extreme. Avoid being outside during midday hours. Shirt, sunscreen and hat essential."@
    }
}

impl UvIndex {
    /// The advisory description of the band an index falls in. Total: every
    /// index has a band.
    pub fn index_to_description(index: u8) -> (r: &'static str)
        ensures
            r@ == spec_uv_description(index),
    {
        if index <= 2 {
            "Low exposure. No protection required. You can safely stay outside"
        } else if index <= 5 {
            "Moderate exposure. Seek shade during midday hours, cover up and wear sunscreen"
        } else if index <= 7 {
            "High exposure. Seek shade during midday hours, cover up and wear sunscreen"
        } else if index <= 10 {
            "Very high. Avoid being outside during midday hours. Shirt, sunscreen and hat are essential"
        } else {
            "Extreme. Avoid being outside during midday hours. Shirt, sunscreen and hat essential."
        }
    }

    /// Decode a UV code: parse it as an unsigned decimal up to 255 and band
    /// it, or report `InvalidCode` carrying the input.
    pub fn try_from(code: &str) -> (r: Result<UvIndex, UvCodeConversionError>)
        ensures
            match r {
                Ok(uv) => spec_parse_u8(code@) == Some(uv.index) && uv.description@
                    == spec_uv_description(uv.index),
                Err(UvCodeConversionError::InvalidCode(c)) => spec_parse_u8(code@) is None && c@
                    == code@,
            },
    {
        match parse_decimal_u8(code) {
            Some(index) => Ok(
                UvIndex {
                    index,
                    description: UvIndex::index_to_description(index).to_owned(),
                },
            ),
            None => Err(UvCodeConversionError::InvalidCode(code.to_owned())),
        }
    }
}

/// Every index of the UV table's domain decodes: the canonical decimal
/// rendering of any value up to 255 parses back to that value, so it gets
/// the band its value falls in.
pub proof fn lemma_uv_exhaustive(index: u8)
    ensures
        spec_parse_u8(dec_string_of(index as nat)) == Some(index),
{
    lemma_unsigned_round_trip(index as nat);
}

} // verus!
