//! Forecast site locations and the location selector used to request them.

use vstd::prelude::*;
use crate::numbers::{
    dec_string_of, parse_decimal_u32, spec_parse_u32, u32_to_decimal,
};
use crate::strings::{lower_of, lowercase, str_eq};

verus! {

/// A location selector: either every forecast site, or one site by its
/// numeric identifier.
#[derive(Debug, PartialEq, Eq, Structural, Clone, Copy)]
pub enum LocationId {
    All,
    Location(u32),
}

/// Failure to read a location selector, carrying the offending input.
#[derive(Debug, PartialEq, Eq)]
pub enum LocationConversionError {
    InvalidLocation(String),
}

impl LocationId {
    /// The text form of the selector: `all`, or the identifier in decimal.
    pub open spec fn spec_string(self) -> Seq<char> {
        match self {
            LocationId::All => "all"@,
            LocationId::Location(n) => dec_string_of(n as nat),
        }
    }

    /// Read a selector: `all` in any letter case, or an unsigned decimal
    /// site identifier; anything else is `InvalidLocation` carrying the
    /// input.
    pub fn from_str(s: &str) -> (r: Result<LocationId, LocationConversionError>)
        ensures
            match r {
                Ok(LocationId::All) => lower_of(s@) == "all"@,
                Ok(LocationId::Location(n)) => lower_of(s@) != "all"@ && spec_parse_u32(s@)
                    == Some(n),
                Err(LocationConversionError::InvalidLocation(c)) => lower_of(s@) != "all"@
                    && spec_parse_u32(s@) is None && c@ == s@,
            },
    {
        let lower = lowercase(s);
        if str_eq(lower.as_str(), "all") {
            Ok(LocationId::All)
        } else {
            match parse_decimal_u32(s) {
                Some(n) => Ok(LocationId::Location(n)),
                None => Err(LocationConversionError::InvalidLocation(s.to_owned())),
            }
        }
    }

    /// Render the selector as the text its requests use.
    pub fn as_string(&self) -> (r: String)
        ensures
            r@ == self.spec_string(),
    {
        match self {
            LocationId::All => "all".to_owned(),
            LocationId::Location(n) => u32_to_decimal(*n),
        }
    }
}

/// One forecast site of the site list, as the upstream service describes it.
#[derive(Debug)]
pub struct Location {
    pub id: String,
    pub name: String,
    pub latitude: String,
    pub longitude: String,
    pub elevation: Option<String>,
    pub region: Option<String>,
    pub unitary_auth_area: Option<String>,
}

/// The site-list response body.
pub struct LocationsResponse {
    pub locations: Locations,
}

/// The list of forecast sites inside a site-list response.
pub struct Locations {
    pub location: Vec<Location>,
}

} // verus!
