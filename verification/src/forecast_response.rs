//! The raw three-hourly forecast payload, as deserialized from the upstream
//! JSON: every field still a short code or decimal string.

use vstd::prelude::*;

verus! {

/// The whole forecast response body.
pub struct ForecastResponse {
    pub site_rep: SiteRep,
}

/// The site report: the parameter glossary and the data block.
pub struct SiteRep {
    pub wx: Params,
    pub dv: Dv,
}

/// The parameter glossary the upstream service sends with each response.
pub struct Params {
    pub param: Vec<Param>,
}

/// One glossary entry: a field's short name, units and description.
pub struct Param {
    pub name: String,
    pub units: String,
    pub description: String,
}

/// The data block: issue date, data type, and the location's periods.
pub struct Dv {
    pub data_date: String,
    pub data_type: String,
    pub location: ForecastLocation,
}

/// The location a forecast response describes, with its periods.
pub struct ForecastLocation {
    pub i: String,
    pub lat: String,
    pub lon: String,
    pub name: String,
    pub country: String,
    pub continent: String,
    pub period: Vec<ForecastPeriod>,
}

/// One calendar-day period: its date string and its timesteps.
pub struct ForecastPeriod {
    pub period_type: String,
    pub value: String,
    pub rep: Vec<Rep>,
}

/// One raw timestep: eleven coded string fields. `dollar` is the field the
/// upstream keys by a bare `$`: minutes elapsed since the period's midnight.
pub struct Rep {
    pub pp: String,
    pub s: String,
    pub d: String,
    pub w: String,
    pub h: String,
    pub t: String,
    pub dollar: String,
    pub g: String,
    pub u: String,
    pub v: String,
    pub f: String,
}

/// The character sequences of a raw timestep's fields.
pub struct RepView {
    pub pp: Seq<char>,
    pub s: Seq<char>,
    pub d: Seq<char>,
    pub w: Seq<char>,
    pub h: Seq<char>,
    pub t: Seq<char>,
    pub dollar: Seq<char>,
    pub g: Seq<char>,
    pub u: Seq<char>,
    pub v: Seq<char>,
    pub f: Seq<char>,
}

impl View for Rep {
    type V = RepView;

    open spec fn view(&self) -> RepView {
        RepView {
            pp: self.pp@,
            s: self.s@,
            d: self.d@,
            w: self.w@,
            h: self.h@,
            t: self.t@,
            dollar: self.dollar@,
            g: self.g@,
            u: self.u@,
            v: self.v@,
            f: self.f@,
        }
    }
}

/// A period's date string and the views of its timesteps.
pub struct ForecastPeriodView {
    pub period_type: Seq<char>,
    pub value: Seq<char>,
    pub rep: Seq<RepView>,
}

impl View for ForecastPeriod {
    type V = ForecastPeriodView;

    open spec fn view(&self) -> ForecastPeriodView {
        ForecastPeriodView {
            period_type: self.period_type@,
            value: self.value@,
            rep: self.rep@.map_values(|r: Rep| r@),
        }
    }
}

/// The location identifier string and the views of the periods.
pub struct ForecastLocationView {
    pub i: Seq<char>,
    pub lat: Seq<char>,
    pub lon: Seq<char>,
    pub name: Seq<char>,
    pub country: Seq<char>,
    pub continent: Seq<char>,
    pub period: Seq<ForecastPeriodView>,
}

impl View for ForecastLocation {
    type V = ForecastLocationView;

    open spec fn view(&self) -> ForecastLocationView {
        ForecastLocationView {
            i: self.i@,
            lat: self.lat@,
            lon: self.lon@,
            name: self.name@,
            country: self.country@,
            continent: self.continent@,
            period: self.period@.map_values(|p: ForecastPeriod| p@),
        }
    }
}

impl View for ForecastResponse {
    type V = ForecastLocationView;

    /// Decoding reads only the location block, so a response's view is its
    /// location's view.
    open spec fn view(&self) -> ForecastLocationView {
        self.site_rep.dv.location@
    }
}

} // verus!
