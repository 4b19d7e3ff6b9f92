//! The record assembler: one raw timestep into one typed forecast record,
//! stopping at the first field that fails to decode.

use vstd::prelude::*;
use crate::direction::{spec_direction, Direction, DirectionConversionError};
use crate::forecast_response::{Rep, RepView};
use crate::numbers::{
    parse_decimal_i32, parse_decimal_i64, spec_parse_i32, spec_parse_i64, spec_parse_u8,
};
use crate::time::{reconstruct_timestamp, spec_timestamp, Timestamp};
use crate::uv::{spec_uv_description, UvCodeConversionError, UvIndex, UvIndexView};
use crate::visibility::{spec_visibility, Visibility, VisibilityCodeConversionError};
use crate::weather_type::{spec_weather, WeatherType, WeatherTypeCodeConversionError};

verus! {

/// One decoded forecast record: the typed form of one raw timestep.
#[derive(Debug, PartialEq)]
pub struct Forecast {
    pub location_id: i32,
    pub timestamp: Timestamp,
    pub feels_like_temperature: i32,
    pub wind_gust: i32,
    pub screen_relative_humidity: i32,
    pub temperature: i32,
    pub visibility: Visibility,
    pub wind_direction: Direction,
    pub wind_speed: i32,
    pub max_uv_index: UvIndex,
    pub weather_type: WeatherType,
    pub precipitation_probability: i32,
}

/// A decoded forecast record as plain values.
pub struct ForecastView {
    pub location_id: i32,
    pub timestamp: Timestamp,
    pub feels_like_temperature: i32,
    pub wind_gust: i32,
    pub screen_relative_humidity: i32,
    pub temperature: i32,
    pub visibility: Visibility,
    pub wind_direction: Direction,
    pub wind_speed: i32,
    pub max_uv_index: UvIndexView,
    pub weather_type: WeatherType,
    pub precipitation_probability: i32,
}

impl View for Forecast {
    type V = ForecastView;

    open spec fn view(&self) -> ForecastView {
        ForecastView {
            location_id: self.location_id,
            timestamp: self.timestamp,
            feels_like_temperature: self.feels_like_temperature,
            wind_gust: self.wind_gust,
            screen_relative_humidity: self.screen_relative_humidity,
            temperature: self.temperature,
            visibility: self.visibility,
            wind_direction: self.wind_direction,
            wind_speed: self.wind_speed,
            max_uv_index: self.max_uv_index@,
            weather_type: self.weather_type,
            precipitation_probability: self.precipitation_probability,
        }
    }
}

/// Failure to decode one timestep, tagged by the field category that
/// failed, each variant keeping the sub-decoder's error with its input.
#[derive(Debug, PartialEq)]
pub enum ForecastConversionError {
    DirectionConversionError(DirectionConversionError),
    UvCodeConversionError(UvCodeConversionError),
    VisibilityCodeConversionError(VisibilityCodeConversionError),
    WeatherTypeCodeConversionError(WeatherTypeCodeConversionError),
    DateTimeParseError(String),
    NumberParseError(String),
}

/// A conversion error as plain values: the failing field category and the
/// characters of the offending input.
pub enum ForecastConversionErrorView {
    Direction(Seq<char>),
    Uv(Seq<char>),
    Visibility(Seq<char>),
    WeatherUnknown(Seq<char>),
    WeatherUnused(Seq<char>),
    DateTime(Seq<char>),
    Number(Seq<char>),
}

impl View for ForecastConversionError {
    type V = ForecastConversionErrorView;

    open spec fn view(&self) -> ForecastConversionErrorView {
        match self {
            ForecastConversionError::DirectionConversionError(
                DirectionConversionError::InvalidDirection(c),
            ) => ForecastConversionErrorView::Direction(c@),
            ForecastConversionError::UvCodeConversionError(
                UvCodeConversionError::InvalidCode(c),
            ) => ForecastConversionErrorView::Uv(c@),
            ForecastConversionError::VisibilityCodeConversionError(
                VisibilityCodeConversionError::InvalidCode(c),
            ) => ForecastConversionErrorView::Visibility(c@),
            ForecastConversionError::WeatherTypeCodeConversionError(
                WeatherTypeCodeConversionError::InvalidCode(c),
            ) => ForecastConversionErrorView::WeatherUnknown(c@),
            ForecastConversionError::WeatherTypeCodeConversionError(
                WeatherTypeCodeConversionError::UnusedCode(c),
            ) => ForecastConversionErrorView::WeatherUnused(c@),
            ForecastConversionError::DateTimeParseError(c) => ForecastConversionErrorView::DateTime(
                c@,
            ),
            ForecastConversionError::NumberParseError(c) => ForecastConversionErrorView::Number(
                c@,
            ),
        }
    }
}

/// The decode of one timestep, field by field in the order the assembler
/// evaluates them: the minutes offset, the timestamp, the six scalar
/// fields interleaved with the four code tables, failing at the first field
/// whose decode fails.
#[verifier::opaque]
pub open spec fn spec_forecast(location_id: i32, date: Seq<char>, rep: RepView) -> Result<
    ForecastView,
    ForecastConversionErrorView,
> {
    let minutes = spec_parse_i64(rep.dollar);
    if minutes is None {
        Err(ForecastConversionErrorView::Number(rep.dollar))
    } else if spec_timestamp(date, minutes->Some_0) is None {
        Err(ForecastConversionErrorView::DateTime(date))
    } else if spec_parse_i32(rep.f) is None {
        Err(ForecastConversionErrorView::Number(rep.f))
    } else if spec_parse_i32(rep.g) is None {
        Err(ForecastConversionErrorView::Number(rep.g))
    } else if spec_parse_i32(rep.h) is None {
        Err(ForecastConversionErrorView::Number(rep.h))
    } else if spec_parse_i32(rep.t) is None {
        Err(ForecastConversionErrorView::Number(rep.t))
    } else if spec_visibility(rep.v) is None {
        Err(ForecastConversionErrorView::Visibility(rep.v))
    } else if spec_direction(rep.d) is None {
        Err(ForecastConversionErrorView::Direction(rep.d))
    } else if spec_parse_i32(rep.s) is None {
        Err(ForecastConversionErrorView::Number(rep.s))
    } else if spec_parse_u8(rep.u) is None {
        Err(ForecastConversionErrorView::Uv(rep.u))
    } else if rep.w == "4"@ {
        Err(ForecastConversionErrorView::WeatherUnused(rep.w))
    } else if spec_weather(rep.w) is None {
        Err(ForecastConversionErrorView::WeatherUnknown(rep.w))
    } else if spec_parse_i32(rep.pp) is None {
        Err(ForecastConversionErrorView::Number(rep.pp))
    } else {
        Ok(
            ForecastView {
                location_id,
                timestamp: spec_timestamp(date, minutes->Some_0)->Some_0,
                feels_like_temperature: spec_parse_i32(rep.f)->Some_0,
                wind_gust: spec_parse_i32(rep.g)->Some_0,
                screen_relative_humidity: spec_parse_i32(rep.h)->Some_0,
                temperature: spec_parse_i32(rep.t)->Some_0,
                visibility: spec_visibility(rep.v)->Some_0,
                wind_direction: spec_direction(rep.d)->Some_0,
                wind_speed: spec_parse_i32(rep.s)->Some_0,
                max_uv_index: (UvIndexView {
                    index: spec_parse_u8(rep.u)->Some_0,
                    description: spec_uv_description(spec_parse_u8(rep.u)->Some_0),
                }),
                weather_type: spec_weather(rep.w)->Some_0,
                precipitation_probability: spec_parse_i32(rep.pp)->Some_0,
            },
        )
    }
}

impl Forecast {
    /// Decode one raw timestep into a forecast record for the given
    /// location and period date, or the first field error met, in the
    /// fixed field order of [`spec_forecast`].
    pub fn try_from(location_id: i32, date_time_str: &str, weather: &Rep) -> (r: Result<
        Forecast,
        ForecastConversionError,
    >)
        ensures
            match r {
                Ok(f) => spec_forecast(location_id, date_time_str@, weather@) == Ok::<
                    ForecastView,
                    ForecastConversionErrorView,
                >(f@),
                Err(e) => spec_forecast(location_id, date_time_str@, weather@) == Err::<
                    ForecastView,
                    ForecastConversionErrorView,
                >(e@),
            },
    {
        proof {
            reveal(spec_forecast);
        }
        let minutes = match parse_decimal_i64(weather.dollar.as_str()) {
            Some(m) => m,
            None => {
                return Err(ForecastConversionError::NumberParseError(weather.dollar.clone()));
            },
        };
        let timestamp = match reconstruct_timestamp(date_time_str, minutes) {
            Some(t) => t,
            None => {
                return Err(ForecastConversionError::DateTimeParseError(date_time_str.to_owned()));
            },
        };
        let feels_like_temperature = match parse_decimal_i32(weather.f.as_str()) {
            Some(v) => v,
            None => {
                return Err(ForecastConversionError::NumberParseError(weather.f.clone()));
            },
        };
        let wind_gust = match parse_decimal_i32(weather.g.as_str()) {
            Some(v) => v,
            None => {
                return Err(ForecastConversionError::NumberParseError(weather.g.clone()));
            },
        };
        let screen_relative_humidity = match parse_decimal_i32(weather.h.as_str()) {
            Some(v) => v,
            None => {
                return Err(ForecastConversionError::NumberParseError(weather.h.clone()));
            },
        };
        let temperature = match parse_decimal_i32(weather.t.as_str()) {
            Some(v) => v,
            None => {
                return Err(ForecastConversionError::NumberParseError(weather.t.clone()));
            },
        };
        let visibility = match Visibility::from_str(weather.v.as_str()) {
            Ok(v) => v,
            Err(e) => {
                return Err(ForecastConversionError::VisibilityCodeConversionError(e));
            },
        };
        let wind_direction = match Direction::try_from(weather.d.as_str()) {
            Ok(d) => d,
            Err(e) => {
                return Err(ForecastConversionError::DirectionConversionError(e));
            },
        };
        let wind_speed = match parse_decimal_i32(weather.s.as_str()) {
            Some(v) => v,
            None => {
                return Err(ForecastConversionError::NumberParseError(weather.s.clone()));
            },
        };
        let max_uv_index = match UvIndex::try_from(weather.u.as_str()) {
            Ok(u) => u,
            Err(e) => {
                return Err(ForecastConversionError::UvCodeConversionError(e));
            },
        };
        let weather_type = match WeatherType::from_str(weather.w.as_str()) {
            Ok(w) => w,
            Err(e) => {
                return Err(ForecastConversionError::WeatherTypeCodeConversionError(e));
            },
        };
        proof {
            crate::weather_type::lemma_weather_reserved();
        }
        let precipitation_probability = match parse_decimal_i32(weather.pp.as_str()) {
            Some(v) => v,
            None => {
                return Err(ForecastConversionError::NumberParseError(weather.pp.clone()));
            },
        };
        Ok(
            Forecast {
                location_id,
                timestamp,
                feels_like_temperature,
                wind_gust,
                screen_relative_humidity,
                temperature,
                visibility,
                wind_direction,
                wind_speed,
                max_uv_index,
                weather_type,
                precipitation_probability,
            },
        )
    }
}

} // verus!
