//! Decoding of the Met Office DataPoint three-hourly forecast payload.
//!
//! The payload encodes every field as a short string: compass initials for
//! the wind direction, two-letter visibility codes, integer weather-type and
//! UV codes, decimal strings for the scalar fields, and a minutes-since-
//! midnight offset against a period date. This crate turns one such payload
//! into a flat, time-ordered sequence of typed forecast records, or the
//! first decoding error met, and proves that the decode follows the code
//! tables exactly.

pub mod direction;
pub mod location;
pub mod numbers;
pub mod uv;
pub mod strings;
pub mod time;
pub mod forecast;
pub mod forecasts;
pub mod laws;
pub mod schema;
pub mod forecast_response;
pub mod visibility;
pub mod weather_type;
