use met_forecast::direction::{Direction, DirectionConversionError};
use met_forecast::forecast::{Forecast, ForecastConversionError};
use met_forecast::forecast_response::{
    Dv, ForecastLocation, ForecastPeriod, ForecastResponse, Params, Rep, SiteRep,
};
use met_forecast::forecasts::Forecasts;
use met_forecast::time::Timestamp;
use met_forecast::uv::UvCodeConversionError;
use met_forecast::visibility::{Visibility, VisibilityCodeConversionError};
use met_forecast::weather_type::{WeatherType, WeatherTypeCodeConversionError};

fn rep(dollar: &str, temperature: &str) -> Rep {
    Rep {
        pp: "10".to_string(),
        s: "5".to_string(),
        d: "N".to_string(),
        w: "1".to_string(),
        h: "60".to_string(),
        t: temperature.to_string(),
        dollar: dollar.to_string(),
        g: "20".to_string(),
        u: "3".to_string(),
        v: "GO".to_string(),
        f: "14".to_string(),
    }
}

fn response(location_id: &str, periods: Vec<ForecastPeriod>) -> ForecastResponse {
    ForecastResponse {
        site_rep: SiteRep {
            wx: Params { param: Vec::new() },
            dv: Dv {
                data_date: "2021-06-01T10:00:00Z".to_string(),
                data_type: "Forecast".to_string(),
                location: ForecastLocation {
                    i: location_id.to_string(),
                    lat: "51.5".to_string(),
                    lon: "-0.1".to_string(),
                    name: "LONDON".to_string(),
                    country: "ENGLAND".to_string(),
                    continent: "EUROPE".to_string(),
                    period: periods,
                },
            },
        },
    }
}

fn period(date: &str, reps: Vec<Rep>) -> ForecastPeriod {
    ForecastPeriod { period_type: "Day".to_string(), value: date.to_string(), rep: reps }
}

#[test]
fn test_timestamp_reconstruction() {
    let f = Forecast::try_from(101, "2021-06-01T00:00:00", &rep("180", "15")).unwrap();
    assert_eq!(
        f.timestamp,
        Timestamp { year: 2021, month: 6, day: 1, hour: 3, minute: 0, second: 0 }
    );
    let midnight = Forecast::try_from(101, "2021-06-01T00:00:00", &rep("0", "15")).unwrap();
    assert_eq!(
        midnight.timestamp,
        Timestamp { year: 2021, month: 6, day: 1, hour: 0, minute: 0, second: 0 }
    );
}

#[test]
fn test_timestamp_rolls_into_next_day() {
    let f = Forecast::try_from(101, "2021-12-31T00:00:00", &rep("1500", "15")).unwrap();
    assert_eq!(
        f.timestamp,
        Timestamp { year: 2022, month: 1, day: 1, hour: 1, minute: 0, second: 0 }
    );
}

#[test]
fn test_record_fields() {
    let f = Forecast::try_from(101, "2021-06-01T00:00:00", &rep("180", "15")).unwrap();
    assert_eq!(f.location_id, 101);
    assert_eq!(f.feels_like_temperature, 14);
    assert_eq!(f.wind_gust, 20);
    assert_eq!(f.screen_relative_humidity, 60);
    assert_eq!(f.temperature, 15);
    assert_eq!(f.visibility, Visibility::Good);
    assert_eq!(f.wind_direction, Direction::North);
    assert_eq!(f.wind_speed, 5);
    assert_eq!(f.max_uv_index.index, 3);
    assert_eq!(
        f.max_uv_index.description,
        "Moderate exposure. Seek shade during midday hours, cover up and wear sunscreen"
    );
    assert_eq!(f.weather_type, WeatherType::SunnyDay);
    assert_eq!(f.precipitation_probability, 10);
}

#[test]
fn test_fail_fast_aggregation() {
    let mut bad = rep("360", "16");
    bad.d = "XX".to_string();
    let payload = response(
        "101",
        vec![
            period("2021-06-01T00:00:00", vec![rep("180", "15"), bad]),
            period("2021-06-02T00:00:00", vec![rep("180", "17")]),
        ],
    );
    let err = Forecasts::try_from(payload).err().unwrap();
    assert_eq!(
        err,
        ForecastConversionError::DirectionConversionError(
            DirectionConversionError::InvalidDirection("XX".to_string())
        )
    );
}

#[test]
fn test_order_preservation() {
    let payload = response(
        "101",
        vec![
            period("2021-06-01T00:00:00", vec![rep("0", "11"), rep("180", "12")]),
            period("2021-06-02T00:00:00", vec![rep("0", "13")]),
        ],
    );
    let forecasts = Forecasts::try_from(payload).unwrap();
    assert_eq!(forecasts.0.len(), 3);
    assert_eq!(forecasts.0[0].temperature, 11);
    assert_eq!(forecasts.0[1].temperature, 12);
    assert_eq!(forecasts.0[2].temperature, 13);
    assert_eq!(
        forecasts.0[0].timestamp,
        Timestamp { year: 2021, month: 6, day: 1, hour: 0, minute: 0, second: 0 }
    );
    assert_eq!(
        forecasts.0[1].timestamp,
        Timestamp { year: 2021, month: 6, day: 1, hour: 3, minute: 0, second: 0 }
    );
    assert_eq!(
        forecasts.0[2].timestamp,
        Timestamp { year: 2021, month: 6, day: 2, hour: 0, minute: 0, second: 0 }
    );
    for f in &forecasts.0 {
        assert_eq!(f.location_id, 101);
    }
}

#[test]
fn test_idempotence() {
    let make = || {
        response(
            "101",
            vec![
                period("2021-06-01T00:00:00", vec![rep("0", "11"), rep("180", "12")]),
                period("2021-06-02T00:00:00", vec![rep("0", "13")]),
            ],
        )
    };
    let first = Forecasts::try_from(make()).unwrap();
    let second = Forecasts::try_from(make()).unwrap();
    assert_eq!(first.0, second.0);
}

#[test]
fn test_location_id_parse_failure() {
    let payload = response("x101", vec![period("2021-06-01T00:00:00", vec![rep("0", "11")])]);
    let err = Forecasts::try_from(payload).err().unwrap();
    assert_eq!(err, ForecastConversionError::NumberParseError("x101".to_string()));
}

#[test]
fn test_number_parse_failure() {
    let mut bad = rep("0", "11");
    bad.h = "6o".to_string();
    let payload = response("101", vec![period("2021-06-01T00:00:00", vec![bad])]);
    let err = Forecasts::try_from(payload).err().unwrap();
    assert_eq!(err, ForecastConversionError::NumberParseError("6o".to_string()));
}

#[test]
fn test_minutes_parse_failure() {
    let payload = response("101", vec![period("2021-06-01T00:00:00", vec![rep("later", "11")])]);
    let err = Forecasts::try_from(payload).err().unwrap();
    assert_eq!(err, ForecastConversionError::NumberParseError("later".to_string()));
}

#[test]
fn test_date_parse_failure() {
    let payload = response("101", vec![period("June first", vec![rep("0", "11")])]);
    let err = Forecasts::try_from(payload).err().unwrap();
    assert_eq!(err, ForecastConversionError::DateTimeParseError("June first".to_string()));
}

#[test]
fn test_visibility_failure_in_payload() {
    let mut bad = rep("0", "11");
    bad.v = "ZZ".to_string();
    let payload = response("101", vec![period("2021-06-01T00:00:00", vec![bad])]);
    let err = Forecasts::try_from(payload).err().unwrap();
    assert_eq!(
        err,
        ForecastConversionError::VisibilityCodeConversionError(
            VisibilityCodeConversionError::InvalidCode("ZZ".to_string())
        )
    );
}

#[test]
fn test_uv_failure_in_payload() {
    let mut bad = rep("0", "11");
    bad.u = "very".to_string();
    let payload = response("101", vec![period("2021-06-01T00:00:00", vec![bad])]);
    let err = Forecasts::try_from(payload).err().unwrap();
    assert_eq!(
        err,
        ForecastConversionError::UvCodeConversionError(UvCodeConversionError::InvalidCode(
            "very".to_string()
        ))
    );
}

#[test]
fn test_unused_weather_code_in_payload() {
    let mut bad = rep("0", "11");
    bad.w = "4".to_string();
    let payload = response("101", vec![period("2021-06-01T00:00:00", vec![bad])]);
    let err = Forecasts::try_from(payload).err().unwrap();
    assert_eq!(
        err,
        ForecastConversionError::WeatherTypeCodeConversionError(
            WeatherTypeCodeConversionError::UnusedCode("4".to_string())
        )
    );
}

#[test]
fn test_unknown_weather_code_in_payload() {
    let mut bad = rep("0", "11");
    bad.w = "31".to_string();
    let payload = response("101", vec![period("2021-06-01T00:00:00", vec![bad])]);
    let err = Forecasts::try_from(payload).err().unwrap();
    assert_eq!(
        err,
        ForecastConversionError::WeatherTypeCodeConversionError(
            WeatherTypeCodeConversionError::InvalidCode("31".to_string())
        )
    );
}

#[test]
fn test_empty_periods_decode_to_empty_sequence() {
    let payload = response("101", Vec::new());
    let forecasts = Forecasts::try_from(payload).unwrap();
    assert!(forecasts.0.is_empty());
}

#[test]
fn test_short_date_string_fails() {
    let payload = response("101", vec![period("2021-06", vec![rep("0", "11")])]);
    let err = Forecasts::try_from(payload).err().unwrap();
    assert_eq!(err, ForecastConversionError::DateTimeParseError("2021-06".to_string()));
}

#[test]
fn test_api_version() {
    assert_eq!(met_forecast::schema::QueryRoot::api_version(), "0.1.0");
}
