use met_forecast::weather_type::{WeatherType, WeatherTypeCodeConversionError};

#[test]
fn test_all_valid_weather_codes() {
    assert_eq!(WeatherType::from_str("NA").unwrap(), WeatherType::NotAvailable);
    assert_eq!(WeatherType::from_str("0").unwrap(), WeatherType::ClearNight);
    assert_eq!(WeatherType::from_str("1").unwrap(), WeatherType::SunnyDay);
    assert_eq!(WeatherType::from_str("2").unwrap(), WeatherType::PartlyCloudyNight);
    assert_eq!(WeatherType::from_str("3").unwrap(), WeatherType::PartlyCloudyDay);
    assert_eq!(WeatherType::from_str("5").unwrap(), WeatherType::Mist);
    assert_eq!(WeatherType::from_str("6").unwrap(), WeatherType::Fog);
    assert_eq!(WeatherType::from_str("7").unwrap(), WeatherType::Cloudy);
    assert_eq!(WeatherType::from_str("8").unwrap(), WeatherType::Overcast);
    assert_eq!(WeatherType::from_str("9").unwrap(), WeatherType::LightRainShowerNight);
    assert_eq!(WeatherType::from_str("10").unwrap(), WeatherType::LightRainShowerDay);
    assert_eq!(WeatherType::from_str("11").unwrap(), WeatherType::Drizzle);
    assert_eq!(WeatherType::from_str("12").unwrap(), WeatherType::LightRain);
    assert_eq!(WeatherType::from_str("13").unwrap(), WeatherType::HeavyRainShowerNight);
    assert_eq!(WeatherType::from_str("14").unwrap(), WeatherType::HeavyRainShowerDay);
    assert_eq!(WeatherType::from_str("15").unwrap(), WeatherType::HeavyRain);
    assert_eq!(WeatherType::from_str("16").unwrap(), WeatherType::SleetShowerNight);
    assert_eq!(WeatherType::from_str("17").unwrap(), WeatherType::SleetShowerDay);
    assert_eq!(WeatherType::from_str("18").unwrap(), WeatherType::Sleet);
    assert_eq!(WeatherType::from_str("19").unwrap(), WeatherType::HailShowerNight);
    assert_eq!(WeatherType::from_str("20").unwrap(), WeatherType::HailShowerDay);
    assert_eq!(WeatherType::from_str("21").unwrap(), WeatherType::Hail);
    assert_eq!(WeatherType::from_str("22").unwrap(), WeatherType::LightSnowShowerNight);
    assert_eq!(WeatherType::from_str("23").unwrap(), WeatherType::LightSnowShowerDay);
    assert_eq!(WeatherType::from_str("24").unwrap(), WeatherType::LightSnow);
    assert_eq!(WeatherType::from_str("25").unwrap(), WeatherType::HeavySnowShowerNight);
    assert_eq!(WeatherType::from_str("26").unwrap(), WeatherType::HeavySnowShowerDay);
    assert_eq!(WeatherType::from_str("27").unwrap(), WeatherType::HeavySnow);
    assert_eq!(WeatherType::from_str("28").unwrap(), WeatherType::ThunderShowerNight);
    assert_eq!(WeatherType::from_str("29").unwrap(), WeatherType::ThunderShowerDay);
    assert_eq!(WeatherType::from_str("30").unwrap(), WeatherType::Thunder);
}

#[test]
fn test_unused_code() {
    let result = WeatherType::from_str("4");
    assert!(result.is_err());
    assert_eq!(
        result.err().unwrap(),
        WeatherTypeCodeConversionError::UnusedCode("4".to_string())
    );
}

#[test]
fn weather_type_test_unknown_code() {
    let result = WeatherType::from_str("An invalid code");
    assert!(result.is_err());
    assert_eq!(
        result.err().unwrap(),
        WeatherTypeCodeConversionError::InvalidCode("An invalid code".to_string())
    );
}
