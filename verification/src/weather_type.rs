//! The weather-type code table: twenty-nine categories, a "not available"
//! sentinel, and one code documented by the upstream service as unused.

use vstd::prelude::*;
use crate::strings::str_eq;

verus! {

/// One of the weather categories named by the upstream code table, or the
/// `NotAvailable` sentinel for the `NA` code. Code `4` is documented as
/// unused and names no variant: decoding it is an error.
#[derive(Debug, PartialEq, Eq, Structural, Clone, Copy)]
pub enum WeatherType {
    NotAvailable,
    ClearNight,
    SunnyDay,
    PartlyCloudyNight,
    PartlyCloudyDay,
    Mist,
    Fog,
    Cloudy,
    Overcast,
    LightRainShowerNight,
    LightRainShowerDay,
    Drizzle,
    LightRain,
    HeavyRainShowerNight,
    HeavyRainShowerDay,
    HeavyRain,
    SleetShowerNight,
    SleetShowerDay,
    Sleet,
    HailShowerNight,
    HailShowerDay,
    Hail,
    LightSnowShowerNight,
    LightSnowShowerDay,
    LightSnow,
    HeavySnowShowerNight,
    HeavySnowShowerDay,
    HeavySnow,
    ThunderShowerNight,
    ThunderShowerDay,
    Thunder,
}

/// Failure to decode a weather-type code. `UnusedCode` is raised only for
/// the reserved code `4` and stays distinct from `InvalidCode`, which covers
/// every string outside the table's domain.
#[derive(Debug, PartialEq, Eq)]
pub enum WeatherTypeCodeConversionError {
    InvalidCode(String),
    UnusedCode(String),
}

/// The weather code table: `NA` and the decimal codes `0`-`3`, `5`-`30` to
/// the category each names; `None` for everything else, the reserved code
/// `4` included.
pub open spec fn spec_weather(code: Seq<char>) -> Option<WeatherType> {
    if code == "NA"@ {
        Some(WeatherType::NotAvailable)
    } else if code == "0"@ {
        Some(WeatherType::ClearNight)
    } else if code == "1"@ {
        Some(WeatherType::SunnyDay)
    } else if code == "2"@ {
        Some(WeatherType::PartlyCloudyNight)
    } else if code == "3"@ {
        Some(WeatherType::PartlyCloudyDay)
    } else if code == "5"@ {
        Some(WeatherType::Mist)
    } else if code == "6"@ {
        Some(WeatherType::Fog)
    } else if code == "7"@ {
        Some(WeatherType::Cloudy)
    } else if code == "8"@ {
        Some(WeatherType::Overcast)
    } else if code == "9"@ {
        Some(WeatherType::LightRainShowerNight)
    } else if code == "10"@ {
        Some(WeatherType::LightRainShowerDay)
    } else if code == "11"@ {
        Some(WeatherType::Drizzle)
    } else if code == "12"@ {
        Some(WeatherType::LightRain)
    } else if code == "13"@ {
        Some(WeatherType::HeavyRainShowerNight)
    } else if code == "14"@ {
        Some(WeatherType::HeavyRainShowerDay)
    } else if code == "15"@ {
        Some(WeatherType::HeavyRain)
    } else if code == "16"@ {
        Some(WeatherType::SleetShowerNight)
    } else if code == "17"@ {
        Some(WeatherType::SleetShowerDay)
    } else if code == "18"@ {
        Some(WeatherType::Sleet)
    } else if code == "19"@ {
        Some(WeatherType::HailShowerNight)
    } else if code == "20"@ {
        Some(WeatherType::HailShowerDay)
    } else if code == "21"@ {
        Some(WeatherType::Hail)
    } else if code == "22"@ {
        Some(WeatherType::LightSnowShowerNight)
    } else if code == "23"@ {
        Some(WeatherType::LightSnowShowerDay)
    } else if code == "24"@ {
        Some(WeatherType::LightSnow)
    } else if code == "25"@ {
        Some(WeatherType::HeavySnowShowerNight)
    } else if code == "26"@ {
        Some(WeatherType::HeavySnowShowerDay)
    } else if code == "27"@ {
        Some(WeatherType::HeavySnow)
    } else if code == "28"@ {
        Some(WeatherType::ThunderShowerNight)
    } else if code == "29"@ {
        Some(WeatherType::ThunderShowerDay)
    } else if code == "30"@ {
        Some(WeatherType::Thunder)
    } else {
        None
    }
}

impl WeatherType {
    /// Decode a weather-type code: the category it names; `UnusedCode` for
    /// the reserved code `4`; `InvalidCode` for every other string outside
    /// the table, each error carrying the input.
    pub fn from_str(code: &str) -> (r: Result<WeatherType, WeatherTypeCodeConversionError>)
        ensures
            match r {
                Ok(w) => spec_weather(code@) == Some(w),
                Err(WeatherTypeCodeConversionError::UnusedCode(c)) => code@ == "4"@ && c@
                    == code@,
                Err(WeatherTypeCodeConversionError::InvalidCode(c)) => spec_weather(code@)
                    is None && code@ != "4"@ && c@ == code@,
            },
    {
        if str_eq(code, "NA") {
            Ok(WeatherType::NotAvailable)
        } else if str_eq(code, "0") {
            Ok(WeatherType::ClearNight)
        } else if str_eq(code, "1") {
            Ok(WeatherType::SunnyDay)
        } else if str_eq(code, "2") {
            Ok(WeatherType::PartlyCloudyNight)
        } else if str_eq(code, "3") {
            Ok(WeatherType::PartlyCloudyDay)
        } else if str_eq(code, "4") {
            proof {
                lemma_weather_reserved();
            }
            Err(WeatherTypeCodeConversionError::UnusedCode(code.to_owned()))
        } else if str_eq(code, "5") {
            Ok(WeatherType::Mist)
        } else if str_eq(code, "6") {
            Ok(WeatherType::Fog)
        } else if str_eq(code, "7") {
            Ok(WeatherType::Cloudy)
        } else if str_eq(code, "8") {
            Ok(WeatherType::Overcast)
        } else if str_eq(code, "9") {
            Ok(WeatherType::LightRainShowerNight)
        } else if str_eq(code, "10") {
            Ok(WeatherType::LightRainShowerDay)
        } else if str_eq(code, "11") {
            Ok(WeatherType::Drizzle)
        } else if str_eq(code, "12") {
            Ok(WeatherType::LightRain)
        } else if str_eq(code, "13") {
            Ok(WeatherType::HeavyRainShowerNight)
        } else if str_eq(code, "14") {
            Ok(WeatherType::HeavyRainShowerDay)
        } else if str_eq(code, "15") {
            Ok(WeatherType::HeavyRain)
        } else if str_eq(code, "16") {
            Ok(WeatherType::SleetShowerNight)
        } else if str_eq(code, "17") {
            Ok(WeatherType::SleetShowerDay)
        } else if str_eq(code, "18") {
            Ok(WeatherType::Sleet)
        } else if str_eq(code, "19") {
            Ok(WeatherType::HailShowerNight)
        } else if str_eq(code, "20") {
            Ok(WeatherType::HailShowerDay)
        } else if str_eq(code, "21") {
            Ok(WeatherType::Hail)
        } else if str_eq(code, "22") {
            Ok(WeatherType::LightSnowShowerNight)
        } else if str_eq(code, "23") {
            Ok(WeatherType::LightSnowShowerDay)
        } else if str_eq(code, "24") {
            Ok(WeatherType::LightSnow)
        } else if str_eq(code, "25") {
            Ok(WeatherType::HeavySnowShowerNight)
        } else if str_eq(code, "26") {
            Ok(WeatherType::HeavySnowShowerDay)
        } else if str_eq(code, "27") {
            Ok(WeatherType::HeavySnow)
        } else if str_eq(code, "28") {
            Ok(WeatherType::ThunderShowerNight)
        } else if str_eq(code, "29") {
            Ok(WeatherType::ThunderShowerDay)
        } else if str_eq(code, "30") {
            Ok(WeatherType::Thunder)
        } else {
            Err(WeatherTypeCodeConversionError::InvalidCode(code.to_owned()))
        }
    }
}

/// Pins down the characters of every literal of the weather code table, so
/// that the table can be evaluated at each of them.
proof fn lemma_weather_literals()
    ensures
        "NA"@.len() == 2,
        "NA"@[0] == 'N',
        "NA"@[1] == 'A',
        "0"@.len() == 1,
        "0"@[0] == '0',
        "1"@.len() == 1,
        "1"@[0] == '1',
        "2"@.len() == 1,
        "2"@[0] == '2',
        "3"@.len() == 1,
        "3"@[0] == '3',
        "4"@.len() == 1,
        "4"@[0] == '4',
        "5"@.len() == 1,
        "5"@[0] == '5',
        "6"@.len() == 1,
        "6"@[0] == '6',
        "7"@.len() == 1,
        "7"@[0] == '7',
        "8"@.len() == 1,
        "8"@[0] == '8',
        "9"@.len() == 1,
        "9"@[0] == '9',
        "10"@.len() == 2,
        "10"@[0] == '1',
        "10"@[1] == '0',
        "11"@.len() == 2,
        "11"@[0] == '1',
        "11"@[1] == '1',
        "12"@.len() == 2,
        "12"@[0] == '1',
        "12"@[1] == '2',
        "13"@.len() == 2,
        "13"@[0] == '1',
        "13"@[1] == '3',
        "14"@.len() == 2,
        "14"@[0] == '1',
        "14"@[1] == '4',
        "15"@.len() == 2,
        "15"@[0] == '1',
        "15"@[1] == '5',
        "16"@.len() == 2,
        "16"@[0] == '1',
        "16"@[1] == '6',
        "17"@.len() == 2,
        "17"@[0] == '1',
        "17"@[1] == '7',
        "18"@.len() == 2,
        "18"@[0] == '1',
        "18"@[1] == '8',
        "19"@.len() == 2,
        "19"@[0] == '1',
        "19"@[1] == '9',
        "20"@.len() == 2,
        "20"@[0] == '2',
        "20"@[1] == '0',
        "21"@.len() == 2,
        "21"@[0] == '2',
        "21"@[1] == '1',
        "22"@.len() == 2,
        "22"@[0] == '2',
        "22"@[1] == '2',
        "23"@.len() == 2,
        "23"@[0] == '2',
        "23"@[1] == '3',
        "24"@.len() == 2,
        "24"@[0] == '2',
        "24"@[1] == '4',
        "25"@.len() == 2,
        "25"@[0] == '2',
        "25"@[1] == '5',
        "26"@.len() == 2,
        "26"@[0] == '2',
        "26"@[1] == '6',
        "27"@.len() == 2,
        "27"@[0] == '2',
        "27"@[1] == '7',
        "28"@.len() == 2,
        "28"@[0] == '2',
        "28"@[1] == '8',
        "29"@.len() == 2,
        "29"@[0] == '2',
        "29"@[1] == '9',
        "30"@.len() == 2,
        "30"@[0] == '3',
        "30"@[1] == '0',
{
    broadcast use vstd::string::group_string_axioms;

    reveal_strlit("NA");
    reveal_strlit("0");
    reveal_strlit("1");
    reveal_strlit("2");
    reveal_strlit("3");
    reveal_strlit("4");
    reveal_strlit("5");
    reveal_strlit("6");
    reveal_strlit("7");
    reveal_strlit("8");
    reveal_strlit("9");
    reveal_strlit("10");
    reveal_strlit("11");
    reveal_strlit("12");
    reveal_strlit("13");
    reveal_strlit("14");
    reveal_strlit("15");
    reveal_strlit("16");
    reveal_strlit("17");
    reveal_strlit("18");
    reveal_strlit("19");
    reveal_strlit("20");
    reveal_strlit("21");
    reveal_strlit("22");
    reveal_strlit("23");
    reveal_strlit("24");
    reveal_strlit("25");
    reveal_strlit("26");
    reveal_strlit("27");
    reveal_strlit("28");
    reveal_strlit("29");
    reveal_strlit("30");
    assert("NA"@ =~= seq!['N', 'A']);
    assert("0"@ =~= seq!['0']);
    assert("1"@ =~= seq!['1']);
    assert("2"@ =~= seq!['2']);
    assert("3"@ =~= seq!['3']);
    assert("4"@ =~= seq!['4']);
    assert("5"@ =~= seq!['5']);
    assert("6"@ =~= seq!['6']);
    assert("7"@ =~= seq!['7']);
    assert("8"@ =~= seq!['8']);
    assert("9"@ =~= seq!['9']);
    assert("10"@ =~= seq!['1', '0']);
    assert("11"@ =~= seq!['1', '1']);
    assert("12"@ =~= seq!['1', '2']);
    assert("13"@ =~= seq!['1', '3']);
    assert("14"@ =~= seq!['1', '4']);
    assert("15"@ =~= seq!['1', '5']);
    assert("16"@ =~= seq!['1', '6']);
    assert("17"@ =~= seq!['1', '7']);
    assert("18"@ =~= seq!['1', '8']);
    assert("19"@ =~= seq!['1', '9']);
    assert("20"@ =~= seq!['2', '0']);
    assert("21"@ =~= seq!['2', '1']);
    assert("22"@ =~= seq!['2', '2']);
    assert("23"@ =~= seq!['2', '3']);
    assert("24"@ =~= seq!['2', '4']);
    assert("25"@ =~= seq!['2', '5']);
    assert("26"@ =~= seq!['2', '6']);
    assert("27"@ =~= seq!['2', '7']);
    assert("28"@ =~= seq!['2', '8']);
    assert("29"@ =~= seq!['2', '9']);
    assert("30"@ =~= seq!['3', '0']);
}

/// The reserved code `4` is outside the table's domain: it decodes to no
/// category, so only the `UnusedCode` error can report it.
pub proof fn lemma_weather_reserved()
    ensures
        spec_weather("4"@) is None,
{
    lemma_weather_literals();
}

/// Every code of the weather table decodes to the category the upstream
/// documentation assigns to it.
#[verifier::rlimit(30)]
pub proof fn lemma_weather_exhaustive()
    ensures
        spec_weather("NA"@) == Some(WeatherType::NotAvailable),
        spec_weather("0"@) == Some(WeatherType::ClearNight),
        spec_weather("1"@) == Some(WeatherType::SunnyDay),
        spec_weather("2"@) == Some(WeatherType::PartlyCloudyNight),
        spec_weather("3"@) == Some(WeatherType::PartlyCloudyDay),
        spec_weather("5"@) == Some(WeatherType::Mist),
        spec_weather("6"@) == Some(WeatherType::Fog),
        spec_weather("7"@) == Some(WeatherType::Cloudy),
        spec_weather("8"@) == Some(WeatherType::Overcast),
        spec_weather("9"@) == Some(WeatherType::LightRainShowerNight),
        spec_weather("10"@) == Some(WeatherType::LightRainShowerDay),
        spec_weather("11"@) == Some(WeatherType::Drizzle),
        spec_weather("12"@) == Some(WeatherType::LightRain),
        spec_weather("13"@) == Some(WeatherType::HeavyRainShowerNight),
        spec_weather("14"@) == Some(WeatherType::HeavyRainShowerDay),
        spec_weather("15"@) == Some(WeatherType::HeavyRain),
        spec_weather("16"@) == Some(WeatherType::SleetShowerNight),
        spec_weather("17"@) == Some(WeatherType::SleetShowerDay),
        spec_weather("18"@) == Some(WeatherType::Sleet),
        spec_weather("19"@) == Some(WeatherType::HailShowerNight),
        spec_weather("20"@) == Some(WeatherType::HailShowerDay),
        spec_weather("21"@) == Some(WeatherType::Hail),
        spec_weather("22"@) == Some(WeatherType::LightSnowShowerNight),
        spec_weather("23"@) == Some(WeatherType::LightSnowShowerDay),
        spec_weather("24"@) == Some(WeatherType::LightSnow),
        spec_weather("25"@) == Some(WeatherType::HeavySnowShowerNight),
        spec_weather("26"@) == Some(WeatherType::HeavySnowShowerDay),
        spec_weather("27"@) == Some(WeatherType::HeavySnow),
        spec_weather("28"@) == Some(WeatherType::ThunderShowerNight),
        spec_weather("29"@) == Some(WeatherType::ThunderShowerDay),
        spec_weather("30"@) == Some(WeatherType::Thunder),
{
    lemma_weather_literals();
}

} // verus!
