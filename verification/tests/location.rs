use met_forecast::location::{LocationConversionError, LocationId};

#[test]
fn test_convert_all() {
    assert_eq!(LocationId::from_str("all").unwrap(), LocationId::All)
}

#[test]
fn test_convert_id() {
    assert_eq!(LocationId::from_str("101").unwrap(), LocationId::Location(101))
}

#[test]
fn test_convert_other() {
    assert_eq!(
        LocationId::from_str("not all or numeric").unwrap_err(),
        LocationConversionError::InvalidLocation("not all or numeric".to_string())
    )
}

#[test]
fn test_convert_all_mixed_case() {
    assert_eq!(LocationId::from_str("ALL").unwrap(), LocationId::All);
    assert_eq!(LocationId::from_str("All").unwrap(), LocationId::All);
}

#[test]
fn test_location_id_as_string() {
    assert_eq!(LocationId::All.as_string(), "all");
    assert_eq!(LocationId::Location(0).as_string(), "0");
    assert_eq!(LocationId::Location(101).as_string(), "101");
    assert_eq!(LocationId::Location(4294967295).as_string(), "4294967295");
}
