use met_forecast::visibility::{Visibility, VisibilityCodeConversionError};

#[test]
fn visibility_test_all_valid_visibility_codes() {
    assert_eq!(Visibility::from_str("UN").unwrap(), Visibility::Unknown);
    assert_eq!(Visibility::from_str("VP").unwrap(), Visibility::VeryPoor);
    assert_eq!(Visibility::from_str("PO").unwrap(), Visibility::Poor);
    assert_eq!(Visibility::from_str("MO").unwrap(), Visibility::Moderate);
    assert_eq!(Visibility::from_str("GO").unwrap(), Visibility::Good);
    assert_eq!(Visibility::from_str("VG").unwrap(), Visibility::VeryGood);
    assert_eq!(Visibility::from_str("EX").unwrap(), Visibility::Excellent);
}

#[test]
fn visibility_test_unknown_code() {
    assert_eq!(
        Visibility::from_str("An invalid code").unwrap_err(),
        VisibilityCodeConversionError::InvalidCode("An invalid code".to_string())
    );
}

#[test]
fn visiblity_test_all_valid_visibility_codes() {
    assert_eq!(Visibility::try_from("UN").unwrap(), Visibility::Unknown);
    assert_eq!(Visibility::try_from("VP").unwrap(), Visibility::VeryPoor);
    assert_eq!(Visibility::try_from("PO").unwrap(), Visibility::Poor);
    assert_eq!(Visibility::try_from("MO").unwrap(), Visibility::Moderate);
    assert_eq!(Visibility::try_from("GO").unwrap(), Visibility::Good);
    assert_eq!(Visibility::try_from("VG").unwrap(), Visibility::VeryGood);
    assert_eq!(Visibility::try_from("EX").unwrap(), Visibility::Excellent);
}

#[test]
fn visiblity_test_unknown_code() {
    let result = Visibility::try_from("An invalid code");
    assert!(result.is_err());
    assert_eq!(
        result.err().unwrap(),
        VisibilityCodeConversionError::InvalidCode("An invalid code".to_string())
    );
}
