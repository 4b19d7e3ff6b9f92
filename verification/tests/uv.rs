use met_forecast::uv::{UvCodeConversionError, UvIndex};

#[test]
fn test_uv_code_to_index() {
    assert_eq!(UvIndex::try_from("1").unwrap().index, 1);
    assert_eq!(
        UvIndex::try_from("1").unwrap().description,
        "Low exposure. No protection required. You can safely stay outside"
    );

    assert_eq!(UvIndex::try_from("2").unwrap().index, 2);
    assert_eq!(
        UvIndex::try_from("2").unwrap().description,
        "Low exposure. No protection required. You can safely stay outside"
    );

    assert_eq!(UvIndex::try_from("3").unwrap().index, 3);
    assert_eq!(
        UvIndex::try_from("3").unwrap().description,
        "Moderate exposure. Seek shade during midday hours, cover up and wear sunscreen"
    );

    assert_eq!(UvIndex::try_from("4").unwrap().index, 4);
    assert_eq!(
        UvIndex::try_from("4").unwrap().description,
        "Moderate exposure. Seek shade during midday hours, cover up and wear sunscreen"
    );

    assert_eq!(UvIndex::try_from("5").unwrap().index, 5);
    assert_eq!(
        UvIndex::try_from("5").unwrap().description,
        "Moderate exposure. Seek shade during midday hours, cover up and wear sunscreen"
    );

    assert_eq!(UvIndex::try_from("6").unwrap().index, 6);
    assert_eq!(
        UvIndex::try_from("6").unwrap().description,
        "High exposure. Seek shade during midday hours, cover up and wear sunscreen"
    );

    assert_eq!(UvIndex::try_from("7").unwrap().index, 7);
    assert_eq!(
        UvIndex::try_from("7").unwrap().description,
        "High exposure. Seek shade during midday hours, cover up and wear sunscreen"
    );

    assert_eq!(UvIndex::try_from("8").unwrap().index, 8);
    assert_eq!(
        UvIndex::try_from("8").unwrap().description,
        "Very high. Avoid being outside during midday hours. Shirt, sunscreen and hat are essential"
    );

    assert_eq!(UvIndex::try_from("9").unwrap().index, 9);
    assert_eq!(
        UvIndex::try_from("9").unwrap().description,
        "Very high. Avoid being outside during midday hours. Shirt, sunscreen and hat are essential"
    );

    assert_eq!(UvIndex::try_from("10").unwrap().index, 10);
    assert_eq!(
        UvIndex::try_from("10").unwrap().description,
        "Very high. Avoid being outside during midday hours. Shirt, sunscreen and hat are essential"
    );

    assert_eq!(UvIndex::try_from("11").unwrap().index, 11);
    assert_eq!(
        UvIndex::try_from("11").unwrap().description,
        "Extreme. Avoid being outside during midday hours. Shirt, sunscreen and hat essential."
    );

    assert_eq!(UvIndex::try_from("255").unwrap().index, 255);
    assert_eq!(
        UvIndex::try_from("255").unwrap().description,
        "Extreme. Avoid being outside during midday hours. Shirt, sunscreen and hat essential."
    );
}

#[test]
fn test_invalid_uv_code() {
    assert_eq!(
        UvIndex::try_from("Not a number").err().unwrap(),
        UvCodeConversionError::InvalidCode("Not a number".to_string())
    );
}

#[test]
fn test_uv_band_boundaries() {
    // Index zero and the largest wire value.
    assert_eq!(
        UvIndex::try_from("0").unwrap().description,
        "Low exposure. No protection required. You can safely stay outside"
    );
    assert_eq!(
        UvIndex::try_from("255").unwrap().description,
        "Extreme. Avoid being outside during midday hours. Shirt, sunscreen and hat essential."
    );
    // Each band boundary falls on opposite sides.
    assert_ne!(
        UvIndex::try_from("2").unwrap().description,
        UvIndex::try_from("3").unwrap().description
    );
    assert_ne!(
        UvIndex::try_from("5").unwrap().description,
        UvIndex::try_from("6").unwrap().description
    );
    assert_ne!(
        UvIndex::try_from("7").unwrap().description,
        UvIndex::try_from("8").unwrap().description
    );
    assert_ne!(
        UvIndex::try_from("10").unwrap().description,
        UvIndex::try_from("11").unwrap().description
    );
}

#[test]
fn test_uv_out_of_range_code() {
    assert_eq!(
        UvIndex::try_from("256").err().unwrap(),
        UvCodeConversionError::InvalidCode("256".to_string())
    );
    assert_eq!(
        UvIndex::try_from("-1").err().unwrap(),
        UvCodeConversionError::InvalidCode("-1".to_string())
    );
}
