use met_forecast::direction::{Direction, DirectionConversionError};

#[test]
fn test_directions() {
    assert_eq!(Direction::try_from("N").unwrap(), Direction::North);
    assert_eq!(Direction::try_from("NNE").unwrap(), Direction::NorthNorthEast);
    assert_eq!(Direction::try_from("NE").unwrap(), Direction::NorthEast);
    assert_eq!(Direction::try_from("ENE").unwrap(), Direction::EastNorthEast);
    assert_eq!(Direction::try_from("E").unwrap(), Direction::East);
    assert_eq!(Direction::try_from("ESE").unwrap(), Direction::EastSouthEast);
    assert_eq!(Direction::try_from("SE").unwrap(), Direction::SouthEast);
    assert_eq!(Direction::try_from("SSE").unwrap(), Direction::SouthSouthEast);
    assert_eq!(Direction::try_from("S").unwrap(), Direction::South);
    assert_eq!(Direction::try_from("SSW").unwrap(), Direction::SouthSouthWest);
    assert_eq!(Direction::try_from("SW").unwrap(), Direction::SouthWest);
    assert_eq!(Direction::try_from("WSW").unwrap(), Direction::WestSouthWest);
    assert_eq!(Direction::try_from("W").unwrap(), Direction::West);
    assert_eq!(Direction::try_from("WNW").unwrap(), Direction::WestNorthWest);
    assert_eq!(Direction::try_from("NW").unwrap(), Direction::NorthWest);
    assert_eq!(Direction::try_from("NNW").unwrap(), Direction::NorthNorthWest);
}

#[test]
fn test_direction_error() {
    assert_eq!(
        Direction::try_from("not a direction").unwrap_err(),
        DirectionConversionError::InvalidDirection("not a direction".to_string())
    );
}
