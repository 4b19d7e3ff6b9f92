//! The sixteen-point compass code table for the wind direction field.

use vstd::prelude::*;
use crate::strings::str_eq;

verus! {

/// One of the sixteen compass points named by the upstream code table.
#[derive(Debug, PartialEq, Eq, Structural, Clone, Copy)]
pub enum Direction {
    North,
    NorthNorthEast,
    NorthEast,
    EastNorthEast,
    East,
    EastSouthEast,
    SouthEast,
    SouthSouthEast,
    South,
    SouthSouthWest,
    SouthWest,
    WestSouthWest,
    West,
    WestNorthWest,
    NorthWest,
    NorthNorthWest,
}

/// Failure to decode a wind-direction code, carrying the offending input.
#[derive(Debug, PartialEq, Eq)]
pub enum DirectionConversionError {
    InvalidDirection(String),
}

/// The compass code table: compass initials to the direction they name,
/// `None` outside the table's domain.
pub open spec fn spec_direction(code: Seq<char>) -> Option<Direction> {
    if code == "N"@ {
        Some(Direction::North)
    } else if code == "NNE"@ {
        Some(Direction::NorthNorthEast)
    } else if code == "NE"@ {
        Some(Direction::NorthEast)
    } else if code == "ENE"@ {
        Some(Direction::EastNorthEast)
    } else if code == "E"@ {
        Some(Direction::East)
    } else if code == "ESE"@ {
        Some(Direction::EastSouthEast)
    } else if code == "SE"@ {
        Some(Direction::SouthEast)
    } else if code == "SSE"@ {
        Some(Direction::SouthSouthEast)
    } else if code == "S"@ {
        Some(Direction::South)
    } else if code == "SSW"@ {
        Some(Direction::SouthSouthWest)
    } else if code == "SW"@ {
        Some(Direction::SouthWest)
    } else if code == "WSW"@ {
        Some(Direction::WestSouthWest)
    } else if code == "W"@ {
        Some(Direction::West)
    } else if code == "WNW"@ {
        Some(Direction::WestNorthWest)
    } else if code == "NW"@ {
        Some(Direction::NorthWest)
    } else if code == "NNW"@ {
        Some(Direction::NorthNorthWest)
    } else {
        None
    }
}

impl Direction {
    /// Decode a compass-initials code: the direction it names, or
    /// `InvalidDirection` carrying the input for a code outside the table.
    pub fn try_from(value: &str) -> (r: Result<Direction, DirectionConversionError>)
        ensures
            match r {
                Ok(d) => spec_direction(value@) == Some(d),
                Err(DirectionConversionError::InvalidDirection(c)) => spec_direction(value@)
                    is None && c@ == value@,
            },
    {
        if str_eq(value, "N") {
            Ok(Direction::North)
        } else if str_eq(value, "NNE") {
            Ok(Direction::NorthNorthEast)
        } else if str_eq(value, "NE") {
            Ok(Direction::NorthEast)
        } else if str_eq(value, "ENE") {
            Ok(Direction::EastNorthEast)
        } else if str_eq(value, "E") {
            Ok(Direction::East)
        } else if str_eq(value, "ESE") {
            Ok(Direction::EastSouthEast)
        } else if str_eq(value, "SE") {
            Ok(Direction::SouthEast)
        } else if str_eq(value, "SSE") {
            Ok(Direction::SouthSouthEast)
        } else if str_eq(value, "S") {
            Ok(Direction::South)
        } else if str_eq(value, "SSW") {
            Ok(Direction::SouthSouthWest)
        } else if str_eq(value, "SW") {
            Ok(Direction::SouthWest)
        } else if str_eq(value, "WSW") {
            Ok(Direction::WestSouthWest)
        } else if str_eq(value, "W") {
            Ok(Direction::West)
        } else if str_eq(value, "WNW") {
            Ok(Direction::WestNorthWest)
        } else if str_eq(value, "NW") {
            Ok(Direction::NorthWest)
        } else if str_eq(value, "NNW") {
            Ok(Direction::NorthNorthWest)
        } else {
            Err(DirectionConversionError::InvalidDirection(value.to_owned()))
        }
    }
}

/// Every code of the compass table decodes to the direction the upstream
/// documentation assigns to it.
pub proof fn lemma_direction_exhaustive()
    ensures
        spec_direction("N"@) == Some(Direction::North),
        spec_direction("NNE"@) == Some(Direction::NorthNorthEast),
        spec_direction("NE"@) == Some(Direction::NorthEast),
        spec_direction("ENE"@) == Some(Direction::EastNorthEast),
        spec_direction("E"@) == Some(Direction::East),
        spec_direction("ESE"@) == Some(Direction::EastSouthEast),
        spec_direction("SE"@) == Some(Direction::SouthEast),
        spec_direction("SSE"@) == Some(Direction::SouthSouthEast),
        spec_direction("S"@) == Some(Direction::South),
        spec_direction("SSW"@) == Some(Direction::SouthSouthWest),
        spec_direction("SW"@) == Some(Direction::SouthWest),
        spec_direction("WSW"@) == Some(Direction::WestSouthWest),
        spec_direction("W"@) == Some(Direction::West),
        spec_direction("WNW"@) == Some(Direction::WestNorthWest),
        spec_direction("NW"@) == Some(Direction::NorthWest),
        spec_direction("NNW"@) == Some(Direction::NorthNorthWest),
{
    broadcast use vstd::string::group_string_axioms;

    reveal_strlit("N");
    reveal_strlit("NNE");
    reveal_strlit("NE");
    reveal_strlit("ENE");
    reveal_strlit("E");
    reveal_strlit("ESE");
    reveal_strlit("SE");
    reveal_strlit("SSE");
    reveal_strlit("S");
    reveal_strlit("SSW");
    reveal_strlit("SW");
    reveal_strlit("WSW");
    reveal_strlit("W");
    reveal_strlit("WNW");
    reveal_strlit("NW");
    reveal_strlit("NNW");
    assert("N"@ =~= seq!['N']);
    assert("NNE"@ =~= seq!['N', 'N', 'E']);
    assert("NE"@ =~= seq!['N', 'E']);
    assert("ENE"@ =~= seq!['E', 'N', 'E']);
    assert("E"@ =~= seq!['E']);
    assert("ESE"@ =~= seq!['E', 'S', 'E']);
    assert("SE"@ =~= seq!['S', 'E']);
    assert("SSE"@ =~= seq!['S', 'S', 'E']);
    assert("S"@ =~= seq!['S']);
    assert("SSW"@ =~= seq!['S', 'S', 'W']);
    assert("SW"@ =~= seq!['S', 'W']);
    assert("WSW"@ =~= seq!['W', 'S', 'W']);
    assert("W"@ =~= seq!['W']);
    assert("WNW"@ =~= seq!['W', 'N', 'W']);
    assert("NW"@ =~= seq!['N', 'W']);
    assert("NNW"@ =~= seq!['N', 'N', 'W']);
    assert("N"@[0] == 'N');
    assert("E"@[0] == 'E');
    assert("S"@[0] == 'S');
    assert("W"@[0] == 'W');
}

} // verus!
