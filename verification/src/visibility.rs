//! The seven-value visibility code table.

use vstd::prelude::*;
use crate::strings::str_eq;

verus! {

/// One of the seven visibility categories named by the upstream code table.
#[derive(Debug, PartialEq, Eq, Structural, Clone, Copy)]
pub enum Visibility {
    Unknown,
    VeryPoor,
    Poor,
    Moderate,
    Good,
    VeryGood,
    Excellent,
}

/// Failure to decode a visibility code, carrying the offending input.
#[derive(Debug, PartialEq, Eq)]
pub enum VisibilityCodeConversionError {
    InvalidCode(String),
}

/// The visibility code table: two-letter code to the category it names,
/// `None` outside the table's domain.
pub open spec fn spec_visibility(code: Seq<char>) -> Option<Visibility> {
    if code == "UN"@ {
        Some(Visibility::Unknown)
    } else if code == "VP"@ {
        Some(Visibility::VeryPoor)
    } else if code == "PO"@ {
        Some(Visibility::Poor)
    } else if code == "MO"@ {
        Some(Visibility::Moderate)
    } else if code == "GO"@ {
        Some(Visibility::Good)
    } else if code == "VG"@ {
        Some(Visibility::VeryGood)
    } else if code == "EX"@ {
        Some(Visibility::Excellent)
    } else {
        None
    }
}

impl Visibility {
    /// Decode a visibility code: the category it names, or `InvalidCode`
    /// carrying the input for a code outside the table.
    pub fn from_str(code: &str) -> (r: Result<Visibility, VisibilityCodeConversionError>)
        ensures
            match r {
                Ok(v) => spec_visibility(code@) == Some(v),
                Err(VisibilityCodeConversionError::InvalidCode(c)) => spec_visibility(code@)
                    is None && c@ == code@,
            },
    {
        if str_eq(code, "UN") {
            Ok(Visibility::Unknown)
        } else if str_eq(code, "VP") {
            Ok(Visibility::VeryPoor)
        } else if str_eq(code, "PO") {
            Ok(Visibility::Poor)
        } else if str_eq(code, "MO") {
            Ok(Visibility::Moderate)
        } else if str_eq(code, "GO") {
            Ok(Visibility::Good)
        } else if str_eq(code, "VG") {
            Ok(Visibility::VeryGood)
        } else if str_eq(code, "EX") {
            Ok(Visibility::Excellent)
        } else {
            Err(VisibilityCodeConversionError::InvalidCode(code.to_owned()))
        }
    }

    /// Decode a visibility code; the same table as [`Visibility::from_str`].
    pub fn try_from(code: &str) -> (r: Result<Visibility, VisibilityCodeConversionError>)
        ensures
            match r {
                Ok(v) => spec_visibility(code@) == Some(v),
                Err(VisibilityCodeConversionError::InvalidCode(c)) => spec_visibility(code@)
                    is None && c@ == code@,
            },
    {
        Visibility::from_str(code)
    }
}

/// Every code of the visibility table decodes to the category the upstream
/// documentation assigns to it.
pub proof fn lemma_visibility_exhaustive()
    ensures
        spec_visibility("UN"@) == Some(Visibility::Unknown),
        spec_visibility("VP"@) == Some(Visibility::VeryPoor),
        spec_visibility("PO"@) == Some(Visibility::Poor),
        spec_visibility("MO"@) == Some(Visibility::Moderate),
        spec_visibility("GO"@) == Some(Visibility::Good),
        spec_visibility("VG"@) == Some(Visibility::VeryGood),
        spec_visibility("EX"@) == Some(Visibility::Excellent),
{
    broadcast use vstd::string::group_string_axioms;

    reveal_strlit("UN");
    reveal_strlit("VP");
    reveal_strlit("PO");
    reveal_strlit("MO");
    reveal_strlit("GO");
    reveal_strlit("VG");
    reveal_strlit("EX");
    assert("UN"@ =~= seq!['U', 'N']);
    assert("VP"@ =~= seq!['V', 'P']);
    assert("PO"@ =~= seq!['P', 'O']);
    assert("MO"@ =~= seq!['M', 'O']);
    assert("GO"@ =~= seq!['G', 'O']);
    assert("VG"@ =~= seq!['V', 'G']);
    assert("EX"@ =~= seq!['E', 'X']);
}

} // verus!
