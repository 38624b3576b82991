//! The orderings several components accept, and the error for a string
//! outside the legal set.

use vstd::prelude::*;

verus! {

use crate::json::JsonV;
use crate::json::JsonValue;
use crate::json::jstr;
use crate::text::lower_chars;
use crate::text::str_eq;
use crate::text::to_lower;

/// An ordering for sorting dimension values, used by the bound filter,
/// limit specs and top-N metric specs.
#[derive(Clone, Copy, PartialEq, Eq, Structural)]
pub enum Ordering {
    Alphanumeric,
    Lexicographic,
    Numeric,
    Strlen,
}

/// Error for an ordering given as a string that is not in the legal set.
/// Carries the offending value and the legal set it was held against.
#[derive(Debug, Clone)]
pub struct InvalidOrderingError {
    pub value: String,
    pub expected: String,
}

impl InvalidOrderingError {
    /// An error carrying the offending value and the expected values.
    pub fn new(value: String, expected: String) -> (r: Self)
        ensures
            r.value == value,
            r.expected == expected,
    {
        Self { value, expected }
    }
}

/// The ordering a lower-cased name stands for, if any.
pub open spec fn ordering_of_lower(s: Seq<char>) -> Option<Ordering> {
    if s == "alphanumeric"@ {
        Some(Ordering::Alphanumeric)
    } else if s == "lexicographic"@ {
        Some(Ordering::Lexicographic)
    } else if s == "numeric"@ {
        Some(Ordering::Numeric)
    } else if s == "strlen"@ {
        Some(Ordering::Strlen)
    } else {
        None
    }
}

impl Ordering {
    /// Read an ordering from a free string, case-insensitively. A string
    /// outside {alphanumeric, lexicographic, numeric, strlen} is rejected
    /// with an error naming it and the legal set.
    pub fn parse(s: &str) -> (r: Result<Ordering, InvalidOrderingError>)
        ensures
            match r {
                Ok(o) => ordering_of_lower(lower_chars(s@)) == Some(o),
                Err(e) => {
                    &&& ordering_of_lower(lower_chars(s@)) is None
                    &&& e.value@ == s@
                    &&& e.expected@ == "lexicographic, alphanumeric, numeric, strlen"@
                },
            },
    {
        let lower = to_lower(s);
        if str_eq(lower.as_str(), "alphanumeric") {
            Ok(Ordering::Alphanumeric)
        } else if str_eq(lower.as_str(), "lexicographic") {
            Ok(Ordering::Lexicographic)
        } else if str_eq(lower.as_str(), "numeric") {
            Ok(Ordering::Numeric)
        } else if str_eq(lower.as_str(), "strlen") {
            Ok(Ordering::Strlen)
        } else {
            Err(
                InvalidOrderingError::new(
                    String::from_str(s),
                    String::from_str("lexicographic, alphanumeric, numeric, strlen"),
                ),
            )
        }
    }

    /// This ordering's JSON wire form, its lower-case name.
    pub fn to_json(&self) -> (r: JsonValue)
        ensures
            r@ == ordering_jsonv(*self),
    {
        match self {
            Ordering::Alphanumeric => jstr("alphanumeric"),
            Ordering::Lexicographic => jstr("lexicographic"),
            Ordering::Numeric => jstr("numeric"),
            Ordering::Strlen => jstr("strlen"),
        }
    }
}

/// The JSON wire form of an ordering: its lower-case name.
pub open spec fn ordering_jsonv(o: Ordering) -> JsonV {
    match o {
        Ordering::Alphanumeric => JsonV::Str("alphanumeric"@),
        Ordering::Lexicographic => JsonV::Str("lexicographic"@),
        Ordering::Numeric => JsonV::Str("numeric"@),
        Ordering::Strlen => JsonV::Str("strlen"@),
    }
}

} // verus!
