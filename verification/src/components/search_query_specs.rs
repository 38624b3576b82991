//! Search query specs: the match rules a search query applies to
//! dimension values.

use vstd::prelude::*;

verus! {

use crate::components::druid_types::DruidNativeType;
use crate::components::druid_types::native_jsonv;
use crate::components::druid_types::natives_jsonv;
use crate::components::druid_types::natives_to_json;
use crate::json::JsonV;
use crate::json::JsonValue;
use crate::json::ObjBuilder;
use crate::json::jbool;
use crate::json::jstr;
use crate::json::jstring;

/// A search query spec. The contains and fragment kinds carry their
/// needles as scalar values, which must be the string shape.
pub enum SearchQuerySpec {
    InsensitiveContains { value: DruidNativeType },
    Fragment { case_sensitive: bool, values: Vec<DruidNativeType> },
    Contains { case_sensitive: bool, value: DruidNativeType },
    Regex { pattern: String },
}

/// Error for a search needle that is not the string scalar shape.
#[derive(Debug, Clone, Copy)]
pub struct ValueNotString;

impl SearchQuerySpec {
    /// A case-insensitive contains match. The needle must be the string
    /// scalar shape; any other shape is rejected.
    pub fn insensitive_contains(value: DruidNativeType) -> (r: Result<Self, ValueNotString>)
        ensures
            match r {
                Ok(s) => value is String && s == (SearchQuerySpec::InsensitiveContains {
                    value,
                }),
                Err(_) => !(value is String),
            },
    {
        match &value {
            DruidNativeType::String(_) => Ok(Self::InsensitiveContains { value }),
            _ => Err(ValueNotString),
        }
    }

    /// A fragment match: every listed needle must appear. Each needle must
    /// be the string scalar shape; any other shape is rejected.
    pub fn fragment(case_sensitive: bool, values: Vec<DruidNativeType>) -> (r: Result<
        Self,
        ValueNotString,
    >)
        ensures
            match r {
                Ok(s) => (forall|i: int|
                    0 <= i < values@.len() ==> #[trigger] values@[i] is String) && s == (
                SearchQuerySpec::Fragment { case_sensitive, values }),
                Err(_) => exists|i: int|
                    0 <= i < values@.len() && !(#[trigger] values@[i] is String),
            },
    {
        let mut i: usize = 0;
        while i < values.len()
            invariant
                i <= values@.len(),
                forall|j: int| 0 <= j < i ==> #[trigger] values@[j] is String,
            decreases values@.len() - i,
        {
            match &values[i] {
                DruidNativeType::String(_) => {},
                _ => {
                    return Err(ValueNotString);
                },
            }
            i = i + 1;
        }
        Ok(Self::Fragment { case_sensitive, values })
    }

    /// A contains match. The needle must be the string scalar shape; any
    /// other shape is rejected.
    pub fn contains(case_sensitive: bool, value: DruidNativeType) -> (r: Result<
        Self,
        ValueNotString,
    >)
        ensures
            match r {
                Ok(s) => value is String && s == (SearchQuerySpec::Contains {
                    case_sensitive,
                    value,
                }),
                Err(_) => !(value is String),
            },
    {
        match &value {
            DruidNativeType::String(_) => Ok(Self::Contains { case_sensitive, value }),
            _ => Err(ValueNotString),
        }
    }

    /// A regular-expression match.
    pub fn regex(pattern: String) -> (r: Self)
        ensures
            r == (SearchQuerySpec::Regex { pattern }),
    {
        Self::Regex { pattern }
    }

    /// This spec's JSON wire form.
    pub fn to_json(&self) -> (r: JsonValue)
        ensures
            r@ == search_query_spec_jsonv(*self),
    {
        let mut b = ObjBuilder::new();
        match self {
            Self::InsensitiveContains { value } => {
                b.field("type", jstr("insensitiveContains"));
                b.field("value", value.to_json());
            },
            Self::Fragment { case_sensitive, values } => {
                b.field("type", jstr("fragment"));
                b.field("caseSensitive", jbool(*case_sensitive));
                b.field("values", natives_to_json(values));
            },
            Self::Contains { case_sensitive, value } => {
                b.field("type", jstr("contains"));
                b.field("caseSensitive", jbool(*case_sensitive));
                b.field("value", value.to_json());
            },
            Self::Regex { pattern } => {
                b.field("type", jstr("regex"));
                b.field("pattern", jstring(pattern.clone()));
            },
        }
        b.finish()
    }
}

/// The JSON wire form of a search query spec.
pub open spec fn search_query_spec_jsonv(s: SearchQuerySpec) -> JsonV {
    match s {
        SearchQuerySpec::InsensitiveContains { value } => JsonV::Obj(
            Seq::empty().push(("type"@, JsonV::Str("insensitiveContains"@))).push(
                ("value"@, native_jsonv(value)),
            ),
        ),
        SearchQuerySpec::Fragment { case_sensitive, values } => JsonV::Obj(
            Seq::empty().push(("type"@, JsonV::Str("fragment"@))).push(
                ("caseSensitive"@, JsonV::Bool(case_sensitive)),
            ).push(("values"@, JsonV::Arr(natives_jsonv(values@)))),
        ),
        SearchQuerySpec::Contains { case_sensitive, value } => JsonV::Obj(
            Seq::empty().push(("type"@, JsonV::Str("contains"@))).push(
                ("caseSensitive"@, JsonV::Bool(case_sensitive)),
            ).push(("value"@, native_jsonv(value))),
        ),
        SearchQuerySpec::Regex { pattern } => JsonV::Obj(
            Seq::empty().push(("type"@, JsonV::Str("regex"@))).push(
                ("pattern"@, JsonV::Str(pattern@)),
            ),
        ),
    }
}

} // verus!
