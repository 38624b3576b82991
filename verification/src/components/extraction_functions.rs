//! Extraction functions: value transforms applied to a dimension before
//! filtering or grouping.

use vstd::prelude::*;

verus! {

use crate::components::druid_types::DruidNativeType;
use crate::components::druid_types::native_jsonv;
use crate::components::granularities::Granularity;
use crate::components::granularities::granularity_jsonv;
use crate::components::lookups::Lookup;
use crate::components::lookups::lookup_jsonv;
use crate::components::search_query_specs::SearchQuerySpec;
use crate::components::search_query_specs::search_query_spec_jsonv;
use crate::json::JsonV;
use crate::json::JsonValue;
use crate::json::ObjBuilder;
use crate::json::jarr;
use crate::json::jbool;
use crate::json::jstr;
use crate::json::jstring;
use crate::json::junum;
use crate::json::opt_bool_entry;
use crate::json::opt_entry;
use crate::json::opt_str_entry;
use crate::json::opt_u64_entry;
use crate::json::unum_jsonv;

/// A value transform applied to a dimension.
pub enum ExtractionFunction {
    Regex {
        expr: String,
        index: Option<usize>,
        replace_missing_value: Option<bool>,
        replace_missing_value_with: Option<DruidNativeType>,
    },
    Partial { expr: String },
    SearchQuery { query: SearchQuerySpec },
    Substring { index: usize, length: Option<usize> },
    Strlen,
    TimeFormat {
        format: Option<String>,
        time_zone: Option<String>,
        locale: Option<String>,
        granularity: Option<Granularity>,
        as_millis: Option<bool>,
    },
    Time { time_format: String, result_format: String, joda: bool },
    Javascript { function: String, injective: Option<bool> },
    RegisteredLookup {
        lookup: String,
        retain_missing_value: Option<bool>,
        replace_missing_value_with: Option<DruidNativeType>,
        injective: Option<bool>,
        optimize: Option<bool>,
    },
    Lookup {
        lookup: Lookup,
        retain_missing_value: Option<bool>,
        replace_missing_value_with: Option<DruidNativeType>,
        injective: Option<bool>,
        optimize: Option<bool>,
    },
    Cascade { extraction_fns: Vec<ExtractionFunction> },
    StringFormat { format: String, null_handling: Option<String> },
    Upper { locale: Option<String> },
    Lower { locale: Option<String> },
    Bucket { size: Option<usize>, offset: Option<usize> },
}

/// Errors of the lookup-style constructors.
#[derive(Debug, Clone, Copy)]
pub enum LookupError {
    /// Retaining the missing value and replacing it at the same time make
    /// no sense together.
    RetainingReplacingSimultaneously,
    /// The nested lookup must be of the map kind.
    LookupNotMap,
}

/// Error for a `null_handling` value outside the accepted set.
#[derive(Debug, Clone, Copy)]
pub struct NullHandlingError {}

/// The message of a lookup error.
pub open spec fn lookup_error_message(e: LookupError) -> Seq<char> {
    match e {
        LookupError::RetainingReplacingSimultaneously => "retain_missing_value = true and non null (or non empty String) replace_missing_value_with at the same time are illegal"@,
        LookupError::LookupNotMap => "lookup must be of type Map for the Lookup extraction function"@,
    }
}

impl LookupError {
    /// A human-readable message for this error.
    pub fn message(&self) -> (r: String)
        ensures
            r@ == lookup_error_message(*self),
    {
        match self {
            Self::RetainingReplacingSimultaneously => String::from_str(
                "retain_missing_value = true and non null (or non empty String) replace_missing_value_with at the same time are illegal",
            ),
            Self::LookupNotMap => String::from_str(
                "lookup must be of type Map for the Lookup extraction function",
            ),
        }
    }
}

impl NullHandlingError {
    /// A human-readable message for this error.
    pub fn message(&self) -> (r: String)
        ensures
            r@ == "null_handling must be one of \"nullString\", \"emptyString\" or \"returnNull\""@,
    {
        String::from_str(
            "null_handling must be one of \"nullString\", \"emptyString\" or \"returnNull\"",
        )
    }
}

/// Whether retaining and replacing the missing lookup value are asked for
/// at the same time: retention is on, and the replacement is anything
/// other than absent or the empty string (the empty string counts as no
/// replacement).
pub open spec fn retain_replace_conflict(
    retain: Option<bool>,
    replace: Option<DruidNativeType>,
) -> bool {
    retain == Some(true) && match replace {
        Some(DruidNativeType::String(s)) => s@.len() != 0,
        Some(_) => true,
        None => false,
    }
}

/// Executable check for [`retain_replace_conflict`].
pub fn retain_replace_conflict_exec(
    retain: &Option<bool>,
    replace: &Option<DruidNativeType>,
) -> (r: bool)
    ensures
        r == retain_replace_conflict(*retain, *replace),
{
    if let Some(true) = retain {
        match replace {
            Some(DruidNativeType::String(s)) => s.unicode_len() != 0,
            Some(_) => true,
            None => false,
        }
    } else {
        false
    }
}

/// Whether a `null_handling` option is accepted: absent, or exactly one
/// of the three literals (case-sensitively).
pub open spec fn null_handling_ok(o: Option<Seq<char>>) -> bool {
    match o {
        None => true,
        Some(s) => s == "nullString"@ || s == "emptyString"@ || s == "returnNull"@,
    }
}

impl ExtractionFunction {
    /// A regular-expression capture.
    pub fn regex(
        expr: String,
        index: Option<usize>,
        replace_missing_value: Option<bool>,
        replace_missing_value_with: Option<DruidNativeType>,
    ) -> (r: Self)
        ensures
            r == (ExtractionFunction::Regex {
                expr,
                index,
                replace_missing_value,
                replace_missing_value_with,
            }),
    {
        Self::Regex { expr, index, replace_missing_value, replace_missing_value_with }
    }

    /// A partial regular-expression match.
    pub fn partial(expr: String) -> (r: Self)
        ensures
            r == (ExtractionFunction::Partial { expr }),
    {
        Self::Partial { expr }
    }

    /// A search-query transform.
    pub fn search_query(query: SearchQuerySpec) -> (r: Self)
        ensures
            r == (ExtractionFunction::SearchQuery { query }),
    {
        Self::SearchQuery { query }
    }

    /// A substring transform.
    pub fn substring(index: usize, length: Option<usize>) -> (r: Self)
        ensures
            r == (ExtractionFunction::Substring { index, length }),
    {
        Self::Substring { index, length }
    }

    /// The string-length transform.
    pub fn strlen() -> (r: Self)
        ensures
            r == ExtractionFunction::Strlen,
    {
        Self::Strlen
    }

    /// A time-format transform.
    pub fn time_format(
        format: Option<String>,
        time_zone: Option<String>,
        locale: Option<String>,
        granularity: Option<Granularity>,
        as_millis: Option<bool>,
    ) -> (r: Self)
        ensures
            r == (ExtractionFunction::TimeFormat {
                format,
                time_zone,
                locale,
                granularity,
                as_millis,
            }),
    {
        Self::TimeFormat { format, time_zone, locale, granularity, as_millis }
    }

    /// A time-parsing transform.
    pub fn time(time_format: String, result_format: String, joda: bool) -> (r: Self)
        ensures
            r == (ExtractionFunction::Time { time_format, result_format, joda }),
    {
        Self::Time { time_format, result_format, joda }
    }

    /// A JavaScript transform.
    pub fn javascript(function: String, injective: Option<bool>) -> (r: Self)
        ensures
            r == (ExtractionFunction::Javascript { function, injective }),
    {
        Self::Javascript { function, injective }
    }

    /// A transform through a lookup registered on the server. Retaining
    /// the missing value together with a real replacement is rejected;
    /// an empty-string replacement counts as none and is allowed.
    pub fn registered_lookup(
        lookup: String,
        retain_missing_value: Option<bool>,
        replace_missing_value_with: Option<DruidNativeType>,
        injective: Option<bool>,
        optimize: Option<bool>,
    ) -> (r: Result<Self, LookupError>)
        ensures
            match r {
                Ok(e) => {
                    &&& !retain_replace_conflict(
                        retain_missing_value,
                        replace_missing_value_with,
                    )
                    &&& e == (ExtractionFunction::RegisteredLookup {
                        lookup,
                        retain_missing_value,
                        replace_missing_value_with,
                        injective,
                        optimize,
                    })
                },
                Err(err) => {
                    &&& retain_replace_conflict(
                        retain_missing_value,
                        replace_missing_value_with,
                    )
                    &&& err is RetainingReplacingSimultaneously
                },
            },
    {
        if retain_replace_conflict_exec(&retain_missing_value, &replace_missing_value_with) {
            return Err(LookupError::RetainingReplacingSimultaneously);
        }
        Ok(
            Self::RegisteredLookup {
                lookup,
                retain_missing_value,
                replace_missing_value_with,
                injective,
                optimize,
            },
        )
    }

    /// A transform through an inline lookup, which must be of the map
    /// kind. The retain/replace exclusivity rule of
    /// [`ExtractionFunction::registered_lookup`] applies here too.
    pub fn lookup(
        lookup: Lookup,
        retain_missing_value: Option<bool>,
        replace_missing_value_with: Option<DruidNativeType>,
        injective: Option<bool>,
        optimize: Option<bool>,
    ) -> (r: Result<Self, LookupError>)
        ensures
            match r {
                Ok(e) => {
                    &&& !retain_replace_conflict(
                        retain_missing_value,
                        replace_missing_value_with,
                    )
                    &&& e == (ExtractionFunction::Lookup {
                        lookup,
                        retain_missing_value,
                        replace_missing_value_with,
                        injective,
                        optimize,
                    })
                },
                Err(err) => {
                    &&& retain_replace_conflict(
                        retain_missing_value,
                        replace_missing_value_with,
                    )
                    &&& err is RetainingReplacingSimultaneously
                },
            },
    {
        if retain_replace_conflict_exec(&retain_missing_value, &replace_missing_value_with) {
            return Err(LookupError::RetainingReplacingSimultaneously);
        }
        match lookup {
            Lookup::Mapping { .. } => Ok(
                Self::Lookup {
                    lookup,
                    retain_missing_value,
                    replace_missing_value_with,
                    injective,
                    optimize,
                },
            ),
        }
    }

    /// A cascade of transforms applied in order.
    pub fn cascade(extraction_fns: Vec<ExtractionFunction>) -> (r: Self)
        ensures
            r == (ExtractionFunction::Cascade { extraction_fns }),
    {
        Self::Cascade { extraction_fns }
    }

    /// A string-format transform. The null handling, when given, must be
    /// exactly one of `nullString`, `emptyString` or `returnNull`.
    pub fn string_format(format: String, null_handling: Option<String>) -> (r: Result<
        Self,
        NullHandlingError,
    >)
        ensures
            match r {
                Ok(e) => null_handling_ok(null_handling.deep_view()) && e == (
                ExtractionFunction::StringFormat { format, null_handling }),
                Err(_) => !null_handling_ok(null_handling.deep_view()),
            },
    {
        if let Some(s) = &null_handling {
            let good = crate::text::str_eq(s.as_str(), "nullString") || crate::text::str_eq(
                s.as_str(),
                "emptyString",
            ) || crate::text::str_eq(s.as_str(), "returnNull");
            if !good {
                return Err(NullHandlingError {});
            }
        }
        Ok(Self::StringFormat { format, null_handling })
    }

    /// An upper-casing transform.
    pub fn upper(locale: Option<String>) -> (r: Self)
        ensures
            r == (ExtractionFunction::Upper { locale }),
    {
        Self::Upper { locale }
    }

    /// A lower-casing transform.
    pub fn lower(locale: Option<String>) -> (r: Self)
        ensures
            r == (ExtractionFunction::Lower { locale }),
    {
        Self::Lower { locale }
    }

    /// A bucketing transform.
    pub fn bucket(size: Option<usize>, offset: Option<usize>) -> (r: Self)
        ensures
            r == (ExtractionFunction::Bucket { size, offset }),
    {
        Self::Bucket { size, offset }
    }

    /// This transform's JSON wire form.
    pub fn to_json(&self) -> (r: JsonValue)
        ensures
            r@ == extraction_fn_jsonv(*self),
        decreases *self, 1int,
    {
        let mut b = ObjBuilder::new();
        match self {
            Self::Regex { expr, index, replace_missing_value, replace_missing_value_with } => {
                b.field("type", jstr("regex"));
                b.field("expr", jstring(expr.clone()));
                b.field_opt_usize("index", index);
                b.field_opt_bool("replaceMissingValue", replace_missing_value);
                if let Some(v) = replace_missing_value_with {
                    b.field("replaceMissingValueWith", v.to_json());
                }
            },
            Self::Partial { expr } => {
                b.field("type", jstr("partial"));
                b.field("expr", jstring(expr.clone()));
            },
            Self::SearchQuery { query } => {
                b.field("type", jstr("searchQuery"));
                b.field("query", query.to_json());
            },
            Self::Substring { index, length } => {
                b.field("type", jstr("substring"));
                b.field("index", junum(*index as u64));
                b.field_opt_usize("length", length);
            },
            Self::Strlen => {
                b.field("type", jstr("strlen"));
            },
            Self::TimeFormat { format, time_zone, locale, granularity, as_millis } => {
                b.field("type", jstr("timeFormat"));
                b.field_opt_string("format", format);
                b.field_opt_string("timeZone", time_zone);
                b.field_opt_string("locale", locale);
                if let Some(g) = granularity {
                    b.field("granularity", g.to_json());
                }
                b.field_opt_bool("asMillis", as_millis);
            },
            Self::Time { time_format, result_format, joda } => {
                b.field("type", jstr("time"));
                b.field("timeFormat", jstring(time_format.clone()));
                b.field("resultFormat", jstring(result_format.clone()));
                b.field("joda", jbool(*joda));
            },
            Self::Javascript { function, injective } => {
                b.field("type", jstr("javascript"));
                b.field("function", jstring(function.clone()));
                b.field_opt_bool("injective", injective);
            },
            Self::RegisteredLookup {
                lookup,
                retain_missing_value,
                replace_missing_value_with,
                injective,
                optimize,
            } => {
                b.field("type", jstr("registeredLookup"));
                b.field("lookup", jstring(lookup.clone()));
                b.field_opt_bool("retainMissingValue", retain_missing_value);
                if let Some(v) = replace_missing_value_with {
                    b.field("replaceMissingValueWith", v.to_json());
                }
                b.field_opt_bool("injective", injective);
                b.field_opt_bool("optimize", optimize);
            },
            Self::Lookup {
                lookup,
                retain_missing_value,
                replace_missing_value_with,
                injective,
                optimize,
            } => {
                b.field("type", jstr("lookup"));
                b.field("lookup", lookup.to_json());
                b.field_opt_bool("retainMissingValue", retain_missing_value);
                if let Some(v) = replace_missing_value_with {
                    b.field("replaceMissingValueWith", v.to_json());
                }
                b.field_opt_bool("injective", injective);
                b.field_opt_bool("optimize", optimize);
            },
            Self::Cascade { extraction_fns } => {
                b.field("type", jstr("cascade"));
                b.field("extractionFns", extraction_fns_to_json(extraction_fns));
            },
            Self::StringFormat { format, null_handling } => {
                b.field("type", jstr("stringFormat"));
                b.field("format", jstring(format.clone()));
                b.field_opt_string("nullHandling", null_handling);
            },
            Self::Upper { locale } => {
                b.field("type", jstr("upper"));
                b.field_opt_string("locale", locale);
            },
            Self::Lower { locale } => {
                b.field("type", jstr("lower"));
                b.field_opt_string("locale", locale);
            },
            Self::Bucket { size, offset } => {
                b.field("type", jstr("bucket"));
                b.field_opt_usize("size", size);
                b.field_opt_usize("offset", offset);
            },
        }
        b.finish()
    }
}

/// A JSON array of extraction functions.
#[verifier::loop_isolation(false)]
pub fn extraction_fns_to_json(xs: &Vec<ExtractionFunction>) -> (r: JsonValue)
    ensures
        r@ == JsonV::Arr(extraction_fns_jsonv(xs@, xs@.len() as int)),
    decreases xs@, 0int,
{
    let mut items: Vec<JsonValue> = Vec::new();
    let mut i: usize = 0;
    proof {
        lemma_extraction_fns_jsonv(xs@, xs@.len() as int);
    }
    while i < xs.len()
        invariant
            i <= xs@.len(),
            items@.len() == i,
            forall|j: int| 0 <= j < i ==> #[trigger] items@[j]@ == extraction_fn_jsonv(xs@[j]),
        decreases xs@.len() - i,
    {
        items.push(xs[i].to_json());
        i = i + 1;
    }
    let r = jarr(items);
    proof {
        assert(r@ matches JsonV::Arr(s) && s =~= extraction_fns_jsonv(xs@, xs@.len() as int));
    }
    r
}

/// The JSON wire form of an extraction function.
pub open spec fn extraction_fn_jsonv(e: ExtractionFunction) -> JsonV
    decreases e, 2int,
{
    match e {
        ExtractionFunction::Regex {
            expr,
            index,
            replace_missing_value,
            replace_missing_value_with,
        } => {
            let es = Seq::empty().push(("type"@, JsonV::Str("regex"@))).push(
                ("expr"@, JsonV::Str(expr@)),
            );
            let es = opt_u64_entry(es, "index"@, usize_opt(index));
            let es = opt_bool_entry(es, "replaceMissingValue"@, replace_missing_value);
            let es = opt_entry(
                es,
                "replaceMissingValueWith"@,
                native_opt(replace_missing_value_with),
            );
            JsonV::Obj(es)
        },
        ExtractionFunction::Partial { expr } => JsonV::Obj(
            Seq::empty().push(("type"@, JsonV::Str("partial"@))).push(
                ("expr"@, JsonV::Str(expr@)),
            ),
        ),
        ExtractionFunction::SearchQuery { query } => JsonV::Obj(
            Seq::empty().push(("type"@, JsonV::Str("searchQuery"@))).push(
                ("query"@, search_query_spec_jsonv(query)),
            ),
        ),
        ExtractionFunction::Substring { index, length } => {
            let es = Seq::empty().push(("type"@, JsonV::Str("substring"@))).push(
                ("index"@, unum_jsonv(index as u64)),
            );
            let es = opt_u64_entry(es, "length"@, usize_opt(length));
            JsonV::Obj(es)
        },
        ExtractionFunction::Strlen => JsonV::Obj(
            Seq::empty().push(("type"@, JsonV::Str("strlen"@))),
        ),
        ExtractionFunction::TimeFormat { format, time_zone, locale, granularity, as_millis } => {
            let es = Seq::empty().push(("type"@, JsonV::Str("timeFormat"@)));
            let es = opt_str_entry(es, "format"@, format.deep_view());
            let es = opt_str_entry(es, "timeZone"@, time_zone.deep_view());
            let es = opt_str_entry(es, "locale"@, locale.deep_view());
            let es = opt_entry(
                es,
                "granularity"@,
                match granularity {
                    Some(g) => Some(granularity_jsonv(g)),
                    None => None,
                },
            );
            let es = opt_bool_entry(es, "asMillis"@, as_millis);
            JsonV::Obj(es)
        },
        ExtractionFunction::Time { time_format, result_format, joda } => JsonV::Obj(
            Seq::empty().push(("type"@, JsonV::Str("time"@))).push(
                ("timeFormat"@, JsonV::Str(time_format@)),
            ).push(("resultFormat"@, JsonV::Str(result_format@))).push(
                ("joda"@, JsonV::Bool(joda)),
            ),
        ),
        ExtractionFunction::Javascript { function, injective } => {
            let es = Seq::empty().push(("type"@, JsonV::Str("javascript"@))).push(
                ("function"@, JsonV::Str(function@)),
            );
            let es = opt_bool_entry(es, "injective"@, injective);
            JsonV::Obj(es)
        },
        ExtractionFunction::RegisteredLookup {
            lookup,
            retain_missing_value,
            replace_missing_value_with,
            injective,
            optimize,
        } => {
            let es = Seq::empty().push(("type"@, JsonV::Str("registeredLookup"@))).push(
                ("lookup"@, JsonV::Str(lookup@)),
            );
            let es = opt_bool_entry(es, "retainMissingValue"@, retain_missing_value);
            let es = opt_entry(
                es,
                "replaceMissingValueWith"@,
                native_opt(replace_missing_value_with),
            );
            let es = opt_bool_entry(es, "injective"@, injective);
            let es = opt_bool_entry(es, "optimize"@, optimize);
            JsonV::Obj(es)
        },
        ExtractionFunction::Lookup {
            lookup,
            retain_missing_value,
            replace_missing_value_with,
            injective,
            optimize,
        } => {
            let es = Seq::empty().push(("type"@, JsonV::Str("lookup"@))).push(
                ("lookup"@, lookup_jsonv(lookup)),
            );
            let es = opt_bool_entry(es, "retainMissingValue"@, retain_missing_value);
            let es = opt_entry(
                es,
                "replaceMissingValueWith"@,
                native_opt(replace_missing_value_with),
            );
            let es = opt_bool_entry(es, "injective"@, injective);
            let es = opt_bool_entry(es, "optimize"@, optimize);
            JsonV::Obj(es)
        },
        ExtractionFunction::Cascade { extraction_fns } => JsonV::Obj(
            Seq::empty().push(("type"@, JsonV::Str("cascade"@))).push(
                (
                    "extractionFns"@,
                    JsonV::Arr(
                        extraction_fns_jsonv(
                            extraction_fns@,
                            extraction_fns@.len() as int,
                        ),
                    ),
                ),
            ),
        ),
        ExtractionFunction::StringFormat { format, null_handling } => {
            let es = Seq::empty().push(("type"@, JsonV::Str("stringFormat"@))).push(
                ("format"@, JsonV::Str(format@)),
            );
            let es = opt_str_entry(es, "nullHandling"@, null_handling.deep_view());
            JsonV::Obj(es)
        },
        ExtractionFunction::Upper { locale } => JsonV::Obj(
            opt_str_entry(
                Seq::empty().push(("type"@, JsonV::Str("upper"@))),
                "locale"@,
                locale.deep_view(),
            ),
        ),
        ExtractionFunction::Lower { locale } => JsonV::Obj(
            opt_str_entry(
                Seq::empty().push(("type"@, JsonV::Str("lower"@))),
                "locale"@,
                locale.deep_view(),
            ),
        ),
        ExtractionFunction::Bucket { size, offset } => {
            let es = Seq::empty().push(("type"@, JsonV::Str("bucket"@)));
            let es = opt_u64_entry(es, "size"@, usize_opt(size));
            let es = opt_u64_entry(es, "offset"@, usize_opt(offset));
            JsonV::Obj(es)
        },
    }
}

/// An optional size as an optional unsigned number.
pub open spec fn usize_opt(o: Option<usize>) -> Option<u64> {
    match o {
        Some(n) => Some(n as u64),
        None => None,
    }
}

/// An optional scalar as an optional JSON value.
pub open spec fn native_opt(o: Option<DruidNativeType>) -> Option<JsonV> {
    match o {
        Some(v) => Some(native_jsonv(v)),
        None => None,
    }
}

/// The JSON wire forms of the first `n` transforms of a list.
pub open spec fn extraction_fns_jsonv(s: Seq<ExtractionFunction>, n: int) -> Seq<JsonV>
    decreases s, 1int, n,
{
    if n <= 0 || n > s.len() {
        Seq::empty()
    } else {
        extraction_fns_jsonv(s, n - 1).push(extraction_fn_jsonv(s[n - 1]))
    }
}

/// [`extraction_fns_jsonv`] is the element-wise wire form of the list.
pub proof fn lemma_extraction_fns_jsonv(s: Seq<ExtractionFunction>, n: int)
    requires
        0 <= n <= s.len(),
    ensures
        extraction_fns_jsonv(s, n).len() == n,
        forall|i: int| 0 <= i < n ==> #[trigger] extraction_fns_jsonv(s, n)[i]
            == extraction_fn_jsonv(s[i]),
    decreases n,
{
    if n > 0 {
        lemma_extraction_fns_jsonv(s, n - 1);
    }
}

} // verus!
