//! Time granularities: named buckets, fixed durations and calendar
//! periods.

use vstd::prelude::*;

verus! {

use crate::json::JsonV;
use crate::json::JsonValue;
use crate::json::ObjBuilder;
use crate::json::junum;
use crate::json::jstr;
use crate::json::jstring;
use crate::json::lemma_obj_view;
use crate::json::obj_get;
use crate::json::obj_lookup;
use crate::json::obj_view;
use crate::json::opt_str_entry;
use crate::json::unum_jsonv;
use crate::text::lower_chars;
use crate::text::str_eq;
use crate::text::to_lower;

/// A time-bucketing granularity: a simple named bucket, a fixed duration
/// in milliseconds, or a calendar period.
#[derive(Debug, Clone, PartialEq, Eq)]
pub enum Granularity {
    Simple(String),
    Duration { duration: u64, origin: Option<String> },
    Period { period: String, origin: Option<String>, time_zone: Option<String> },
}

/// Error for a bare granularity string outside the fixed set of simple
/// names. Carries the offending string.
#[derive(Debug, Clone)]
pub struct InvalidGranularity(pub String);

/// Whether a lower-cased name is one of the simple granularities.
pub open spec fn simple_granularity_name(s: Seq<char>) -> bool {
    ||| s == "none"@
    ||| s == "all"@
    ||| s == "second"@
    ||| s == "minute"@
    ||| s == "fifteen_minute"@
    ||| s == "thirty_minute"@
    ||| s == "hour"@
    ||| s == "day"@
    ||| s == "week"@
    ||| s == "month"@
    ||| s == "quarter"@
    ||| s == "year"@
}

impl Granularity {
    /// A simple granularity, not re-validated when built directly.
    pub fn simple(granularity: String) -> (r: Self)
        ensures
            r == Granularity::Simple(granularity),
    {
        Self::Simple(granularity)
    }

    /// A duration granularity without an origin.
    pub fn duration(duration: u64) -> (r: Self)
        ensures
            r == (Granularity::Duration { duration, origin: None }),
    {
        Self::Duration { duration, origin: None }
    }

    /// A duration granularity anchored at an origin timestamp.
    pub fn duration_with_origin(duration: u64, origin: String) -> (r: Self)
        ensures
            r == (Granularity::Duration { duration, origin: Some(origin) }),
    {
        Self::Duration { duration, origin: Some(origin) }
    }

    /// A period granularity without origin or time zone.
    pub fn period(period: String) -> (r: Self)
        ensures
            r == (Granularity::Period { period, origin: None, time_zone: None }),
    {
        Self::Period { period, origin: None, time_zone: None }
    }

    /// A period granularity with optional origin and time zone.
    pub fn period_with_origin_tz(
        period: String,
        origin: Option<String>,
        time_zone: Option<String>,
    ) -> (r: Self)
        ensures
            r == (Granularity::Period { period, origin, time_zone }),
    {
        Self::Period { period, origin, time_zone }
    }

    /// Read a simple granularity from a bare string, case-insensitively
    /// against the fixed set of names; the string itself is kept as
    /// given. A name outside the set is rejected with the string in the
    /// error.
    pub fn parse(s: &str) -> (r: Result<Self, InvalidGranularity>)
        ensures
            match r {
                Ok(g) => simple_granularity_name(lower_chars(s@)) && (g matches
                    Granularity::Simple(t) && t@ == s@),
                Err(e) => !simple_granularity_name(lower_chars(s@)) && e.0@ == s@,
            },
    {
        let lower = to_lower(s);
        let l = lower.as_str();
        if str_eq(l, "none") || str_eq(l, "all") || str_eq(l, "second") || str_eq(l, "minute")
            || str_eq(l, "fifteen_minute") || str_eq(l, "thirty_minute") || str_eq(l, "hour")
            || str_eq(l, "day") || str_eq(l, "week") || str_eq(l, "month") || str_eq(
            l,
            "quarter",
        ) || str_eq(l, "year") {
            Ok(Self::Simple(String::from_str(s)))
        } else {
            Err(InvalidGranularity(String::from_str(s)))
        }
    }

    /// This granularity's JSON wire form: a bare string for the simple
    /// kind, a tagged object for the other two.
    pub fn to_json(&self) -> (r: JsonValue)
        ensures
            r@ == granularity_jsonv(*self),
    {
        match self {
            Self::Simple(name) => jstring(name.clone()),
            Self::Duration { duration, origin } => {
                let mut b = ObjBuilder::new();
                b.field("type", jstr("duration"));
                b.field("duration", junum(*duration));
                b.field_opt_string("origin", origin);
                b.finish()
            },
            Self::Period { period, origin, time_zone } => {
                let mut b = ObjBuilder::new();
                b.field("type", jstr("period"));
                b.field("period", jstring(period.clone()));
                b.field_opt_string("origin", origin);
                b.field_opt_string("timeZone", time_zone);
                b.finish()
            },
        }
    }
}

impl core::str::FromStr for Granularity {
    type Err = InvalidGranularity;

    /// See [`Granularity::parse`].
    fn from_str(s: &str) -> Result<Granularity, InvalidGranularity> {
        Granularity::parse(s)
    }
}

/// The JSON wire form of a granularity.
pub open spec fn granularity_jsonv(g: Granularity) -> JsonV {
    match g {
        Granularity::Simple(name) => JsonV::Str(name@),
        Granularity::Duration { duration, origin } => JsonV::Obj(
            opt_str_entry(
                Seq::empty().push(("type"@, JsonV::Str("duration"@))).push(
                    ("duration"@, unum_jsonv(duration)),
                ),
                "origin"@,
                origin.deep_view(),
            ),
        ),
        Granularity::Period { period, origin, time_zone } => JsonV::Obj(
            opt_str_entry(
                opt_str_entry(
                    Seq::empty().push(("type"@, JsonV::Str("period"@))).push(
                        ("period"@, JsonV::Str(period@)),
                    ),
                    "origin"@,
                    origin.deep_view(),
                ),
                "timeZone"@,
                time_zone.deep_view(),
            ),
        ),
    }
}

/// Whether a JSON value has a shape a granularity can be read from: a
/// bare string, or an object tagged `duration` or `period` with its
/// fields of the right shapes (optional ones may be missing).
pub open spec fn granularity_decodable(v: JsonV) -> bool {
    match v {
        JsonV::Str(_) => true,
        JsonV::Obj(es) => {
            if obj_get(es, "type"@) == Some(JsonV::Str("duration"@)) {
                &&& (match obj_get(es, "duration"@) {
                    Some(d) => d is Int && d->Int_0 >= 0,
                    None => false,
                })
                &&& opt_str_field_ok(es, "origin"@)
            } else if obj_get(es, "type"@) == Some(JsonV::Str("period"@)) {
                &&& obj_get(es, "period"@) matches Some(p) && p is Str
                &&& opt_str_field_ok(es, "origin"@)
                &&& opt_str_field_ok(es, "timeZone"@)
            } else {
                false
            }
        },
        _ => false,
    }
}

impl Granularity {
    /// Decode a granularity from its JSON wire form: a bare string, or a
    /// tagged `duration` or `period` object.
    pub fn from_json(v: &JsonValue) -> (r: Option<Granularity>)
        ensures
            match r {
                Some(g) => granularity_decodable(v@) && granularity_matches(g, v@),
                None => !granularity_decodable(v@),
            },
    {
        match v {
            JsonValue::Str(s) => Some(Granularity::Simple(s.clone())),
            JsonValue::Obj(entries) => {
                proof {
                    assert(*v == JsonValue::Obj(*entries));
                    lemma_obj_view(entries@, entries@.len() as int);
                }
                let t = match obj_lookup(entries, "type") {
                    Some(JsonValue::Str(s)) => s,
                    _ => {
                        return None;
                    },
                };
                if str_eq(t.as_str(), "duration") {
                    let d = match obj_lookup(entries, "duration") {
                        Some(JsonValue::Int(i)) => {
                            if *i >= 0 {
                                *i as u64
                            } else {
                                return None;
                            }
                        },
                        _ => {
                            return None;
                        },
                    };
                    let origin = match lookup_plain_str_field(entries, "origin") {
                        Ok(o) => o,
                        Err(_) => {
                            return None;
                        },
                    };
                    Some(Granularity::Duration { duration: d, origin })
                } else if str_eq(t.as_str(), "period") {
                    let period = match obj_lookup(entries, "period") {
                        Some(JsonValue::Str(s)) => s.clone(),
                        _ => {
                            return None;
                        },
                    };
                    let origin = match lookup_plain_str_field(entries, "origin") {
                        Ok(o) => o,
                        Err(_) => {
                            return None;
                        },
                    };
                    let time_zone = match lookup_plain_str_field(entries, "timeZone") {
                        Ok(o) => o,
                        Err(_) => {
                            return None;
                        },
                    };
                    Some(Granularity::Period { period, origin, time_zone })
                } else {
                    None
                }
            },
            _ => None,
        }
    }
}

/// Read an optional string field that must be a string when present.
fn lookup_plain_str_field(entries: &Vec<(String, JsonValue)>, key: &str) -> (r: Result<
    Option<String>,
    (),
>)
    ensures
        ({
            let es = obj_view(entries@, entries@.len() as int);
            match r {
                Ok(o) => opt_str_field_ok(es, key@) && opt_str_field_matches(o, es, key@),
                Err(_) => !opt_str_field_ok(es, key@),
            }
        }),
{
    match obj_lookup(entries, key) {
        None => Ok(None),
        Some(JsonValue::Str(s)) => Ok(Some(s.clone())),
        Some(_) => Err(()),
    }
}

/// Whether a field is absent or holds a string.
pub open spec fn opt_str_field_ok(es: Seq<(Seq<char>, JsonV)>, key: Seq<char>) -> bool {
    match obj_get(es, key) {
        None => true,
        Some(v) => v is Str,
    }
}

/// Whether `o` is the string under `key`, or `None` when the field is
/// absent.
pub open spec fn opt_str_field_matches(
    o: Option<String>,
    es: Seq<(Seq<char>, JsonV)>,
    key: Seq<char>,
) -> bool {
    match obj_get(es, key) {
        None => o is None,
        Some(v) => o matches Some(s) && v matches JsonV::Str(t) && s@ == t,
    }
}

/// Whether `g` is the granularity that the JSON value `v` decodes to.
pub open spec fn granularity_matches(g: Granularity, v: JsonV) -> bool {
    match v {
        JsonV::Str(s) => g matches Granularity::Simple(t) && t@ == s,
        JsonV::Obj(es) => {
            if obj_get(es, "type"@) == Some(JsonV::Str("duration"@)) {
                &&& g is Duration
                &&& obj_get(es, "duration"@) == Some(JsonV::Int(g->Duration_duration as i64))
                &&& opt_str_field_matches(g->Duration_origin, es, "origin"@)
            } else if obj_get(es, "type"@) == Some(JsonV::Str("period"@)) {
                &&& g is Period
                &&& (obj_get(es, "period"@) matches Some(p) && p matches JsonV::Str(t) && g
                    ->Period_period@ == t)
                &&& opt_str_field_matches(g->Period_origin, es, "origin"@)
                &&& opt_str_field_matches(g->Period_time_zone, es, "timeZone"@)
            } else {
                false
            }
        },
        _ => false,
    }
}

} // verus!
