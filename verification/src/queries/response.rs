//! The response model: the typed records each query kind returns, the
//! structured error shape, and the decoders that read them back from
//! JSON values.
//!
//! Timestamps coming back from the server are kept as the ISO-8601 text
//! they arrive as; JSON objects keep their fields in wire order as lists
//! of pairs.

use vstd::prelude::*;

verus! {

use crate::components::druid_types::DruidNativeType;
use crate::components::druid_types::native_decodable;
use crate::components::druid_types::native_from_json;
use crate::components::druid_types::native_matches;
use crate::components::granularities::Granularity;
use crate::components::granularities::granularity_decodable;
use crate::components::granularities::granularity_matches;
use crate::components::intervals::Interval;
use crate::components::intervals::parse_parts;
use crate::components::intervals::starts_with_period;
use crate::json::JsonV;
use crate::json::JsonValue;
use crate::client::Error;
use crate::json::arr_view;
use crate::json::json_of;
use crate::json::parse_json;
use crate::queries::sql::ResultFormat;
use crate::text::lines_exec;
use crate::text::lines_of;
use crate::text::trim_chars;
use crate::text::trim_exec;
use crate::json::lemma_arr_view;
use crate::json::lemma_obj_view;
use crate::json::lookup_nullable_str_field;
use crate::json::lookup_str_field;
use crate::json::nullable_str_field_matches;
use crate::json::nullable_str_field_ok;
use crate::json::obj_get;
use crate::json::obj_lookup;
use crate::json::obj_view;
use crate::json::str_field_matches;
use crate::json::str_field_ok;

/// A decoded response of any kind, or the server's own structured error.
pub enum DruidResponse {
    QueryError { error: String, error_message: String, error_class: String, host: String },
    Timeseries(Vec<TimeseriesResult>),
    TopN(Vec<TopNResult>),
    GroupBy(Vec<GroupByResult>),
    Scan(Vec<ScanResult>),
    Search(Vec<SearchResult>),
    TimeBoundary(Vec<TimeBoundaryResult>),
    SegmentMetadata(Vec<SegmentMetadataResult>),
    DataSourceMetadata(Vec<DataSourceMetadataResult>),
    Sql(Vec<SqlResult>),
}

/// One timeseries bucket.
#[derive(Debug, PartialEq, Eq)]
pub struct TimeseriesResult {
    pub timestamp: Option<String>,
    pub result: Vec<(String, DruidNativeType)>,
}

/// One top-N bucket.
pub struct TopNResult {
    pub timestamp: String,
    pub result: Vec<Vec<(String, DruidNativeType)>>,
}

/// One group-by row.
pub struct GroupByResult {
    pub timestamp: String,
    pub version: String,
    pub event: Vec<(String, DruidNativeType)>,
}

/// One scan segment, in either of the two untagged event encodings.
#[derive(Debug, PartialEq, Eq)]
pub enum ScanResult {
    List {
        segment_id: String,
        columns: Vec<String>,
        events: Vec<Vec<(String, DruidNativeType)>>,
    },
    CompactedList { segment_id: String, columns: Vec<String>, events: Vec<Vec<DruidNativeType>> },
}

/// One search bucket.
pub struct SearchResult {
    pub timestamp: String,
    pub result: Vec<Vec<(String, DruidNativeType)>>,
}

/// One time-boundary record.
pub struct TimeBoundaryResult {
    pub timestamp: String,
    pub result: TimeBoundaryTimes,
}

/// The two boundary timestamps.
pub struct TimeBoundaryTimes {
    pub min_time: Option<String>,
    pub max_time: Option<String>,
}

/// One segment-metadata record.
pub struct SegmentMetadataResult {
    pub id: String,
    pub intervals: Vec<Interval>,
    pub columns: Vec<(String, Vec<(String, DruidNativeType)>)>,
    pub aggregators: Vec<(String, Vec<(String, DruidNativeType)>)>,
    pub query_granularity: Granularity,
    pub size: usize,
    pub num_rows: usize,
}

/// One datasource-metadata record.
pub struct DataSourceMetadataResult {
    pub timestamp: String,
    pub result: DataSourceMetadataTimes,
}

/// The newest ingested event time.
pub struct DataSourceMetadataTimes {
    pub max_ingested_event_time: String,
}

/// One SQL row, in any of the three untagged encodings.
#[derive(Debug, PartialEq, Eq)]
pub enum SqlResult {
    Object(Vec<(String, DruidNativeType)>),
    Array(Vec<DruidNativeType>),
    Csv(String),
}

/// The server's structured error payload.
#[derive(Debug, PartialEq, Eq)]
pub struct QueryError {
    pub error: String,
    pub error_message: String,
    pub error_class: String,
    pub host: String,
}

// ---------------------------------------------------------------------
// Objects of scalars.
// ---------------------------------------------------------------------

/// Whether every value of an object is a decodable scalar.
pub open spec fn scalar_obj_decodable(es: Seq<(Seq<char>, JsonV)>) -> bool {
    forall|i: int| 0 <= i < es.len() ==> native_decodable(#[trigger] es[i].1)
}

/// Whether `m` is the entry-wise decoding of an object of scalars.
pub open spec fn scalar_obj_matches(
    m: Seq<(String, DruidNativeType)>,
    es: Seq<(Seq<char>, JsonV)>,
) -> bool {
    &&& m.len() == es.len()
    &&& forall|i: int| 0 <= i < m.len() ==> (#[trigger] m[i].0)@ == es[i].0
    &&& forall|i: int| 0 <= i < m.len() ==> native_matches(#[trigger] m[i].1, es[i].1)
}

/// Decode an object of scalars, entry by entry.
#[verifier::loop_isolation(false)]
pub fn scalar_obj_from_json(entries: &Vec<(String, JsonValue)>) -> (r: Option<
    Vec<(String, DruidNativeType)>,
>)
    ensures
        ({
            let es = obj_view(entries@, entries@.len() as int);
            match r {
                Some(m) => scalar_obj_decodable(es) && scalar_obj_matches(m@, es),
                None => !scalar_obj_decodable(es),
            }
        }),
{
    let ghost es = obj_view(entries@, entries@.len() as int);
    proof {
        lemma_obj_view(entries@, entries@.len() as int);
    }
    let n = entries.len();
    let mut m: Vec<(String, DruidNativeType)> = Vec::new();
    let mut i: usize = 0;
    while i < n
        invariant
            i <= n,
            m@.len() == i,
            forall|j: int| 0 <= j < i ==> (#[trigger] m@[j].0)@ == es[j].0,
            forall|j: int| 0 <= j < i ==> native_matches(#[trigger] m@[j].1, es[j].1),
            forall|j: int| 0 <= j < i ==> native_decodable(#[trigger] es[j].1),
        decreases n - i,
    {
        match native_from_json(&entries[i].1) {
            Some(d) => {
                m.push((entries[i].0.clone(), d));
            },
            None => {
                proof {
                    assert(!native_decodable(es[i as int].1));
                }
                return None;
            },
        }
        i = i + 1;
    }
    Some(m)
}

// ---------------------------------------------------------------------
// Arrays of scalars, strings, and objects of scalars.
// ---------------------------------------------------------------------

/// Whether every element is a decodable scalar.
pub open spec fn scalars_decodable(vs: Seq<JsonV>) -> bool {
    forall|i: int| 0 <= i < vs.len() ==> native_decodable(#[trigger] vs[i])
}

/// Whether `ds` is the element-wise decoding of an array of scalars.
pub open spec fn scalars_match(ds: Seq<DruidNativeType>, vs: Seq<JsonV>) -> bool {
    &&& ds.len() == vs.len()
    &&& forall|i: int| 0 <= i < ds.len() ==> native_matches(#[trigger] ds[i], vs[i])
}

/// Decode an array of scalars.
#[verifier::loop_isolation(false)]
pub fn scalars_from_json(items: &Vec<JsonValue>) -> (r: Option<Vec<DruidNativeType>>)
    ensures
        ({
            let vs = arr_view(items@, items@.len() as int);
            match r {
                Some(ds) => scalars_decodable(vs) && scalars_match(ds@, vs),
                None => !scalars_decodable(vs),
            }
        }),
{
    let ghost vs = arr_view(items@, items@.len() as int);
    proof {
        lemma_arr_view(items@, items@.len() as int);
    }
    let n = items.len();
    let mut ds: Vec<DruidNativeType> = Vec::new();
    let mut i: usize = 0;
    while i < n
        invariant
            i <= n,
            ds@.len() == i,
            forall|j: int| 0 <= j < i ==> native_matches(#[trigger] ds@[j], vs[j]),
            forall|j: int| 0 <= j < i ==> native_decodable(#[trigger] vs[j]),
        decreases n - i,
    {
        match native_from_json(&items[i]) {
            Some(d) => {
                ds.push(d);
            },
            None => {
                proof {
                    assert(!native_decodable(vs[i as int]));
                }
                return None;
            },
        }
        i = i + 1;
    }
    Some(ds)
}

/// Whether every element is a string.
pub open spec fn strs_decodable(vs: Seq<JsonV>) -> bool {
    forall|i: int| 0 <= i < vs.len() ==> (#[trigger] vs[i]) is Str
}

/// Whether `ss` is the element-wise decoding of an array of strings.
pub open spec fn strs_match(ss: Seq<String>, vs: Seq<JsonV>) -> bool {
    &&& ss.len() == vs.len()
    &&& forall|i: int| 0 <= i < ss.len() ==> (#[trigger] ss[i])@ == vs[i]->Str_0
}

/// Decode an array of strings.
#[verifier::loop_isolation(false)]
pub fn strings_from_json(items: &Vec<JsonValue>) -> (r: Option<Vec<String>>)
    ensures
        ({
            let vs = arr_view(items@, items@.len() as int);
            match r {
                Some(ss) => strs_decodable(vs) && strs_match(ss@, vs),
                None => !strs_decodable(vs),
            }
        }),
{
    let ghost vs = arr_view(items@, items@.len() as int);
    proof {
        lemma_arr_view(items@, items@.len() as int);
    }
    let n = items.len();
    let mut ss: Vec<String> = Vec::new();
    let mut i: usize = 0;
    while i < n
        invariant
            i <= n,
            ss@.len() == i,
            forall|j: int| 0 <= j < i ==> (#[trigger] ss@[j])@ == vs[j]->Str_0,
            forall|j: int| 0 <= j < i ==> (#[trigger] vs[j]) is Str,
        decreases n - i,
    {
        match &items[i] {
            JsonValue::Str(s) => {
                ss.push(s.clone());
            },
            _ => {
                proof {
                    assert(!(vs[i as int] is Str));
                }
                return None;
            },
        }
        i = i + 1;
    }
    Some(ss)
}

/// Whether every element is an object of scalars.
pub open spec fn obj_list_decodable(vs: Seq<JsonV>) -> bool {
    &&& forall|i: int| 0 <= i < vs.len() ==> (#[trigger] vs[i]) is Obj
    &&& forall|i: int| 0 <= i < vs.len() ==> scalar_obj_decodable((#[trigger] vs[i])->Obj_0)
}

/// Whether `ms` is the element-wise decoding of an array of objects of
/// scalars.
pub open spec fn obj_list_matches(
    ms: Seq<Vec<(String, DruidNativeType)>>,
    vs: Seq<JsonV>,
) -> bool {
    &&& ms.len() == vs.len()
    &&& forall|i: int| 0 <= i < ms.len() ==> scalar_obj_matches(
        (#[trigger] ms[i])@,
        vs[i]->Obj_0,
    )
}

/// Decode an array of objects of scalars.
#[verifier::loop_isolation(false)]
pub fn obj_list_from_json(items: &Vec<JsonValue>) -> (r: Option<
    Vec<Vec<(String, DruidNativeType)>>,
>)
    ensures
        ({
            let vs = arr_view(items@, items@.len() as int);
            match r {
                Some(ms) => obj_list_decodable(vs) && obj_list_matches(ms@, vs),
                None => !obj_list_decodable(vs),
            }
        }),
{
    let ghost vs = arr_view(items@, items@.len() as int);
    proof {
        lemma_arr_view(items@, items@.len() as int);
    }
    let n = items.len();
    let mut ms: Vec<Vec<(String, DruidNativeType)>> = Vec::new();
    let mut i: usize = 0;
    while i < n
        invariant
            i <= n,
            ms@.len() == i,
            forall|j: int| 0 <= j < i ==> (#[trigger] vs[j]) is Obj,
            forall|j: int| 0 <= j < i ==> scalar_obj_decodable((#[trigger] vs[j])->Obj_0),
            forall|j: int| 0 <= j < i ==> scalar_obj_matches((#[trigger] ms@[j])@, vs[j]->Obj_0),
        decreases n - i,
    {
        match &items[i] {
            JsonValue::Obj(entries) => {
                proof {
                    assert(items@[i as int] == JsonValue::Obj(*entries));
                }
                match scalar_obj_from_json(entries) {
                    Some(m) => {
                        ms.push(m);
                    },
                    None => {
                        proof {
                            assert(!scalar_obj_decodable(vs[i as int]->Obj_0));
                        }
                        return None;
                    },
                }
            },
            _ => {
                proof {
                    assert(!(vs[i as int] is Obj));
                }
                return None;
            },
        }
        i = i + 1;
    }
    Some(ms)
}

/// Whether every element is an array of scalars.
pub open spec fn scalar_rows_decodable(vs: Seq<JsonV>) -> bool {
    &&& forall|i: int| 0 <= i < vs.len() ==> (#[trigger] vs[i]) is Arr
    &&& forall|i: int| 0 <= i < vs.len() ==> scalars_decodable((#[trigger] vs[i])->Arr_0)
}

/// Whether `rows` is the element-wise decoding of an array of arrays of
/// scalars.
pub open spec fn scalar_rows_match(rows: Seq<Vec<DruidNativeType>>, vs: Seq<JsonV>) -> bool {
    &&& rows.len() == vs.len()
    &&& forall|i: int| 0 <= i < rows.len() ==> scalars_match(
        (#[trigger] rows[i])@,
        vs[i]->Arr_0,
    )
}

/// Decode an array of arrays of scalars.
#[verifier::loop_isolation(false)]
pub fn scalar_rows_from_json(items: &Vec<JsonValue>) -> (r: Option<Vec<Vec<DruidNativeType>>>)
    ensures
        ({
            let vs = arr_view(items@, items@.len() as int);
            match r {
                Some(rows) => scalar_rows_decodable(vs) && scalar_rows_match(rows@, vs),
                None => !scalar_rows_decodable(vs),
            }
        }),
{
    let ghost vs = arr_view(items@, items@.len() as int);
    proof {
        lemma_arr_view(items@, items@.len() as int);
    }
    let n = items.len();
    let mut rows: Vec<Vec<DruidNativeType>> = Vec::new();
    let mut i: usize = 0;
    while i < n
        invariant
            i <= n,
            rows@.len() == i,
            forall|j: int| 0 <= j < i ==> (#[trigger] vs[j]) is Arr,
            forall|j: int| 0 <= j < i ==> scalars_decodable((#[trigger] vs[j])->Arr_0),
            forall|j: int| 0 <= j < i ==> scalars_match((#[trigger] rows@[j])@, vs[j]->Arr_0),
        decreases n - i,
    {
        match &items[i] {
            JsonValue::Arr(inner) => {
                proof {
                    assert(items@[i as int] == JsonValue::Arr(*inner));
                }
                match scalars_from_json(inner) {
                    Some(row) => {
                        rows.push(row);
                    },
                    None => {
                        proof {
                            assert(!scalars_decodable(vs[i as int]->Arr_0));
                        }
                        return None;
                    },
                }
            },
            _ => {
                proof {
                    assert(!(vs[i as int] is Arr));
                }
                return None;
            },
        }
        i = i + 1;
    }
    Some(rows)
}

/// Whether every value of an object is itself an object of scalars.
pub open spec fn nested_obj_decodable(es: Seq<(Seq<char>, JsonV)>) -> bool {
    &&& forall|i: int| 0 <= i < es.len() ==> (#[trigger] es[i].1) is Obj
    &&& forall|i: int| 0 <= i < es.len() ==> scalar_obj_decodable((#[trigger] es[i].1)->Obj_0)
}

/// Whether `ms` is the entry-wise decoding of an object of objects of
/// scalars.
pub open spec fn nested_obj_matches(
    ms: Seq<(String, Vec<(String, DruidNativeType)>)>,
    es: Seq<(Seq<char>, JsonV)>,
) -> bool {
    &&& ms.len() == es.len()
    &&& forall|i: int| 0 <= i < ms.len() ==> (#[trigger] ms[i].0)@ == es[i].0
    &&& forall|i: int| 0 <= i < ms.len() ==> scalar_obj_matches(
        (#[trigger] ms[i].1)@,
        es[i].1->Obj_0,
    )
}

/// Decode an object whose values are objects of scalars.
#[verifier::loop_isolation(false)]
pub fn nested_obj_from_json(entries: &Vec<(String, JsonValue)>) -> (r: Option<
    Vec<(String, Vec<(String, DruidNativeType)>)>,
>)
    ensures
        ({
            let es = obj_view(entries@, entries@.len() as int);
            match r {
                Some(ms) => nested_obj_decodable(es) && nested_obj_matches(ms@, es),
                None => !nested_obj_decodable(es),
            }
        }),
{
    let ghost es = obj_view(entries@, entries@.len() as int);
    proof {
        lemma_obj_view(entries@, entries@.len() as int);
    }
    let n = entries.len();
    let mut ms: Vec<(String, Vec<(String, DruidNativeType)>)> = Vec::new();
    let mut i: usize = 0;
    while i < n
        invariant
            i <= n,
            ms@.len() == i,
            forall|j: int| 0 <= j < i ==> (#[trigger] es[j].1) is Obj,
            forall|j: int| 0 <= j < i ==> scalar_obj_decodable((#[trigger] es[j].1)->Obj_0),
            forall|j: int| 0 <= j < i ==> (#[trigger] ms@[j].0)@ == es[j].0,
            forall|j: int| 0 <= j < i ==> scalar_obj_matches(
                (#[trigger] ms@[j].1)@,
                es[j].1->Obj_0,
            ),
        decreases n - i,
    {
        match &entries[i].1 {
            JsonValue::Obj(inner) => {
                proof {
                    assert(entries@[i as int].1 == JsonValue::Obj(*inner));
                }
                match scalar_obj_from_json(inner) {
                    Some(m) => {
                        ms.push((entries[i].0.clone(), m));
                    },
                    None => {
                        proof {
                            assert(!scalar_obj_decodable(es[i as int].1->Obj_0));
                        }
                        return None;
                    },
                }
            },
            _ => {
                proof {
                    assert(!(es[i as int].1 is Obj));
                }
                return None;
            },
        }
        i = i + 1;
    }
    Some(ms)
}

/// Whether a text has the two-sided shape an interval is read from, with
/// at most one period side.
pub open spec fn interval_text_ok(s: Seq<char>) -> bool {
    parse_parts(s) matches Some(p) && !(starts_with_period(p.0) && starts_with_period(p.1))
}

/// Whether `iv` is the interval read from the text.
pub open spec fn interval_matches_text(iv: Interval, s: Seq<char>) -> bool {
    parse_parts(s) matches Some(p) && iv.start_chars() == p.0 && iv.end_chars() == p.1
}

/// Whether every element is a string an interval can be read from.
pub open spec fn intervals_decodable(vs: Seq<JsonV>) -> bool {
    &&& forall|i: int| 0 <= i < vs.len() ==> (#[trigger] vs[i]) is Str
    &&& forall|i: int| 0 <= i < vs.len() ==> interval_text_ok((#[trigger] vs[i])->Str_0)
}

/// Whether `ivs` is the element-wise reading of an array of interval
/// strings.
pub open spec fn intervals_match(ivs: Seq<Interval>, vs: Seq<JsonV>) -> bool {
    &&& ivs.len() == vs.len()
    &&& forall|i: int| 0 <= i < ivs.len() ==> interval_matches_text(
        #[trigger] ivs[i],
        vs[i]->Str_0,
    )
}

/// Decode an array of interval strings.
#[verifier::loop_isolation(false)]
pub fn intervals_from_json(items: &Vec<JsonValue>) -> (r: Option<Vec<Interval>>)
    ensures
        ({
            let vs = arr_view(items@, items@.len() as int);
            match r {
                Some(ivs) => intervals_decodable(vs) && intervals_match(ivs@, vs),
                None => !intervals_decodable(vs),
            }
        }),
{
    let ghost vs = arr_view(items@, items@.len() as int);
    proof {
        lemma_arr_view(items@, items@.len() as int);
    }
    let n = items.len();
    let mut ivs: Vec<Interval> = Vec::new();
    let mut i: usize = 0;
    while i < n
        invariant
            i <= n,
            ivs@.len() == i,
            forall|j: int| 0 <= j < i ==> (#[trigger] vs[j]) is Str,
            forall|j: int| 0 <= j < i ==> interval_text_ok((#[trigger] vs[j])->Str_0),
            forall|j: int| 0 <= j < i ==> interval_matches_text(
                #[trigger] ivs@[j],
                vs[j]->Str_0,
            ),
        decreases n - i,
    {
        match &items[i] {
            JsonValue::Str(s) => {
                match Interval::parse(s.as_str()) {
                    Ok(iv) => {
                        ivs.push(iv);
                    },
                    Err(_) => {
                        proof {
                            assert(!interval_text_ok(vs[i as int]->Str_0));
                        }
                        return None;
                    },
                }
            },
            _ => {
                proof {
                    assert(!(vs[i as int] is Str));
                }
                return None;
            },
        }
        i = i + 1;
    }
    Some(ivs)
}


// ---------------------------------------------------------------------
// Record decoders.
// ---------------------------------------------------------------------

/// Whether a JSON value has the timeseries record shape.
pub open spec fn ts_result_decodable(v: JsonV) -> bool {
    v matches JsonV::Obj(es) && ({
        &&& nullable_str_field_ok(es, "timestamp"@)
        &&& (obj_get(es, "result"@) matches Some(rv) && rv is Obj && scalar_obj_decodable(
            rv->Obj_0,
        ))
    })
}

/// Whether `rec` is the timeseries record read from the JSON value.
pub open spec fn ts_result_matches(rec: TimeseriesResult, v: JsonV) -> bool {
    v matches JsonV::Obj(es) && ({
        &&& nullable_str_field_matches(rec.timestamp, es, "timestamp"@)
        &&& (obj_get(es, "result"@) matches Some(rv) && rv is Obj && scalar_obj_matches(
            rec.result@,
            rv->Obj_0,
        ))
    })
}

/// Decode one timeseries record.
pub fn ts_result_from_json(v: &JsonValue) -> (r: Option<TimeseriesResult>)
    ensures
        match r {
            Some(rec) => ts_result_decodable(v@) && ts_result_matches(rec, v@),
            None => !ts_result_decodable(v@),
        },
{
    match v {
        JsonValue::Obj(entries) => {
            proof {
                assert(*v == JsonValue::Obj(*entries));
                lemma_obj_view(entries@, entries@.len() as int);
            }
            let timestamp = match lookup_nullable_str_field(entries, "timestamp") {
                Ok(o) => o,
                Err(_) => {
                    return None;
                },
            };
            let result = match obj_lookup(entries, "result") {
                Some(JsonValue::Obj(inner)) => {
                    match scalar_obj_from_json(inner) {
                        Some(m) => m,
                        None => {
                            return None;
                        },
                    }
                },
                _ => {
                    return None;
                },
            };
            Some(TimeseriesResult { timestamp, result })
        },
        _ => None,
    }
}

/// Whether a JSON value has the top-N record shape.
pub open spec fn topn_result_decodable(v: JsonV) -> bool {
    v matches JsonV::Obj(es) && ({
        &&& str_field_ok(es, "timestamp"@)
        &&& (obj_get(es, "result"@) matches Some(rv) && rv is Arr && obj_list_decodable(
            rv->Arr_0,
        ))
    })
}

/// Whether `rec` is the top-N record read from the JSON value.
pub open spec fn topn_result_matches(rec: TopNResult, v: JsonV) -> bool {
    v matches JsonV::Obj(es) && ({
        &&& str_field_matches(rec.timestamp, es, "timestamp"@)
        &&& (obj_get(es, "result"@) matches Some(rv) && rv is Arr && obj_list_matches(
            rec.result@,
            rv->Arr_0,
        ))
    })
}

/// Decode one top-N record.
pub fn topn_result_from_json(v: &JsonValue) -> (r: Option<TopNResult>)
    ensures
        match r {
            Some(rec) => topn_result_decodable(v@) && topn_result_matches(rec, v@),
            None => !topn_result_decodable(v@),
        },
{
    match v {
        JsonValue::Obj(entries) => {
            proof {
                assert(*v == JsonValue::Obj(*entries));
                lemma_obj_view(entries@, entries@.len() as int);
            }
            let timestamp = match lookup_str_field(entries, "timestamp") {
                Ok(s) => s,
                Err(_) => {
                    return None;
                },
            };
            let result = match obj_lookup(entries, "result") {
                Some(JsonValue::Arr(items)) => {
                    match obj_list_from_json(items) {
                        Some(ms) => ms,
                        None => {
                            return None;
                        },
                    }
                },
                _ => {
                    return None;
                },
            };
            Some(TopNResult { timestamp, result })
        },
        _ => None,
    }
}

/// Whether a JSON value has the group-by record shape.
pub open spec fn groupby_result_decodable(v: JsonV) -> bool {
    v matches JsonV::Obj(es) && ({
        &&& str_field_ok(es, "timestamp"@)
        &&& str_field_ok(es, "version"@)
        &&& (obj_get(es, "event"@) matches Some(rv) && rv is Obj && scalar_obj_decodable(
            rv->Obj_0,
        ))
    })
}

/// Whether `rec` is the group-by record read from the JSON value.
pub open spec fn groupby_result_matches(rec: GroupByResult, v: JsonV) -> bool {
    v matches JsonV::Obj(es) && ({
        &&& str_field_matches(rec.timestamp, es, "timestamp"@)
        &&& str_field_matches(rec.version, es, "version"@)
        &&& (obj_get(es, "event"@) matches Some(rv) && rv is Obj && scalar_obj_matches(
            rec.event@,
            rv->Obj_0,
        ))
    })
}

/// Decode one group-by record.
pub fn groupby_result_from_json(v: &JsonValue) -> (r: Option<GroupByResult>)
    ensures
        match r {
            Some(rec) => groupby_result_decodable(v@) && groupby_result_matches(rec, v@),
            None => !groupby_result_decodable(v@),
        },
{
    match v {
        JsonValue::Obj(entries) => {
            proof {
                assert(*v == JsonValue::Obj(*entries));
                lemma_obj_view(entries@, entries@.len() as int);
            }
            let timestamp = match lookup_str_field(entries, "timestamp") {
                Ok(s) => s,
                Err(_) => {
                    return None;
                },
            };
            let version = match lookup_str_field(entries, "version") {
                Ok(s) => s,
                Err(_) => {
                    return None;
                },
            };
            let event = match obj_lookup(entries, "event") {
                Some(JsonValue::Obj(inner)) => {
                    match scalar_obj_from_json(inner) {
                        Some(m) => m,
                        None => {
                            return None;
                        },
                    }
                },
                _ => {
                    return None;
                },
            };
            Some(GroupByResult { timestamp, version, event })
        },
        _ => None,
    }
}

/// Whether a JSON value has the search record shape.
pub open spec fn search_result_decodable(v: JsonV) -> bool {
    v matches JsonV::Obj(es) && ({
        &&& str_field_ok(es, "timestamp"@)
        &&& (obj_get(es, "result"@) matches Some(rv) && rv is Arr && obj_list_decodable(
            rv->Arr_0,
        ))
    })
}

/// Whether `rec` is the search record read from the JSON value.
pub open spec fn search_result_matches(rec: SearchResult, v: JsonV) -> bool {
    v matches JsonV::Obj(es) && ({
        &&& str_field_matches(rec.timestamp, es, "timestamp"@)
        &&& (obj_get(es, "result"@) matches Some(rv) && rv is Arr && obj_list_matches(
            rec.result@,
            rv->Arr_0,
        ))
    })
}

/// Decode one search record.
pub fn search_result_from_json(v: &JsonValue) -> (r: Option<SearchResult>)
    ensures
        match r {
            Some(rec) => search_result_decodable(v@) && search_result_matches(rec, v@),
            None => !search_result_decodable(v@),
        },
{
    match v {
        JsonValue::Obj(entries) => {
            proof {
                assert(*v == JsonValue::Obj(*entries));
                lemma_obj_view(entries@, entries@.len() as int);
            }
            let timestamp = match lookup_str_field(entries, "timestamp") {
                Ok(s) => s,
                Err(_) => {
                    return None;
                },
            };
            let result = match obj_lookup(entries, "result") {
                Some(JsonValue::Arr(items)) => {
                    match obj_list_from_json(items) {
                        Some(ms) => ms,
                        None => {
                            return None;
                        },
                    }
                },
                _ => {
                    return None;
                },
            };
            Some(SearchResult { timestamp, result })
        },
        _ => None,
    }
}

/// Whether a JSON value has the list-encoded scan record shape.
pub open spec fn scan_list_decodable(v: JsonV) -> bool {
    v matches JsonV::Obj(es) && ({
        &&& str_field_ok(es, "segmentId"@)
        &&& (obj_get(es, "columns"@) matches Some(cv) && cv is Arr && strs_decodable(
            cv->Arr_0,
        ))
        &&& (obj_get(es, "events"@) matches Some(ev) && ev is Arr && obj_list_decodable(
            ev->Arr_0,
        ))
    })
}

/// Whether `rec` is the list-encoded scan record read from the value.
pub open spec fn scan_list_matches(rec: ScanResult, v: JsonV) -> bool {
    rec matches ScanResult::List { segment_id, columns, events } && (v matches JsonV::Obj(es)
        && ({
        &&& str_field_matches(segment_id, es, "segmentId"@)
        &&& (obj_get(es, "columns"@) matches Some(cv) && cv is Arr && strs_match(
            columns@,
            cv->Arr_0,
        ))
        &&& (obj_get(es, "events"@) matches Some(ev) && ev is Arr && obj_list_matches(
            events@,
            ev->Arr_0,
        ))
    }))
}

/// Whether a JSON value has the compacted-list scan record shape.
pub open spec fn scan_compacted_decodable(v: JsonV) -> bool {
    v matches JsonV::Obj(es) && ({
        &&& str_field_ok(es, "segmentId"@)
        &&& (obj_get(es, "columns"@) matches Some(cv) && cv is Arr && strs_decodable(
            cv->Arr_0,
        ))
        &&& (obj_get(es, "events"@) matches Some(ev) && ev is Arr && scalar_rows_decodable(
            ev->Arr_0,
        ))
    })
}

/// Whether `rec` is the compacted-list scan record read from the value.
pub open spec fn scan_compacted_matches(rec: ScanResult, v: JsonV) -> bool {
    rec matches ScanResult::CompactedList { segment_id, columns, events } && (v matches
        JsonV::Obj(es) && ({
        &&& str_field_matches(segment_id, es, "segmentId"@)
        &&& (obj_get(es, "columns"@) matches Some(cv) && cv is Arr && strs_match(
            columns@,
            cv->Arr_0,
        ))
        &&& (obj_get(es, "events"@) matches Some(ev) && ev is Arr && scalar_rows_match(
            events@,
            ev->Arr_0,
        ))
    }))
}

/// Whether a JSON value decodes as a scan record in either encoding.
pub open spec fn scan_result_decodable(v: JsonV) -> bool {
    scan_list_decodable(v) || scan_compacted_decodable(v)
}

/// Whether `rec` is the scan record read from the value: the list
/// encoding is tried first, the compacted encoding only when the list
/// one does not fit.
pub open spec fn scan_result_matches(rec: ScanResult, v: JsonV) -> bool {
    if scan_list_decodable(v) {
        scan_list_matches(rec, v)
    } else {
        scan_compacted_matches(rec, v)
    }
}

/// Decode one scan record, trying the list encoding before the
/// compacted-list encoding.
pub fn scan_result_from_json(v: &JsonValue) -> (r: Option<ScanResult>)
    ensures
        match r {
            Some(rec) => scan_result_decodable(v@) && scan_result_matches(rec, v@),
            None => !scan_result_decodable(v@),
        },
{
    match v {
        JsonValue::Obj(entries) => {
            proof {
                assert(*v == JsonValue::Obj(*entries));
                lemma_obj_view(entries@, entries@.len() as int);
            }
            let segment_id = match lookup_str_field(entries, "segmentId") {
                Ok(s) => s,
                Err(_) => {
                    return None;
                },
            };
            let columns = match obj_lookup(entries, "columns") {
                Some(JsonValue::Arr(items)) => {
                    match strings_from_json(items) {
                        Some(ss) => ss,
                        None => {
                            return None;
                        },
                    }
                },
                _ => {
                    return None;
                },
            };
            match obj_lookup(entries, "events") {
                Some(JsonValue::Arr(items)) => {
                    match obj_list_from_json(items) {
                        Some(events) => Some(
                            ScanResult::List { segment_id, columns, events },
                        ),
                        None => {
                            match scalar_rows_from_json(items) {
                                Some(events) => Some(
                                    ScanResult::CompactedList { segment_id, columns, events },
                                ),
                                None => None,
                            }
                        },
                    }
                },
                _ => None,
            }
        },
        _ => None,
    }
}

/// Whether a JSON value has the time-boundary record shape.
pub open spec fn time_boundary_result_decodable(v: JsonV) -> bool {
    v matches JsonV::Obj(es) && ({
        &&& str_field_ok(es, "timestamp"@)
        &&& (obj_get(es, "result"@) matches Some(rv) && rv matches JsonV::Obj(res) && ({
            &&& nullable_str_field_ok(res, "minTime"@)
            &&& nullable_str_field_ok(res, "maxTime"@)
        }))
    })
}

/// Whether `rec` is the time-boundary record read from the value.
pub open spec fn time_boundary_result_matches(rec: TimeBoundaryResult, v: JsonV) -> bool {
    v matches JsonV::Obj(es) && ({
        &&& str_field_matches(rec.timestamp, es, "timestamp"@)
        &&& (obj_get(es, "result"@) matches Some(rv) && rv matches JsonV::Obj(res) && ({
            &&& nullable_str_field_matches(rec.result.min_time, res, "minTime"@)
            &&& nullable_str_field_matches(rec.result.max_time, res, "maxTime"@)
        }))
    })
}

/// Decode one time-boundary record.
pub fn time_boundary_result_from_json(v: &JsonValue) -> (r: Option<TimeBoundaryResult>)
    ensures
        match r {
            Some(rec) => time_boundary_result_decodable(v@) && time_boundary_result_matches(
                rec,
                v@,
            ),
            None => !time_boundary_result_decodable(v@),
        },
{
    match v {
        JsonValue::Obj(entries) => {
            proof {
                assert(*v == JsonValue::Obj(*entries));
                lemma_obj_view(entries@, entries@.len() as int);
            }
            let timestamp = match lookup_str_field(entries, "timestamp") {
                Ok(s) => s,
                Err(_) => {
                    return None;
                },
            };
            match obj_lookup(entries, "result") {
                Some(JsonValue::Obj(inner)) => {
                    proof {
                        lemma_obj_view(inner@, inner@.len() as int);
                    }
                    let min_time = match lookup_nullable_str_field(inner, "minTime") {
                        Ok(o) => o,
                        Err(_) => {
                            return None;
                        },
                    };
                    let max_time = match lookup_nullable_str_field(inner, "maxTime") {
                        Ok(o) => o,
                        Err(_) => {
                            return None;
                        },
                    };
                    Some(
                        TimeBoundaryResult {
                            timestamp,
                            result: TimeBoundaryTimes { min_time, max_time },
                        },
                    )
                },
                _ => None,
            }
        },
        _ => None,
    }
}

/// Whether a JSON value has the datasource-metadata record shape.
pub open spec fn dsm_result_decodable(v: JsonV) -> bool {
    v matches JsonV::Obj(es) && ({
        &&& str_field_ok(es, "timestamp"@)
        &&& (obj_get(es, "result"@) matches Some(rv) && rv matches JsonV::Obj(res)
            && str_field_ok(res, "maxIngestedEventTime"@))
    })
}

/// Whether `rec` is the datasource-metadata record read from the value.
pub open spec fn dsm_result_matches(rec: DataSourceMetadataResult, v: JsonV) -> bool {
    v matches JsonV::Obj(es) && ({
        &&& str_field_matches(rec.timestamp, es, "timestamp"@)
        &&& (obj_get(es, "result"@) matches Some(rv) && rv matches JsonV::Obj(res)
            && str_field_matches(rec.result.max_ingested_event_time, res,
            "maxIngestedEventTime"@))
    })
}

/// Decode one datasource-metadata record.
pub fn dsm_result_from_json(v: &JsonValue) -> (r: Option<DataSourceMetadataResult>)
    ensures
        match r {
            Some(rec) => dsm_result_decodable(v@) && dsm_result_matches(rec, v@),
            None => !dsm_result_decodable(v@),
        },
{
    match v {
        JsonValue::Obj(entries) => {
            proof {
                assert(*v == JsonValue::Obj(*entries));
                lemma_obj_view(entries@, entries@.len() as int);
            }
            let timestamp = match lookup_str_field(entries, "timestamp") {
                Ok(s) => s,
                Err(_) => {
                    return None;
                },
            };
            match obj_lookup(entries, "result") {
                Some(JsonValue::Obj(inner)) => {
                    proof {
                        lemma_obj_view(inner@, inner@.len() as int);
                    }
                    let met = match lookup_str_field(inner, "maxIngestedEventTime") {
                        Ok(s) => s,
                        Err(_) => {
                            return None;
                        },
                    };
                    Some(
                        DataSourceMetadataResult {
                            timestamp,
                            result: DataSourceMetadataTimes { max_ingested_event_time: met },
                        },
                    )
                },
                _ => None,
            }
        },
        _ => None,
    }
}

/// Whether a field holds a non-negative integer that fits a size.
pub open spec fn size_field_ok(es: Seq<(Seq<char>, JsonV)>, key: Seq<char>) -> bool {
    obj_get(es, key) matches Some(v) && v matches JsonV::Int(i) && 0 <= i <= usize::MAX
}

/// Whether `n` is the size read from the field.
pub open spec fn size_field_matches(
    n: usize,
    es: Seq<(Seq<char>, JsonV)>,
    key: Seq<char>,
) -> bool {
    obj_get(es, key) == Some(JsonV::Int(n as i64))
}

/// Whether a JSON value has the segment-metadata record shape.
pub open spec fn segment_result_decodable(v: JsonV) -> bool {
    v matches JsonV::Obj(es) && ({
        &&& str_field_ok(es, "id"@)
        &&& (obj_get(es, "intervals"@) matches Some(iv) && iv is Arr && intervals_decodable(
            iv->Arr_0,
        ))
        &&& (obj_get(es, "columns"@) matches Some(cv) && cv is Obj && nested_obj_decodable(
            cv->Obj_0,
        ))
        &&& (obj_get(es, "aggregators"@) matches Some(av) && av is Obj
            && nested_obj_decodable(av->Obj_0))
        &&& (obj_get(es, "queryGranularity"@) matches Some(gv) && granularity_decodable(gv))
        &&& size_field_ok(es, "size"@)
        &&& size_field_ok(es, "numRows"@)
    })
}

/// Whether `rec` is the segment-metadata record read from the value.
pub open spec fn segment_result_matches(rec: SegmentMetadataResult, v: JsonV) -> bool {
    v matches JsonV::Obj(es) && ({
        &&& str_field_matches(rec.id, es, "id"@)
        &&& (obj_get(es, "intervals"@) matches Some(iv) && iv is Arr && intervals_match(
            rec.intervals@,
            iv->Arr_0,
        ))
        &&& (obj_get(es, "columns"@) matches Some(cv) && cv is Obj && nested_obj_matches(
            rec.columns@,
            cv->Obj_0,
        ))
        &&& (obj_get(es, "aggregators"@) matches Some(av) && av is Obj && nested_obj_matches(
            rec.aggregators@,
            av->Obj_0,
        ))
        &&& (obj_get(es, "queryGranularity"@) matches Some(gv) && granularity_matches(
            rec.query_granularity,
            gv,
        ))
        &&& size_field_matches(rec.size, es, "size"@)
        &&& size_field_matches(rec.num_rows, es, "numRows"@)
    })
}

/// Read a size field.
fn lookup_size_field(entries: &Vec<(String, JsonValue)>, key: &str) -> (r: Result<usize, ()>)
    ensures
        ({
            let es = obj_view(entries@, entries@.len() as int);
            match r {
                Ok(n) => size_field_ok(es, key@) && size_field_matches(n, es, key@),
                Err(_) => !size_field_ok(es, key@),
            }
        }),
{
    match obj_lookup(entries, key) {
        Some(JsonValue::Int(i)) => {
            if *i >= 0 && (*i as u64) <= (usize::MAX as u64) {
                Ok(*i as usize)
            } else {
                Err(())
            }
        },
        _ => Err(()),
    }
}

/// Decode one segment-metadata record.
pub fn segment_result_from_json(v: &JsonValue) -> (r: Option<SegmentMetadataResult>)
    ensures
        match r {
            Some(rec) => segment_result_decodable(v@) && segment_result_matches(rec, v@),
            None => !segment_result_decodable(v@),
        },
{
    match v {
        JsonValue::Obj(entries) => {
            proof {
                assert(*v == JsonValue::Obj(*entries));
                lemma_obj_view(entries@, entries@.len() as int);
            }
            let id = match lookup_str_field(entries, "id") {
                Ok(s) => s,
                Err(_) => {
                    return None;
                },
            };
            let intervals = match obj_lookup(entries, "intervals") {
                Some(JsonValue::Arr(items)) => {
                    match intervals_from_json(items) {
                        Some(ivs) => ivs,
                        None => {
                            return None;
                        },
                    }
                },
                _ => {
                    return None;
                },
            };
            let columns = match obj_lookup(entries, "columns") {
                Some(JsonValue::Obj(inner)) => {
                    match nested_obj_from_json(inner) {
                        Some(ms) => ms,
                        None => {
                            return None;
                        },
                    }
                },
                _ => {
                    return None;
                },
            };
            let aggregators = match obj_lookup(entries, "aggregators") {
                Some(JsonValue::Obj(inner)) => {
                    match nested_obj_from_json(inner) {
                        Some(ms) => ms,
                        None => {
                            return None;
                        },
                    }
                },
                _ => {
                    return None;
                },
            };
            let query_granularity = match obj_lookup(entries, "queryGranularity") {
                Some(gv) => match Granularity::from_json(gv) {
                    Some(g) => g,
                    None => {
                        return None;
                    },
                },
                None => {
                    return None;
                },
            };
            let size = match lookup_size_field(entries, "size") {
                Ok(n) => n,
                Err(_) => {
                    return None;
                },
            };
            let num_rows = match lookup_size_field(entries, "numRows") {
                Ok(n) => n,
                Err(_) => {
                    return None;
                },
            };
            Some(
                SegmentMetadataResult {
                    id,
                    intervals,
                    columns,
                    aggregators,
                    query_granularity,
                    size,
                    num_rows,
                },
            )
        },
        _ => None,
    }
}

/// Whether a JSON value has the server's structured error shape: the
/// four fields, every one a string.
pub open spec fn query_error_decodable(v: JsonV) -> bool {
    v matches JsonV::Obj(es) && ({
        &&& str_field_ok(es, "error"@)
        &&& str_field_ok(es, "errorMessage"@)
        &&& str_field_ok(es, "errorClass"@)
        &&& str_field_ok(es, "host"@)
    })
}

/// Whether `qe` carries the four fields of the structured error shape
/// verbatim.
pub open spec fn query_error_matches(qe: QueryError, v: JsonV) -> bool {
    v matches JsonV::Obj(es) && ({
        &&& str_field_matches(qe.error, es, "error"@)
        &&& str_field_matches(qe.error_message, es, "errorMessage"@)
        &&& str_field_matches(qe.error_class, es, "errorClass"@)
        &&& str_field_matches(qe.host, es, "host"@)
    })
}

/// Decode the server's structured error payload.
pub fn query_error_from_json(v: &JsonValue) -> (r: Option<QueryError>)
    ensures
        match r {
            Some(qe) => query_error_decodable(v@) && query_error_matches(qe, v@),
            None => !query_error_decodable(v@),
        },
{
    match v {
        JsonValue::Obj(entries) => {
            proof {
                assert(*v == JsonValue::Obj(*entries));
                lemma_obj_view(entries@, entries@.len() as int);
            }
            let error = match lookup_str_field(entries, "error") {
                Ok(s) => s,
                Err(_) => {
                    return None;
                },
            };
            let error_message = match lookup_str_field(entries, "errorMessage") {
                Ok(s) => s,
                Err(_) => {
                    return None;
                },
            };
            let error_class = match lookup_str_field(entries, "errorClass") {
                Ok(s) => s,
                Err(_) => {
                    return None;
                },
            };
            let host = match lookup_str_field(entries, "host") {
                Ok(s) => s,
                Err(_) => {
                    return None;
                },
            };
            Some(QueryError { error, error_message, error_class, host })
        },
        _ => None,
    }
}

/// Whether a JSON value decodes as one SQL row: an object of scalars, an
/// array of scalars, or a bare string.
pub open spec fn sql_result_decodable(v: JsonV) -> bool {
    match v {
        JsonV::Obj(es) => scalar_obj_decodable(es),
        JsonV::Arr(vs) => scalars_decodable(vs),
        JsonV::Str(_) => true,
        _ => false,
    }
}

/// Whether `rec` is the SQL row read from the value, trying the object,
/// array and string shapes in that order.
pub open spec fn sql_result_matches(rec: SqlResult, v: JsonV) -> bool {
    match v {
        JsonV::Obj(es) => rec matches SqlResult::Object(m) && scalar_obj_matches(m@, es),
        JsonV::Arr(vs) => rec matches SqlResult::Array(ds) && scalars_match(ds@, vs),
        JsonV::Str(s) => rec matches SqlResult::Csv(t) && t@ == s,
        _ => false,
    }
}

/// Decode one SQL row.
pub fn sql_result_from_json(v: &JsonValue) -> (r: Option<SqlResult>)
    ensures
        match r {
            Some(rec) => sql_result_decodable(v@) && sql_result_matches(rec, v@),
            None => !sql_result_decodable(v@),
        },
{
    match v {
        JsonValue::Obj(entries) => {
            proof {
                assert(*v == JsonValue::Obj(*entries));
            }
            match scalar_obj_from_json(entries) {
                Some(m) => Some(SqlResult::Object(m)),
                None => None,
            }
        },
        JsonValue::Arr(items) => {
            proof {
                assert(*v == JsonValue::Arr(*items));
            }
            match scalars_from_json(items) {
                Some(ds) => Some(SqlResult::Array(ds)),
                None => None,
            }
        },
        JsonValue::Str(s) => Some(SqlResult::Csv(s.clone())),
        _ => None,
    }
}


// ---------------------------------------------------------------------
// Whole-body decoders.
// ---------------------------------------------------------------------

/// Whether a JSON value is an array of decodable TimeseriesResult records.
pub open spec fn ts_array_decodable(v: JsonV) -> bool {
    v matches JsonV::Arr(vs) && forall|i: int|
        0 <= i < vs.len() ==> ts_result_decodable(#[trigger] vs[i])
}

/// Whether `rs` is the element-wise decoding of such an array.
pub open spec fn ts_array_matches(rs: Seq<TimeseriesResult>, v: JsonV) -> bool {
    v matches JsonV::Arr(vs) && rs.len() == vs.len() && forall|i: int|
        0 <= i < rs.len() ==> ts_result_matches(#[trigger] rs[i], vs[i])
}

/// Decode such an array.
#[verifier::loop_isolation(false)]
fn ts_array_from_json(v: &JsonValue) -> (r: Option<Vec<TimeseriesResult>>)
    ensures
        match r {
            Some(rs) => ts_array_decodable(v@) && ts_array_matches(rs@, v@),
            None => !ts_array_decodable(v@),
        },
{
    match v {
        JsonValue::Arr(items) => {
            proof {
                assert(*v == JsonValue::Arr(*items));
                lemma_arr_view(items@, items@.len() as int);
            }
            let ghost vs = arr_view(items@, items@.len() as int);
            let n = items.len();
            let mut rs: Vec<TimeseriesResult> = Vec::new();
            let mut i: usize = 0;
            while i < n
                invariant
                    i <= n,
                    rs@.len() == i,
                    forall|j: int| 0 <= j < i ==> ts_result_decodable(#[trigger] vs[j]),
                    forall|j: int| 0 <= j < i ==> ts_result_matches(#[trigger] rs@[j], vs[j]),
                decreases n - i,
            {
                match ts_result_from_json(&items[i]) {
                    Some(rec) => {
                        rs.push(rec);
                    },
                    None => {
                        proof {
                            assert(v@ matches JsonV::Arr(el) && el == vs);
                            assert(!ts_result_decodable(vs[i as int]));
                        }
                        return None;
                    },
                }
                i = i + 1;
            }
            Some(rs)
        },
        _ => None,
    }
}

/// Decode a whole response body for this query kind: the success shape
/// when it fits, else the server's structured error, else a decode
/// error.
pub fn timeseries_results(body: &str) -> (r: Result<Vec<TimeseriesResult>, Error>)
    ensures
        match r {
            Ok(rs) => json_of(body@) matches Some(v) && ts_array_decodable(v) && ts_array_matches(
                rs@,
                v,
            ),
            Err(e) => match e {
                Error::QueryError(qe) => json_of(body@) matches Some(v) && !ts_array_decodable(v)
                    && query_error_decodable(v) && query_error_matches(qe, v),
                Error::ResponseDecode(m) => m@ == "response is not valid JSON"@ && (match
                    json_of(body@) {
                    None => true,
                    Some(v) => !ts_array_decodable(v) && !query_error_decodable(v),
                }),
                _ => false,
            },
        },
{
    let v = match parse_json(body) {
        Some(v) => v,
        None => {
            return Err(Error::ResponseDecode(String::from_str("response is not valid JSON")));
        },
    };
    match ts_array_from_json(&v) {
        Some(rs) => Ok(rs),
        None => match query_error_from_json(&v) {
            Some(qe) => Err(Error::QueryError(qe)),
            None => Err(Error::ResponseDecode(String::from_str("response is not valid JSON"))),
        },
    }
}

/// Whether a JSON value is an array of decodable TopNResult records.
pub open spec fn topn_array_decodable(v: JsonV) -> bool {
    v matches JsonV::Arr(vs) && forall|i: int|
        0 <= i < vs.len() ==> topn_result_decodable(#[trigger] vs[i])
}

/// Whether `rs` is the element-wise decoding of such an array.
pub open spec fn topn_array_matches(rs: Seq<TopNResult>, v: JsonV) -> bool {
    v matches JsonV::Arr(vs) && rs.len() == vs.len() && forall|i: int|
        0 <= i < rs.len() ==> topn_result_matches(#[trigger] rs[i], vs[i])
}

/// Decode such an array.
#[verifier::loop_isolation(false)]
fn topn_array_from_json(v: &JsonValue) -> (r: Option<Vec<TopNResult>>)
    ensures
        match r {
            Some(rs) => topn_array_decodable(v@) && topn_array_matches(rs@, v@),
            None => !topn_array_decodable(v@),
        },
{
    match v {
        JsonValue::Arr(items) => {
            proof {
                assert(*v == JsonValue::Arr(*items));
                lemma_arr_view(items@, items@.len() as int);
            }
            let ghost vs = arr_view(items@, items@.len() as int);
            let n = items.len();
            let mut rs: Vec<TopNResult> = Vec::new();
            let mut i: usize = 0;
            while i < n
                invariant
                    i <= n,
                    rs@.len() == i,
                    forall|j: int| 0 <= j < i ==> topn_result_decodable(#[trigger] vs[j]),
                    forall|j: int| 0 <= j < i ==> topn_result_matches(#[trigger] rs@[j], vs[j]),
                decreases n - i,
            {
                match topn_result_from_json(&items[i]) {
                    Some(rec) => {
                        rs.push(rec);
                    },
                    None => {
                        proof {
                            assert(v@ matches JsonV::Arr(el) && el == vs);
                            assert(!topn_result_decodable(vs[i as int]));
                        }
                        return None;
                    },
                }
                i = i + 1;
            }
            Some(rs)
        },
        _ => None,
    }
}

/// Decode a whole response body for this query kind: the success shape
/// when it fits, else the server's structured error, else a decode
/// error.
pub fn topn_results(body: &str) -> (r: Result<Vec<TopNResult>, Error>)
    ensures
        match r {
            Ok(rs) => json_of(body@) matches Some(v) && topn_array_decodable(v) && topn_array_matches(
                rs@,
                v,
            ),
            Err(e) => match e {
                Error::QueryError(qe) => json_of(body@) matches Some(v) && !topn_array_decodable(v)
                    && query_error_decodable(v) && query_error_matches(qe, v),
                Error::ResponseDecode(m) => m@ == "response is not valid JSON"@ && (match
                    json_of(body@) {
                    None => true,
                    Some(v) => !topn_array_decodable(v) && !query_error_decodable(v),
                }),
                _ => false,
            },
        },
{
    let v = match parse_json(body) {
        Some(v) => v,
        None => {
            return Err(Error::ResponseDecode(String::from_str("response is not valid JSON")));
        },
    };
    match topn_array_from_json(&v) {
        Some(rs) => Ok(rs),
        None => match query_error_from_json(&v) {
            Some(qe) => Err(Error::QueryError(qe)),
            None => Err(Error::ResponseDecode(String::from_str("response is not valid JSON"))),
        },
    }
}

/// Whether a JSON value is an array of decodable GroupByResult records.
pub open spec fn groupby_array_decodable(v: JsonV) -> bool {
    v matches JsonV::Arr(vs) && forall|i: int|
        0 <= i < vs.len() ==> groupby_result_decodable(#[trigger] vs[i])
}

/// Whether `rs` is the element-wise decoding of such an array.
pub open spec fn groupby_array_matches(rs: Seq<GroupByResult>, v: JsonV) -> bool {
    v matches JsonV::Arr(vs) && rs.len() == vs.len() && forall|i: int|
        0 <= i < rs.len() ==> groupby_result_matches(#[trigger] rs[i], vs[i])
}

/// Decode such an array.
#[verifier::loop_isolation(false)]
fn groupby_array_from_json(v: &JsonValue) -> (r: Option<Vec<GroupByResult>>)
    ensures
        match r {
            Some(rs) => groupby_array_decodable(v@) && groupby_array_matches(rs@, v@),
            None => !groupby_array_decodable(v@),
        },
{
    match v {
        JsonValue::Arr(items) => {
            proof {
                assert(*v == JsonValue::Arr(*items));
                lemma_arr_view(items@, items@.len() as int);
            }
            let ghost vs = arr_view(items@, items@.len() as int);
            let n = items.len();
            let mut rs: Vec<GroupByResult> = Vec::new();
            let mut i: usize = 0;
            while i < n
                invariant
                    i <= n,
                    rs@.len() == i,
                    forall|j: int| 0 <= j < i ==> groupby_result_decodable(#[trigger] vs[j]),
                    forall|j: int| 0 <= j < i ==> groupby_result_matches(#[trigger] rs@[j], vs[j]),
                decreases n - i,
            {
                match groupby_result_from_json(&items[i]) {
                    Some(rec) => {
                        rs.push(rec);
                    },
                    None => {
                        proof {
                            assert(v@ matches JsonV::Arr(el) && el == vs);
                            assert(!groupby_result_decodable(vs[i as int]));
                        }
                        return None;
                    },
                }
                i = i + 1;
            }
            Some(rs)
        },
        _ => None,
    }
}

/// Decode a whole response body for this query kind: the success shape
/// when it fits, else the server's structured error, else a decode
/// error.
pub fn groupby_results(body: &str) -> (r: Result<Vec<GroupByResult>, Error>)
    ensures
        match r {
            Ok(rs) => json_of(body@) matches Some(v) && groupby_array_decodable(v) && groupby_array_matches(
                rs@,
                v,
            ),
            Err(e) => match e {
                Error::QueryError(qe) => json_of(body@) matches Some(v) && !groupby_array_decodable(v)
                    && query_error_decodable(v) && query_error_matches(qe, v),
                Error::ResponseDecode(m) => m@ == "response is not valid JSON"@ && (match
                    json_of(body@) {
                    None => true,
                    Some(v) => !groupby_array_decodable(v) && !query_error_decodable(v),
                }),
                _ => false,
            },
        },
{
    let v = match parse_json(body) {
        Some(v) => v,
        None => {
            return Err(Error::ResponseDecode(String::from_str("response is not valid JSON")));
        },
    };
    match groupby_array_from_json(&v) {
        Some(rs) => Ok(rs),
        None => match query_error_from_json(&v) {
            Some(qe) => Err(Error::QueryError(qe)),
            None => Err(Error::ResponseDecode(String::from_str("response is not valid JSON"))),
        },
    }
}

/// Whether a JSON value is an array of decodable ScanResult records.
pub open spec fn scan_array_decodable(v: JsonV) -> bool {
    v matches JsonV::Arr(vs) && forall|i: int|
        0 <= i < vs.len() ==> scan_result_decodable(#[trigger] vs[i])
}

/// Whether `rs` is the element-wise decoding of such an array.
pub open spec fn scan_array_matches(rs: Seq<ScanResult>, v: JsonV) -> bool {
    v matches JsonV::Arr(vs) && rs.len() == vs.len() && forall|i: int|
        0 <= i < rs.len() ==> scan_result_matches(#[trigger] rs[i], vs[i])
}

/// Decode such an array.
#[verifier::loop_isolation(false)]
fn scan_array_from_json(v: &JsonValue) -> (r: Option<Vec<ScanResult>>)
    ensures
        match r {
            Some(rs) => scan_array_decodable(v@) && scan_array_matches(rs@, v@),
            None => !scan_array_decodable(v@),
        },
{
    match v {
        JsonValue::Arr(items) => {
            proof {
                assert(*v == JsonValue::Arr(*items));
                lemma_arr_view(items@, items@.len() as int);
            }
            let ghost vs = arr_view(items@, items@.len() as int);
            let n = items.len();
            let mut rs: Vec<ScanResult> = Vec::new();
            let mut i: usize = 0;
            while i < n
                invariant
                    i <= n,
                    rs@.len() == i,
                    forall|j: int| 0 <= j < i ==> scan_result_decodable(#[trigger] vs[j]),
                    forall|j: int| 0 <= j < i ==> scan_result_matches(#[trigger] rs@[j], vs[j]),
                decreases n - i,
            {
                match scan_result_from_json(&items[i]) {
                    Some(rec) => {
                        rs.push(rec);
                    },
                    None => {
                        proof {
                            assert(v@ matches JsonV::Arr(el) && el == vs);
                            assert(!scan_result_decodable(vs[i as int]));
                        }
                        return None;
                    },
                }
                i = i + 1;
            }
            Some(rs)
        },
        _ => None,
    }
}

/// Decode a whole response body for this query kind: the success shape
/// when it fits, else the server's structured error, else a decode
/// error.
pub fn scan_results(body: &str) -> (r: Result<Vec<ScanResult>, Error>)
    ensures
        match r {
            Ok(rs) => json_of(body@) matches Some(v) && scan_array_decodable(v) && scan_array_matches(
                rs@,
                v,
            ),
            Err(e) => match e {
                Error::QueryError(qe) => json_of(body@) matches Some(v) && !scan_array_decodable(v)
                    && query_error_decodable(v) && query_error_matches(qe, v),
                Error::ResponseDecode(m) => m@ == "response is not valid JSON"@ && (match
                    json_of(body@) {
                    None => true,
                    Some(v) => !scan_array_decodable(v) && !query_error_decodable(v),
                }),
                _ => false,
            },
        },
{
    let v = match parse_json(body) {
        Some(v) => v,
        None => {
            return Err(Error::ResponseDecode(String::from_str("response is not valid JSON")));
        },
    };
    match scan_array_from_json(&v) {
        Some(rs) => Ok(rs),
        None => match query_error_from_json(&v) {
            Some(qe) => Err(Error::QueryError(qe)),
            None => Err(Error::ResponseDecode(String::from_str("response is not valid JSON"))),
        },
    }
}

/// Whether a JSON value is an array of decodable SearchResult records.
pub open spec fn search_array_decodable(v: JsonV) -> bool {
    v matches JsonV::Arr(vs) && forall|i: int|
        0 <= i < vs.len() ==> search_result_decodable(#[trigger] vs[i])
}

/// Whether `rs` is the element-wise decoding of such an array.
pub open spec fn search_array_matches(rs: Seq<SearchResult>, v: JsonV) -> bool {
    v matches JsonV::Arr(vs) && rs.len() == vs.len() && forall|i: int|
        0 <= i < rs.len() ==> search_result_matches(#[trigger] rs[i], vs[i])
}

/// Decode such an array.
#[verifier::loop_isolation(false)]
fn search_array_from_json(v: &JsonValue) -> (r: Option<Vec<SearchResult>>)
    ensures
        match r {
            Some(rs) => search_array_decodable(v@) && search_array_matches(rs@, v@),
            None => !search_array_decodable(v@),
        },
{
    match v {
        JsonValue::Arr(items) => {
            proof {
                assert(*v == JsonValue::Arr(*items));
                lemma_arr_view(items@, items@.len() as int);
            }
            let ghost vs = arr_view(items@, items@.len() as int);
            let n = items.len();
            let mut rs: Vec<SearchResult> = Vec::new();
            let mut i: usize = 0;
            while i < n
                invariant
                    i <= n,
                    rs@.len() == i,
                    forall|j: int| 0 <= j < i ==> search_result_decodable(#[trigger] vs[j]),
                    forall|j: int| 0 <= j < i ==> search_result_matches(#[trigger] rs@[j], vs[j]),
                decreases n - i,
            {
                match search_result_from_json(&items[i]) {
                    Some(rec) => {
                        rs.push(rec);
                    },
                    None => {
                        proof {
                            assert(v@ matches JsonV::Arr(el) && el == vs);
                            assert(!search_result_decodable(vs[i as int]));
                        }
                        return None;
                    },
                }
                i = i + 1;
            }
            Some(rs)
        },
        _ => None,
    }
}

/// Decode a whole response body for this query kind: the success shape
/// when it fits, else the server's structured error, else a decode
/// error.
pub fn search_results(body: &str) -> (r: Result<Vec<SearchResult>, Error>)
    ensures
        match r {
            Ok(rs) => json_of(body@) matches Some(v) && search_array_decodable(v) && search_array_matches(
                rs@,
                v,
            ),
            Err(e) => match e {
                Error::QueryError(qe) => json_of(body@) matches Some(v) && !search_array_decodable(v)
                    && query_error_decodable(v) && query_error_matches(qe, v),
                Error::ResponseDecode(m) => m@ == "response is not valid JSON"@ && (match
                    json_of(body@) {
                    None => true,
                    Some(v) => !search_array_decodable(v) && !query_error_decodable(v),
                }),
                _ => false,
            },
        },
{
    let v = match parse_json(body) {
        Some(v) => v,
        None => {
            return Err(Error::ResponseDecode(String::from_str("response is not valid JSON")));
        },
    };
    match search_array_from_json(&v) {
        Some(rs) => Ok(rs),
        None => match query_error_from_json(&v) {
            Some(qe) => Err(Error::QueryError(qe)),
            None => Err(Error::ResponseDecode(String::from_str("response is not valid JSON"))),
        },
    }
}

/// Whether a JSON value is an array of decodable TimeBoundaryResult records.
pub open spec fn time_boundary_array_decodable(v: JsonV) -> bool {
    v matches JsonV::Arr(vs) && forall|i: int|
        0 <= i < vs.len() ==> time_boundary_result_decodable(#[trigger] vs[i])
}

/// Whether `rs` is the element-wise decoding of such an array.
pub open spec fn time_boundary_array_matches(rs: Seq<TimeBoundaryResult>, v: JsonV) -> bool {
    v matches JsonV::Arr(vs) && rs.len() == vs.len() && forall|i: int|
        0 <= i < rs.len() ==> time_boundary_result_matches(#[trigger] rs[i], vs[i])
}

/// Decode such an array.
#[verifier::loop_isolation(false)]
fn time_boundary_array_from_json(v: &JsonValue) -> (r: Option<Vec<TimeBoundaryResult>>)
    ensures
        match r {
            Some(rs) => time_boundary_array_decodable(v@) && time_boundary_array_matches(rs@, v@),
            None => !time_boundary_array_decodable(v@),
        },
{
    match v {
        JsonValue::Arr(items) => {
            proof {
                assert(*v == JsonValue::Arr(*items));
                lemma_arr_view(items@, items@.len() as int);
            }
            let ghost vs = arr_view(items@, items@.len() as int);
            let n = items.len();
            let mut rs: Vec<TimeBoundaryResult> = Vec::new();
            let mut i: usize = 0;
            while i < n
                invariant
                    i <= n,
                    rs@.len() == i,
                    forall|j: int| 0 <= j < i ==> time_boundary_result_decodable(#[trigger] vs[j]),
                    forall|j: int| 0 <= j < i ==> time_boundary_result_matches(#[trigger] rs@[j], vs[j]),
                decreases n - i,
            {
                match time_boundary_result_from_json(&items[i]) {
                    Some(rec) => {
                        rs.push(rec);
                    },
                    None => {
                        proof {
                            assert(v@ matches JsonV::Arr(el) && el == vs);
                            assert(!time_boundary_result_decodable(vs[i as int]));
                        }
                        return None;
                    },
                }
                i = i + 1;
            }
            Some(rs)
        },
        _ => None,
    }
}

/// Decode a whole response body for this query kind: the success shape
/// when it fits, else the server's structured error, else a decode
/// error.
pub fn time_boundary_results(body: &str) -> (r: Result<Vec<TimeBoundaryResult>, Error>)
    ensures
        match r {
            Ok(rs) => json_of(body@) matches Some(v) && time_boundary_array_decodable(v) && time_boundary_array_matches(
                rs@,
                v,
            ),
            Err(e) => match e {
                Error::QueryError(qe) => json_of(body@) matches Some(v) && !time_boundary_array_decodable(v)
                    && query_error_decodable(v) && query_error_matches(qe, v),
                Error::ResponseDecode(m) => m@ == "response is not valid JSON"@ && (match
                    json_of(body@) {
                    None => true,
                    Some(v) => !time_boundary_array_decodable(v) && !query_error_decodable(v),
                }),
                _ => false,
            },
        },
{
    let v = match parse_json(body) {
        Some(v) => v,
        None => {
            return Err(Error::ResponseDecode(String::from_str("response is not valid JSON")));
        },
    };
    match time_boundary_array_from_json(&v) {
        Some(rs) => Ok(rs),
        None => match query_error_from_json(&v) {
            Some(qe) => Err(Error::QueryError(qe)),
            None => Err(Error::ResponseDecode(String::from_str("response is not valid JSON"))),
        },
    }
}

/// Whether a JSON value is an array of decodable SegmentMetadataResult records.
pub open spec fn segment_array_decodable(v: JsonV) -> bool {
    v matches JsonV::Arr(vs) && forall|i: int|
        0 <= i < vs.len() ==> segment_result_decodable(#[trigger] vs[i])
}

/// Whether `rs` is the element-wise decoding of such an array.
pub open spec fn segment_array_matches(rs: Seq<SegmentMetadataResult>, v: JsonV) -> bool {
    v matches JsonV::Arr(vs) && rs.len() == vs.len() && forall|i: int|
        0 <= i < rs.len() ==> segment_result_matches(#[trigger] rs[i], vs[i])
}

/// Decode such an array.
#[verifier::loop_isolation(false)]
fn segment_array_from_json(v: &JsonValue) -> (r: Option<Vec<SegmentMetadataResult>>)
    ensures
        match r {
            Some(rs) => segment_array_decodable(v@) && segment_array_matches(rs@, v@),
            None => !segment_array_decodable(v@),
        },
{
    match v {
        JsonValue::Arr(items) => {
            proof {
                assert(*v == JsonValue::Arr(*items));
                lemma_arr_view(items@, items@.len() as int);
            }
            let ghost vs = arr_view(items@, items@.len() as int);
            let n = items.len();
            let mut rs: Vec<SegmentMetadataResult> = Vec::new();
            let mut i: usize = 0;
            while i < n
                invariant
                    i <= n,
                    rs@.len() == i,
                    forall|j: int| 0 <= j < i ==> segment_result_decodable(#[trigger] vs[j]),
                    forall|j: int| 0 <= j < i ==> segment_result_matches(#[trigger] rs@[j], vs[j]),
                decreases n - i,
            {
                match segment_result_from_json(&items[i]) {
                    Some(rec) => {
                        rs.push(rec);
                    },
                    None => {
                        proof {
                            assert(v@ matches JsonV::Arr(el) && el == vs);
                            assert(!segment_result_decodable(vs[i as int]));
                        }
                        return None;
                    },
                }
                i = i + 1;
            }
            Some(rs)
        },
        _ => None,
    }
}

/// Decode a whole response body for this query kind: the success shape
/// when it fits, else the server's structured error, else a decode
/// error.
pub fn segment_metadata_results(body: &str) -> (r: Result<Vec<SegmentMetadataResult>, Error>)
    ensures
        match r {
            Ok(rs) => json_of(body@) matches Some(v) && segment_array_decodable(v) && segment_array_matches(
                rs@,
                v,
            ),
            Err(e) => match e {
                Error::QueryError(qe) => json_of(body@) matches Some(v) && !segment_array_decodable(v)
                    && query_error_decodable(v) && query_error_matches(qe, v),
                Error::ResponseDecode(m) => m@ == "response is not valid JSON"@ && (match
                    json_of(body@) {
                    None => true,
                    Some(v) => !segment_array_decodable(v) && !query_error_decodable(v),
                }),
                _ => false,
            },
        },
{
    let v = match parse_json(body) {
        Some(v) => v,
        None => {
            return Err(Error::ResponseDecode(String::from_str("response is not valid JSON")));
        },
    };
    match segment_array_from_json(&v) {
        Some(rs) => Ok(rs),
        None => match query_error_from_json(&v) {
            Some(qe) => Err(Error::QueryError(qe)),
            None => Err(Error::ResponseDecode(String::from_str("response is not valid JSON"))),
        },
    }
}

/// Whether a JSON value is an array of decodable DataSourceMetadataResult records.
pub open spec fn dsm_array_decodable(v: JsonV) -> bool {
    v matches JsonV::Arr(vs) && forall|i: int|
        0 <= i < vs.len() ==> dsm_result_decodable(#[trigger] vs[i])
}

/// Whether `rs` is the element-wise decoding of such an array.
pub open spec fn dsm_array_matches(rs: Seq<DataSourceMetadataResult>, v: JsonV) -> bool {
    v matches JsonV::Arr(vs) && rs.len() == vs.len() && forall|i: int|
        0 <= i < rs.len() ==> dsm_result_matches(#[trigger] rs[i], vs[i])
}

/// Decode such an array.
#[verifier::loop_isolation(false)]
fn dsm_array_from_json(v: &JsonValue) -> (r: Option<Vec<DataSourceMetadataResult>>)
    ensures
        match r {
            Some(rs) => dsm_array_decodable(v@) && dsm_array_matches(rs@, v@),
            None => !dsm_array_decodable(v@),
        },
{
    match v {
        JsonValue::Arr(items) => {
            proof {
                assert(*v == JsonValue::Arr(*items));
                lemma_arr_view(items@, items@.len() as int);
            }
            let ghost vs = arr_view(items@, items@.len() as int);
            let n = items.len();
            let mut rs: Vec<DataSourceMetadataResult> = Vec::new();
            let mut i: usize = 0;
            while i < n
                invariant
                    i <= n,
                    rs@.len() == i,
                    forall|j: int| 0 <= j < i ==> dsm_result_decodable(#[trigger] vs[j]),
                    forall|j: int| 0 <= j < i ==> dsm_result_matches(#[trigger] rs@[j], vs[j]),
                decreases n - i,
            {
                match dsm_result_from_json(&items[i]) {
                    Some(rec) => {
                        rs.push(rec);
                    },
                    None => {
                        proof {
                            assert(v@ matches JsonV::Arr(el) && el == vs);
                            assert(!dsm_result_decodable(vs[i as int]));
                        }
                        return None;
                    },
                }
                i = i + 1;
            }
            Some(rs)
        },
        _ => None,
    }
}

/// Decode a whole response body for this query kind: the success shape
/// when it fits, else the server's structured error, else a decode
/// error.
pub fn datasource_metadata_results(body: &str) -> (r: Result<Vec<DataSourceMetadataResult>, Error>)
    ensures
        match r {
            Ok(rs) => json_of(body@) matches Some(v) && dsm_array_decodable(v) && dsm_array_matches(
                rs@,
                v,
            ),
            Err(e) => match e {
                Error::QueryError(qe) => json_of(body@) matches Some(v) && !dsm_array_decodable(v)
                    && query_error_decodable(v) && query_error_matches(qe, v),
                Error::ResponseDecode(m) => m@ == "response is not valid JSON"@ && (match
                    json_of(body@) {
                    None => true,
                    Some(v) => !dsm_array_decodable(v) && !query_error_decodable(v),
                }),
                _ => false,
            },
        },
{
    let v = match parse_json(body) {
        Some(v) => v,
        None => {
            return Err(Error::ResponseDecode(String::from_str("response is not valid JSON")));
        },
    };
    match dsm_array_from_json(&v) {
        Some(rs) => Ok(rs),
        None => match query_error_from_json(&v) {
            Some(qe) => Err(Error::QueryError(qe)),
            None => Err(Error::ResponseDecode(String::from_str("response is not valid JSON"))),
        },
    }
}


// ---------------------------------------------------------------------
// The SQL body decoder.
// ---------------------------------------------------------------------

/// Whether a JSON value is an array of decodable SQL rows.
pub open spec fn sql_whole_decodable(v: JsonV) -> bool {
    v matches JsonV::Arr(vs) && forall|i: int|
        0 <= i < vs.len() ==> sql_result_decodable(#[trigger] vs[i])
}

/// Whether `rs` is the element-wise decoding of such an array.
pub open spec fn sql_whole_matches(rs: Seq<SqlResult>, v: JsonV) -> bool {
    v matches JsonV::Arr(vs) && rs.len() == vs.len() && forall|i: int|
        0 <= i < rs.len() ==> sql_result_matches(#[trigger] rs[i], vs[i])
}

/// Decode an array of SQL rows.
#[verifier::loop_isolation(false)]
fn sql_whole_from_json(v: &JsonValue) -> (r: Option<Vec<SqlResult>>)
    ensures
        match r {
            Some(rs) => sql_whole_decodable(v@) && sql_whole_matches(rs@, v@),
            None => !sql_whole_decodable(v@),
        },
{
    match v {
        JsonValue::Arr(items) => {
            proof {
                assert(*v == JsonValue::Arr(*items));
                lemma_arr_view(items@, items@.len() as int);
            }
            let ghost vs = arr_view(items@, items@.len() as int);
            let n = items.len();
            let mut rs: Vec<SqlResult> = Vec::new();
            let mut i: usize = 0;
            while i < n
                invariant
                    i <= n,
                    rs@.len() == i,
                    forall|j: int| 0 <= j < i ==> sql_result_decodable(#[trigger] vs[j]),
                    forall|j: int| 0 <= j < i ==> sql_result_matches(#[trigger] rs@[j], vs[j]),
                decreases n - i,
            {
                match sql_result_from_json(&items[i]) {
                    Some(rec) => {
                        rs.push(rec);
                    },
                    None => {
                        proof {
                            assert(v@ matches JsonV::Arr(el) && el == vs);
                            assert(!sql_result_decodable(vs[i as int]));
                        }
                        return None;
                    },
                }
                i = i + 1;
            }
            Some(rs)
        },
        _ => None,
    }
}

/// Whether a line decodes as a JSON object of scalars.
pub open spec fn obj_line_ok(s: Seq<char>) -> bool {
    json_of(s) matches Some(v) && v matches JsonV::Obj(es) && scalar_obj_decodable(es)
}

/// Whether `rec` is the object row read from a line.
pub open spec fn obj_line_matches(rec: SqlResult, s: Seq<char>) -> bool {
    rec matches SqlResult::Object(m) && (json_of(s) matches Some(v) && v matches JsonV::Obj(
        es,
    ) && scalar_obj_matches(m@, es))
}

/// Whether a line decodes as a JSON array of scalars.
pub open spec fn arr_line_ok(s: Seq<char>) -> bool {
    json_of(s) matches Some(v) && v matches JsonV::Arr(vs) && scalars_decodable(vs)
}

/// Whether `rec` is the array row read from a line.
pub open spec fn arr_line_matches(rec: SqlResult, s: Seq<char>) -> bool {
    rec matches SqlResult::Array(ds) && (json_of(s) matches Some(v) && v matches JsonV::Arr(
        vs,
    ) && scalars_match(ds@, vs))
}

/// Whether a SQL response body is decodable for the given result format:
/// as one JSON array for the whole-body formats, line by line for the
/// line-delimited ones, and always for CSV.
pub open spec fn sql_body_ok(format: Option<ResultFormat>, body: Seq<char>) -> bool {
    match format {
        Option::None | Option::Some(ResultFormat::Object) | Option::Some(
            ResultFormat::Array,
        ) => json_of(body) matches Some(v) && sql_whole_decodable(v),
        Option::Some(ResultFormat::ObjectLines) => forall|i: int|
            0 <= i < lines_of(trim_chars(body)).len() ==> obj_line_ok(
                #[trigger] lines_of(trim_chars(body))[i],
            ),
        Option::Some(ResultFormat::ArrayLines) => forall|i: int|
            0 <= i < lines_of(trim_chars(body)).len() ==> arr_line_ok(
                #[trigger] lines_of(trim_chars(body))[i],
            ),
        Option::Some(ResultFormat::Csv) => true,
    }
}

/// Whether `rs` is the decoding of a SQL response body for the given
/// result format.
pub open spec fn sql_body_matches(
    rs: Seq<SqlResult>,
    format: Option<ResultFormat>,
    body: Seq<char>,
) -> bool {
    match format {
        Option::None | Option::Some(ResultFormat::Object) | Option::Some(
            ResultFormat::Array,
        ) => json_of(body) matches Some(v) && sql_whole_matches(rs, v),
        Option::Some(ResultFormat::ObjectLines) => rs.len() == lines_of(
            trim_chars(body),
        ).len() && forall|i: int|
            0 <= i < rs.len() ==> obj_line_matches(
                #[trigger] rs[i],
                lines_of(trim_chars(body))[i],
            ),
        Option::Some(ResultFormat::ArrayLines) => rs.len() == lines_of(
            trim_chars(body),
        ).len() && forall|i: int|
            0 <= i < rs.len() ==> arr_line_matches(
                #[trigger] rs[i],
                lines_of(trim_chars(body))[i],
            ),
        Option::Some(ResultFormat::Csv) => rs.len() == lines_of(body).len() && forall|i: int|
            0 <= i < rs.len() ==> ((#[trigger] rs[i]) matches SqlResult::Csv(t) && t@
                == lines_of(body)[i]),
    }
}

/// Decode a SQL response body according to the result format the query
/// declared: whole-body JSON for the unset, object and array formats
/// (falling back to the structured error shape, then to a decode
/// error); line-delimited JSON for the line formats, where one bad line
/// fails the whole call and no partial rows are returned; and verbatim
/// lines for CSV, which never fails.
#[verifier::loop_isolation(false)]
pub fn sql_results(format: &Option<ResultFormat>, body: &str) -> (r: Result<
    Vec<SqlResult>,
    Error,
>)
    ensures
        match r {
            Ok(rs) => sql_body_ok(*format, body@) && sql_body_matches(rs@, *format, body@),
            Err(e) => !sql_body_ok(*format, body@) && match e {
                Error::QueryError(qe) => json_of(body@) matches Some(v)
                    && query_error_decodable(v) && query_error_matches(qe, v),
                Error::ResponseDecode(m) => {
                    if *format is None || *format == Some(ResultFormat::Object) || *format
                        == Some(ResultFormat::Array) {
                        m@ == "response is not valid JSON"@ && (match json_of(body@) {
                            None => true,
                            Some(v) => !query_error_decodable(v),
                        })
                    } else {
                        m@ == "part of the response is not valid JSON"@
                    }
                },
                _ => false,
            },
        },
{
    match format {
        Option::None | Option::Some(ResultFormat::Object) | Option::Some(
            ResultFormat::Array,
        ) => {
            let v = match parse_json(body) {
                Some(v) => v,
                None => {
                    return Err(
                        Error::ResponseDecode(String::from_str("response is not valid JSON")),
                    );
                },
            };
            match sql_whole_from_json(&v) {
                Some(rs) => Ok(rs),
                None => match query_error_from_json(&v) {
                    Some(qe) => Err(Error::QueryError(qe)),
                    None => Err(
                        Error::ResponseDecode(String::from_str("response is not valid JSON")),
                    ),
                },
            }
        },
        Option::Some(ResultFormat::ObjectLines) => {
            let trimmed = trim_exec(body);
            let ls = lines_exec(trimmed.as_str());
            let ghost lseq = lines_of(trim_chars(body@));
            proof {
                assert(ls.deep_view() == lseq);
            }
            let n = ls.len();
            let mut rs: Vec<SqlResult> = Vec::new();
            let mut i: usize = 0;
            while i < n
                invariant
                    i <= n,
                    n == ls@.len(),
                    rs@.len() == i,
                    forall|j: int| 0 <= j < i ==> obj_line_ok(#[trigger] lseq[j]),
                    forall|j: int| 0 <= j < i ==> obj_line_matches(#[trigger] rs@[j], lseq[j]),
                decreases n - i,
            {
                proof {
                    assert(lseq[i as int] == ls@[i as int]@);
                }
                match parse_json(ls[i].as_str()) {
                    Some(JsonValue::Obj(entries)) => {
                        match scalar_obj_from_json(&entries) {
                            Some(m) => {
                                rs.push(SqlResult::Object(m));
                            },
                            None => {
                                proof {
                                    assert(!obj_line_ok(lseq[i as int]));
                                }
                                return Err(
                                    Error::ResponseDecode(
                                        String::from_str(
                                            "part of the response is not valid JSON",
                                        ),
                                    ),
                                );
                            },
                        }
                    },
                    _ => {
                        proof {
                            assert(!obj_line_ok(lseq[i as int]));
                        }
                        return Err(
                            Error::ResponseDecode(
                                String::from_str("part of the response is not valid JSON"),
                            ),
                        );
                    },
                }
                i = i + 1;
            }
            Ok(rs)
        },
        Option::Some(ResultFormat::ArrayLines) => {
            let trimmed = trim_exec(body);
            let ls = lines_exec(trimmed.as_str());
            let ghost lseq = lines_of(trim_chars(body@));
            proof {
                assert(ls.deep_view() == lseq);
            }
            let n = ls.len();
            let mut rs: Vec<SqlResult> = Vec::new();
            let mut i: usize = 0;
            while i < n
                invariant
                    i <= n,
                    n == ls@.len(),
                    rs@.len() == i,
                    forall|j: int| 0 <= j < i ==> arr_line_ok(#[trigger] lseq[j]),
                    forall|j: int| 0 <= j < i ==> arr_line_matches(#[trigger] rs@[j], lseq[j]),
                decreases n - i,
            {
                proof {
                    assert(lseq[i as int] == ls@[i as int]@);
                }
                match parse_json(ls[i].as_str()) {
                    Some(JsonValue::Arr(items)) => {
                        match scalars_from_json(&items) {
                            Some(ds) => {
                                rs.push(SqlResult::Array(ds));
                            },
                            None => {
                                proof {
                                    assert(!arr_line_ok(lseq[i as int]));
                                }
                                return Err(
                                    Error::ResponseDecode(
                                        String::from_str(
                                            "part of the response is not valid JSON",
                                        ),
                                    ),
                                );
                            },
                        }
                    },
                    _ => {
                        proof {
                            assert(!arr_line_ok(lseq[i as int]));
                        }
                        return Err(
                            Error::ResponseDecode(
                                String::from_str("part of the response is not valid JSON"),
                            ),
                        );
                    },
                }
                i = i + 1;
            }
            Ok(rs)
        },
        Option::Some(ResultFormat::Csv) => {
            let ls = lines_exec(body);
            let ghost lseq = lines_of(body@);
            proof {
                assert(ls.deep_view() == lseq);
            }
            let n = ls.len();
            let mut rs: Vec<SqlResult> = Vec::new();
            let mut i: usize = 0;
            while i < n
                invariant
                    i <= n,
                    n == ls@.len(),
                    rs@.len() == i,
                    forall|j: int| 0 <= j < i ==> ((#[trigger] rs@[j]) matches SqlResult::Csv(
                        t,
                    ) && t@ == lseq[j]),
                decreases n - i,
            {
                proof {
                    assert(lseq[i as int] == ls@[i as int]@);
                }
                rs.push(SqlResult::Csv(ls[i].clone()));
                i = i + 1;
            }
            Ok(rs)
        },
    }
}

} // verus!
