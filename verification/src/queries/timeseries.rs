//! The timeseries query envelope.

use vstd::prelude::*;

verus! {

use crate::components::aggregations::Aggregator;
use crate::components::aggregations::aggs_to_json;
use crate::components::context::Context;
use crate::components::data_sources::DataSource;
use crate::components::data_sources::datasource_jsonv;
use crate::components::filters::Filter;
use crate::components::granularities::Granularity;
use crate::components::granularities::granularity_jsonv;
use crate::components::intervals::Interval;
use crate::components::intervals::intervals_jsonv;
use crate::components::intervals::intervals_to_json;
use crate::components::post_aggregations::PostAggregator;
use crate::components::post_aggregations::post_aggs_to_json;
use crate::components::virtual_columns::VirtaulColumn;
use crate::components::virtual_columns::virtual_columns_to_json;
use crate::json::JsonV;
use crate::json::JsonValue;
use crate::json::ObjBuilder;
use crate::json::jstring;
use crate::json::opt_bool_entry;
use crate::json::opt_entry;
use crate::json::opt_u64_entry;
use crate::queries::aggs_opt;
use crate::queries::context_opt;
use crate::queries::filter_opt;
use crate::queries::post_aggs_opt;
use crate::queries::vcols_opt;

/// A timeseries query, built from its mandatory fields and grown with one
/// setter call per optional field; a field never set is left off the
/// wire.
pub struct Timeseries {
    pub query_type: String,
    pub data_source: DataSource,
    pub intervals: Vec<Interval>,
    pub granularity: Granularity,
    pub descending: Option<bool>,
    pub filter: Option<Filter>,
    pub aggregations: Option<Vec<Aggregator>>,
    pub post_aggregations: Option<Vec<PostAggregator>>,
    pub limit: Option<usize>,
    pub virtual_columns: Option<Vec<VirtaulColumn>>,
    pub context: Option<Context>,
}

impl Timeseries {
    /// A new timeseries query with every optional field unset.
    pub fn new(data_source: DataSource, intervals: Vec<Interval>, granularity: Granularity) -> (r: Self)
        ensures
            ({
            &&& r.query_type@ == "timeseries"@
            &&& r.data_source == data_source
            &&& r.intervals == intervals
            &&& r.granularity == granularity
            &&& r.descending is None
            &&& r.filter is None
            &&& r.aggregations is None
            &&& r.post_aggregations is None
            &&& r.limit is None
            &&& r.virtual_columns is None
            &&& r.context is None
            }),
    {
        Self {
            query_type: String::from_str("timeseries"),
            data_source,
            intervals,
            granularity,
            descending: None,
            filter: None,
            aggregations: None,
            post_aggregations: None,
            limit: None,
            virtual_columns: None,
            context: None,
        }
    }

    /// Set the `descending` field.
    pub fn descending(self, descending: bool) -> (r: Self)
        ensures
            r == (Timeseries { descending: Some(descending), ..self }),
    {
        Self { descending: Some(descending), ..self }
    }

    /// Set the `filter` field.
    pub fn filter(self, filter: Filter) -> (r: Self)
        ensures
            r == (Timeseries { filter: Some(filter), ..self }),
    {
        Self { filter: Some(filter), ..self }
    }

    /// Set the `aggregations` field.
    pub fn aggregations(self, aggregations: Vec<Aggregator>) -> (r: Self)
        ensures
            r == (Timeseries { aggregations: Some(aggregations), ..self }),
    {
        Self { aggregations: Some(aggregations), ..self }
    }

    /// Set the `postAggregations` field.
    pub fn post_aggregations(self, post_aggregations: Vec<PostAggregator>) -> (r: Self)
        ensures
            r == (Timeseries { post_aggregations: Some(post_aggregations), ..self }),
    {
        Self { post_aggregations: Some(post_aggregations), ..self }
    }

    /// Set the `limit` field.
    pub fn limit(self, limit: usize) -> (r: Self)
        ensures
            r == (Timeseries { limit: Some(limit), ..self }),
    {
        Self { limit: Some(limit), ..self }
    }

    /// Set the `virtualColumns` field.
    pub fn virtual_columns(self, virtual_columns: Vec<VirtaulColumn>) -> (r: Self)
        ensures
            r == (Timeseries { virtual_columns: Some(virtual_columns), ..self }),
    {
        Self { virtual_columns: Some(virtual_columns), ..self }
    }

    /// Set the `context` field.
    pub fn context(self, context: Context) -> (r: Self)
        ensures
            r == (Timeseries { context: Some(context), ..self }),
    {
        Self { context: Some(context), ..self }
    }

    /// This query's JSON wire form.
    pub fn to_json(&self) -> (r: JsonValue)
        ensures
            r@ == timeseries_jsonv(*self),
        decreases *self,
    {
        let mut b = ObjBuilder::new();
        b.field("queryType", jstring(self.query_type.clone()));
        b.field("dataSource", self.data_source.to_json());
        b.field("intervals", intervals_to_json(&self.intervals));
        b.field("granularity", self.granularity.to_json());
        b.field_opt_bool("descending", &self.descending);
        if let Some(x) = &self.filter {
            b.field("filter", x.to_json());
        }
        if let Some(x) = &self.aggregations {
            b.field("aggregations", aggs_to_json(x));
        }
        if let Some(x) = &self.post_aggregations {
            b.field("postAggregations", post_aggs_to_json(x));
        }
        b.field_opt_usize("limit", &self.limit);
        if let Some(x) = &self.virtual_columns {
            b.field("virtualColumns", virtual_columns_to_json(x));
        }
        if let Some(x) = &self.context {
            b.field("context", x.to_json());
        }
        b.finish()
    }
}

/// The JSON wire form of a timeseries query.
pub open spec fn timeseries_jsonv(t: Timeseries) -> JsonV
    decreases t,
{
    let es = Seq::empty().push(("queryType"@, JsonV::Str(t.query_type@)));
    let es = es.push(("dataSource"@, datasource_jsonv(t.data_source)));
    let es = es.push(("intervals"@, JsonV::Arr(intervals_jsonv(t.intervals@))));
    let es = es.push(("granularity"@, granularity_jsonv(t.granularity)));
    let es = opt_bool_entry(es, "descending"@, t.descending);
    let es = opt_entry(es, "filter"@, filter_opt(t.filter));
    let es = opt_entry(es, "aggregations"@, aggs_opt(t.aggregations));
    let es = opt_entry(es, "postAggregations"@, post_aggs_opt(t.post_aggregations));
    let es = opt_u64_entry(es, "limit"@, (match t.limit {
        Some(n) => Some(n as u64),
        None => None,
    }));
    let es = opt_entry(es, "virtualColumns"@, vcols_opt(t.virtual_columns));
    let es = opt_entry(es, "context"@, context_opt(t.context));
    JsonV::Obj(es)
}

} // verus!
