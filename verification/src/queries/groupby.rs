//! The groupBy query envelope.

use vstd::prelude::*;

verus! {

use crate::components::aggregations::Aggregator;
use crate::components::aggregations::aggs_to_json;
use crate::components::context::Context;
use crate::components::data_sources::DataSource;
use crate::components::data_sources::datasource_jsonv;
use crate::components::dimension_specs::DimensionSpec;
use crate::components::dimension_specs::dim_specs_jsonv;
use crate::components::dimension_specs::dim_specs_to_json;
use crate::components::filters::Filter;
use crate::components::granularities::Granularity;
use crate::components::granularities::granularity_jsonv;
use crate::components::having_specs::HavingSpec;
use crate::components::intervals::Interval;
use crate::components::intervals::intervals_jsonv;
use crate::components::intervals::intervals_to_json;
use crate::components::limit_specs::LimitSpec;
use crate::components::post_aggregations::PostAggregator;
use crate::components::post_aggregations::post_aggs_to_json;
use crate::components::virtual_columns::VirtaulColumn;
use crate::components::virtual_columns::virtual_columns_to_json;
use crate::json::JsonV;
use crate::json::JsonValue;
use crate::json::ObjBuilder;
use crate::json::jstring;
use crate::json::opt_entry;
use crate::json::str_lists_to_json;
use crate::queries::aggs_opt;
use crate::queries::context_opt;
use crate::queries::filter_opt;
use crate::queries::having_opt;
use crate::queries::limit_spec_opt;
use crate::queries::post_aggs_opt;
use crate::queries::str_lists_opt;
use crate::queries::vcols_opt;

/// A groupBy query, built from its mandatory fields and grown with one
/// setter call per optional field; a field never set is left off the
/// wire.
pub struct GroupBy {
    pub query_type: String,
    pub data_source: DataSource,
    pub intervals: Vec<Interval>,
    pub granularity: Granularity,
    pub dimensions: Vec<DimensionSpec>,
    pub limit_spec: Option<LimitSpec>,
    pub having: Option<HavingSpec>,
    pub filter: Option<Filter>,
    pub aggregations: Option<Vec<Aggregator>>,
    pub post_aggregations: Option<Vec<PostAggregator>>,
    pub subtotals_spec: Option<Vec<Vec<String>>>,
    pub virtual_columns: Option<Vec<VirtaulColumn>>,
    pub context: Option<Context>,
}

impl GroupBy {
    /// A new groupBy query with every optional field unset.
    pub fn new(data_source: DataSource, intervals: Vec<Interval>, granularity: Granularity, dimensions: Vec<DimensionSpec>) -> (r: Self)
        ensures
            ({
            &&& r.query_type@ == "groupBy"@
            &&& r.data_source == data_source
            &&& r.intervals == intervals
            &&& r.granularity == granularity
            &&& r.dimensions == dimensions
            &&& r.limit_spec is None
            &&& r.having is None
            &&& r.filter is None
            &&& r.aggregations is None
            &&& r.post_aggregations is None
            &&& r.subtotals_spec is None
            &&& r.virtual_columns is None
            &&& r.context is None
            }),
    {
        Self {
            query_type: String::from_str("groupBy"),
            data_source,
            intervals,
            granularity,
            dimensions,
            limit_spec: None,
            having: None,
            filter: None,
            aggregations: None,
            post_aggregations: None,
            subtotals_spec: None,
            virtual_columns: None,
            context: None,
        }
    }

    /// Set the `limitSpec` field.
    pub fn limit_spec(self, limit_spec: LimitSpec) -> (r: Self)
        ensures
            r == (GroupBy { limit_spec: Some(limit_spec), ..self }),
    {
        Self { limit_spec: Some(limit_spec), ..self }
    }

    /// Set the `having` field.
    pub fn having(self, having: HavingSpec) -> (r: Self)
        ensures
            r == (GroupBy { having: Some(having), ..self }),
    {
        Self { having: Some(having), ..self }
    }

    /// Set the `filter` field.
    pub fn filter(self, filter: Filter) -> (r: Self)
        ensures
            r == (GroupBy { filter: Some(filter), ..self }),
    {
        Self { filter: Some(filter), ..self }
    }

    /// Set the `aggregations` field.
    pub fn aggregations(self, aggregations: Vec<Aggregator>) -> (r: Self)
        ensures
            r == (GroupBy { aggregations: Some(aggregations), ..self }),
    {
        Self { aggregations: Some(aggregations), ..self }
    }

    /// Set the `postAggregations` field.
    pub fn post_aggregations(self, post_aggregations: Vec<PostAggregator>) -> (r: Self)
        ensures
            r == (GroupBy { post_aggregations: Some(post_aggregations), ..self }),
    {
        Self { post_aggregations: Some(post_aggregations), ..self }
    }

    /// Set the `subtotalsSpec` field.
    pub fn subtotals_spec(self, subtotals_spec: Vec<Vec<String>>) -> (r: Self)
        ensures
            r == (GroupBy { subtotals_spec: Some(subtotals_spec), ..self }),
    {
        Self { subtotals_spec: Some(subtotals_spec), ..self }
    }

    /// Set the `virtualColumns` field.
    pub fn virtual_columns(self, virtual_columns: Vec<VirtaulColumn>) -> (r: Self)
        ensures
            r == (GroupBy { virtual_columns: Some(virtual_columns), ..self }),
    {
        Self { virtual_columns: Some(virtual_columns), ..self }
    }

    /// Set the `context` field.
    pub fn context(self, context: Context) -> (r: Self)
        ensures
            r == (GroupBy { context: Some(context), ..self }),
    {
        Self { context: Some(context), ..self }
    }

    /// This query's JSON wire form.
    pub fn to_json(&self) -> (r: JsonValue)
        ensures
            r@ == groupby_jsonv(*self),
        decreases *self,
    {
        let mut b = ObjBuilder::new();
        b.field("queryType", jstring(self.query_type.clone()));
        b.field("dataSource", self.data_source.to_json());
        b.field("intervals", intervals_to_json(&self.intervals));
        b.field("granularity", self.granularity.to_json());
        b.field("dimensions", dim_specs_to_json(&self.dimensions));
        if let Some(x) = &self.limit_spec {
            b.field("limitSpec", x.to_json());
        }
        if let Some(x) = &self.having {
            b.field("having", x.to_json());
        }
        if let Some(x) = &self.filter {
            b.field("filter", x.to_json());
        }
        if let Some(x) = &self.aggregations {
            b.field("aggregations", aggs_to_json(x));
        }
        if let Some(x) = &self.post_aggregations {
            b.field("postAggregations", post_aggs_to_json(x));
        }
        if let Some(x) = &self.subtotals_spec {
            b.field("subtotalsSpec", str_lists_to_json(x));
        }
        if let Some(x) = &self.virtual_columns {
            b.field("virtualColumns", virtual_columns_to_json(x));
        }
        if let Some(x) = &self.context {
            b.field("context", x.to_json());
        }
        b.finish()
    }
}

/// The JSON wire form of a groupBy query.
pub open spec fn groupby_jsonv(t: GroupBy) -> JsonV
    decreases t,
{
    let es = Seq::empty().push(("queryType"@, JsonV::Str(t.query_type@)));
    let es = es.push(("dataSource"@, datasource_jsonv(t.data_source)));
    let es = es.push(("intervals"@, JsonV::Arr(intervals_jsonv(t.intervals@))));
    let es = es.push(("granularity"@, granularity_jsonv(t.granularity)));
    let es = es.push(("dimensions"@, JsonV::Arr(dim_specs_jsonv(t.dimensions@))));
    let es = opt_entry(es, "limitSpec"@, limit_spec_opt(t.limit_spec));
    let es = opt_entry(es, "having"@, having_opt(t.having));
    let es = opt_entry(es, "filter"@, filter_opt(t.filter));
    let es = opt_entry(es, "aggregations"@, aggs_opt(t.aggregations));
    let es = opt_entry(es, "postAggregations"@, post_aggs_opt(t.post_aggregations));
    let es = opt_entry(es, "subtotalsSpec"@, str_lists_opt(t.subtotals_spec));
    let es = opt_entry(es, "virtualColumns"@, vcols_opt(t.virtual_columns));
    let es = opt_entry(es, "context"@, context_opt(t.context));
    JsonV::Obj(es)
}

} // verus!
