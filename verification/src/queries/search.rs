//! The search query envelope.

use vstd::prelude::*;

verus! {

use crate::components::context::Context;
use crate::components::data_sources::DataSource;
use crate::components::data_sources::datasource_jsonv;
use crate::components::filters::Filter;
use crate::components::granularities::Granularity;
use crate::components::intervals::Interval;
use crate::components::intervals::intervals_jsonv;
use crate::components::intervals::intervals_to_json;
use crate::components::search_query_specs::SearchQuerySpec;
use crate::components::search_query_specs::search_query_spec_jsonv;
use crate::components::virtual_columns::VirtaulColumn;
use crate::components::virtual_columns::virtual_columns_to_json;
use crate::json::JsonV;
use crate::json::JsonValue;
use crate::json::ObjBuilder;
use crate::json::jstring;
use crate::json::opt_entry;
use crate::json::opt_str_entry;
use crate::json::opt_u64_entry;
use crate::json::strs_to_json;
use crate::queries::context_opt;
use crate::queries::filter_opt;
use crate::queries::granularity_opt;
use crate::queries::strs_opt;
use crate::queries::vcols_opt;

/// A search query, built from its mandatory fields and grown with one
/// setter call per optional field; a field never set is left off the
/// wire.
pub struct Search {
    pub query_type: String,
    pub data_source: DataSource,
    pub intervals: Vec<Interval>,
    pub query: SearchQuerySpec,
    pub granularity: Option<Granularity>,
    pub filter: Option<Filter>,
    pub limit: Option<usize>,
    pub search_dimensions: Option<Vec<String>>,
    pub sort: Option<String>,
    pub virtual_columns: Option<Vec<VirtaulColumn>>,
    pub context: Option<Context>,
}

impl Search {
    /// A new search query with every optional field unset.
    pub fn new(data_source: DataSource, intervals: Vec<Interval>, query: SearchQuerySpec) -> (r: Self)
        ensures
            ({
            &&& r.query_type@ == "search"@
            &&& r.data_source == data_source
            &&& r.intervals == intervals
            &&& r.query == query
            &&& r.granularity is None
            &&& r.filter is None
            &&& r.limit is None
            &&& r.search_dimensions is None
            &&& r.sort is None
            &&& r.virtual_columns is None
            &&& r.context is None
            }),
    {
        Self {
            query_type: String::from_str("search"),
            data_source,
            intervals,
            query,
            granularity: None,
            filter: None,
            limit: None,
            search_dimensions: None,
            sort: None,
            virtual_columns: None,
            context: None,
        }
    }

    /// Set the `granularity` field.
    pub fn granularity(self, granularity: Granularity) -> (r: Self)
        ensures
            r == (Search { granularity: Some(granularity), ..self }),
    {
        Self { granularity: Some(granularity), ..self }
    }

    /// Set the `filter` field.
    pub fn filter(self, filter: Filter) -> (r: Self)
        ensures
            r == (Search { filter: Some(filter), ..self }),
    {
        Self { filter: Some(filter), ..self }
    }

    /// Set the `limit` field.
    pub fn limit(self, limit: usize) -> (r: Self)
        ensures
            r == (Search { limit: Some(limit), ..self }),
    {
        Self { limit: Some(limit), ..self }
    }

    /// Set the `searchDimensions` field.
    pub fn search_dimensions(self, search_dimensions: Vec<String>) -> (r: Self)
        ensures
            r == (Search { search_dimensions: Some(search_dimensions), ..self }),
    {
        Self { search_dimensions: Some(search_dimensions), ..self }
    }

    /// Set the `sort` field.
    pub fn sort(self, sort: String) -> (r: Self)
        ensures
            r == (Search { sort: Some(sort), ..self }),
    {
        Self { sort: Some(sort), ..self }
    }

    /// Set the `virtualColumns` field.
    pub fn virtual_columns(self, virtual_columns: Vec<VirtaulColumn>) -> (r: Self)
        ensures
            r == (Search { virtual_columns: Some(virtual_columns), ..self }),
    {
        Self { virtual_columns: Some(virtual_columns), ..self }
    }

    /// Set the `context` field.
    pub fn context(self, context: Context) -> (r: Self)
        ensures
            r == (Search { context: Some(context), ..self }),
    {
        Self { context: Some(context), ..self }
    }

    /// This query's JSON wire form.
    pub fn to_json(&self) -> (r: JsonValue)
        ensures
            r@ == search_jsonv(*self),
        decreases *self,
    {
        let mut b = ObjBuilder::new();
        b.field("queryType", jstring(self.query_type.clone()));
        b.field("dataSource", self.data_source.to_json());
        b.field("intervals", intervals_to_json(&self.intervals));
        b.field("query", self.query.to_json());
        if let Some(x) = &self.granularity {
            b.field("granularity", x.to_json());
        }
        if let Some(x) = &self.filter {
            b.field("filter", x.to_json());
        }
        b.field_opt_usize("limit", &self.limit);
        if let Some(x) = &self.search_dimensions {
            b.field("searchDimensions", strs_to_json(x));
        }
        b.field_opt_string("sort", &self.sort);
        if let Some(x) = &self.virtual_columns {
            b.field("virtualColumns", virtual_columns_to_json(x));
        }
        if let Some(x) = &self.context {
            b.field("context", x.to_json());
        }
        b.finish()
    }
}

/// The JSON wire form of a search query.
pub open spec fn search_jsonv(t: Search) -> JsonV
    decreases t,
{
    let es = Seq::empty().push(("queryType"@, JsonV::Str(t.query_type@)));
    let es = es.push(("dataSource"@, datasource_jsonv(t.data_source)));
    let es = es.push(("intervals"@, JsonV::Arr(intervals_jsonv(t.intervals@))));
    let es = es.push(("query"@, search_query_spec_jsonv(t.query)));
    let es = opt_entry(es, "granularity"@, granularity_opt(t.granularity));
    let es = opt_entry(es, "filter"@, filter_opt(t.filter));
    let es = opt_u64_entry(es, "limit"@, (match t.limit {
        Some(n) => Some(n as u64),
        None => None,
    }));
    let es = opt_entry(es, "searchDimensions"@, strs_opt(t.search_dimensions));
    let es = opt_str_entry(es, "sort"@, t.sort.deep_view());
    let es = opt_entry(es, "virtualColumns"@, vcols_opt(t.virtual_columns));
    let es = opt_entry(es, "context"@, context_opt(t.context));
    JsonV::Obj(es)
}

} // verus!
