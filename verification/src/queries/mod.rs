//! The query envelopes, the unified query type, and the response model.

use vstd::prelude::*;

pub mod datasource_metadata;
pub mod groupby;
pub mod scan;
pub mod search;
pub mod segment_metadata;
pub mod sql;
pub mod time_boundary;
pub mod response;
pub mod timeseries;
pub mod topn;

verus! {

use crate::components::aggregations::Aggregator;
use crate::components::aggregations::aggs_jsonv;
use crate::components::context::Context;
use crate::components::context::context_jsonv;
use crate::components::druid_types::DruidSqlType;
use crate::components::druid_types::sql_types_jsonv;
use crate::components::filters::Filter;
use crate::components::filters::filter_jsonv;
use crate::components::granularities::Granularity;
use crate::components::granularities::granularity_jsonv;
use crate::components::having_specs::HavingSpec;
use crate::components::having_specs::having_spec_jsonv;
use crate::components::intervals::Interval;
use crate::components::intervals::intervals_jsonv;
use crate::components::limit_specs::LimitSpec;
use crate::components::limit_specs::limit_spec_jsonv;
use crate::components::post_aggregations::PostAggregator;
use crate::components::post_aggregations::post_aggs_jsonv;
use crate::components::to_include::ToInclude;
use crate::components::to_include::to_include_jsonv;
use crate::components::virtual_columns::VirtaulColumn;
use crate::components::virtual_columns::virtual_columns_jsonv;
use crate::json::JsonV;
use crate::json::JsonValue;
use crate::json::ObjBuilder;
use crate::json::strs_jsonv;
use crate::json::str_lists_jsonv;
use crate::queries::datasource_metadata::DataSourceMetadata;
use crate::queries::datasource_metadata::datasource_metadata_jsonv;
use crate::queries::groupby::GroupBy;
use crate::queries::groupby::groupby_jsonv;
use crate::queries::scan::Scan;
use crate::queries::scan::scan_jsonv;
use crate::queries::search::Search;
use crate::queries::search::search_jsonv;
use crate::queries::segment_metadata::SegmentMetadata;
use crate::queries::segment_metadata::segment_metadata_jsonv;
use crate::queries::sql::Sql;
use crate::queries::sql::sql_jsonv;
use crate::queries::time_boundary::TimeBoundary;
use crate::queries::time_boundary::time_boundary_jsonv;
use crate::queries::timeseries::Timeseries;
use crate::queries::timeseries::timeseries_jsonv;
use crate::queries::topn::TopN;
use crate::queries::topn::topn_jsonv;

/// One query of any kind, ready for dispatch.
pub enum Query {
    Timeseries(Timeseries),
    TopN(Box<TopN>),
    GroupBy(Box<GroupBy>),
    Scan(Scan),
    Search(Search),
    TimeBoundary(TimeBoundary),
    SegmentMetadata(SegmentMetadata),
    DataSourceMetadata(DataSourceMetadata),
    Sql(Sql),
}

/// The kind name a query goes under when it stands inside another value.
pub open spec fn query_tag(q: Query) -> Seq<char> {
    match q {
        Query::Timeseries(_) => "timeseries"@,
        Query::TopN(_) => "topN"@,
        Query::GroupBy(_) => "groupBy"@,
        Query::Scan(_) => "scan"@,
        Query::Search(_) => "search"@,
        Query::TimeBoundary(_) => "timeBoundary"@,
        Query::SegmentMetadata(_) => "segmentMetadata"@,
        Query::DataSourceMetadata(_) => "dataSourceMetadata"@,
        Query::Sql(_) => "sql"@,
    }
}

/// The JSON wire form of the query's envelope itself.
pub open spec fn query_body_jsonv(q: Query) -> JsonV
    decreases q,
{
    match q {
        Query::Timeseries(t) => timeseries_jsonv(t),
        Query::TopN(t) => topn_jsonv(*t),
        Query::GroupBy(g) => groupby_jsonv(*g),
        Query::Scan(s) => scan_jsonv(s),
        Query::Search(s) => search_jsonv(s),
        Query::TimeBoundary(t) => time_boundary_jsonv(t),
        Query::SegmentMetadata(s) => segment_metadata_jsonv(s),
        Query::DataSourceMetadata(d) => datasource_metadata_jsonv(d),
        Query::Sql(s) => sql_jsonv(s),
    }
}

/// The JSON form of a query standing on its own: one object holding the
/// envelope under the query's kind name.
pub open spec fn query_jsonv(q: Query) -> JsonV {
    JsonV::Obj(Seq::empty().push((query_tag(q), query_body_jsonv(q))))
}

impl Query {
    /// The kind name of this query.
    pub fn tag_name(&self) -> (r: String)
        ensures
            r@ == query_tag(*self),
    {
        match self {
            Query::Timeseries(_) => String::from_str("timeseries"),
            Query::TopN(_) => String::from_str("topN"),
            Query::GroupBy(_) => String::from_str("groupBy"),
            Query::Scan(_) => String::from_str("scan"),
            Query::Search(_) => String::from_str("search"),
            Query::TimeBoundary(_) => String::from_str("timeBoundary"),
            Query::SegmentMetadata(_) => String::from_str("segmentMetadata"),
            Query::DataSourceMetadata(_) => String::from_str("dataSourceMetadata"),
            Query::Sql(_) => String::from_str("sql"),
        }
    }

    /// This query's envelope as JSON: what is posted to the server.
    pub fn body_json(&self) -> (r: JsonValue)
        ensures
            r@ == query_body_jsonv(*self),
        decreases *self,
    {
        match self {
            Query::Timeseries(t) => t.to_json(),
            Query::TopN(t) => t.to_json(),
            Query::GroupBy(g) => g.to_json(),
            Query::Scan(s) => s.to_json(),
            Query::Search(s) => s.to_json(),
            Query::TimeBoundary(t) => t.to_json(),
            Query::SegmentMetadata(s) => s.to_json(),
            Query::DataSourceMetadata(d) => d.to_json(),
            Query::Sql(s) => s.to_json(),
        }
    }

    /// This query as JSON when it stands on its own, tagged with its kind
    /// name.
    pub fn to_json(&self) -> (r: JsonValue)
        ensures
            r@ == query_jsonv(*self),
    {
        let mut b = ObjBuilder::new();
        b.field_owned_key(self.tag_name(), self.body_json());
        b.finish()
    }
}

impl From<Timeseries> for Query {
    fn from(timeseries_query: Timeseries) -> (r: Self) {
        Query::Timeseries(timeseries_query)
    }
}

impl vstd::std_specs::convert::FromSpecImpl<Timeseries> for Query {
    open spec fn obeys_from_spec() -> bool {
        true
    }

    open spec fn from_spec(t: Timeseries) -> Query {
        Query::Timeseries(t)
    }
}

impl From<TopN> for Query {
    fn from(topn_query: TopN) -> (r: Self) {
        Query::TopN(Box::new(topn_query))
    }
}

impl vstd::std_specs::convert::FromSpecImpl<TopN> for Query {
    open spec fn obeys_from_spec() -> bool {
        true
    }

    open spec fn from_spec(t: TopN) -> Query {
        Query::TopN(Box::new(t))
    }
}

impl From<Box<TopN>> for Query {
    fn from(topn_query: Box<TopN>) -> (r: Self) {
        Query::TopN(topn_query)
    }
}

impl vstd::std_specs::convert::FromSpecImpl<Box<TopN>> for Query {
    open spec fn obeys_from_spec() -> bool {
        true
    }

    open spec fn from_spec(t: Box<TopN>) -> Query {
        Query::TopN(t)
    }
}

impl From<GroupBy> for Query {
    fn from(groupby_query: GroupBy) -> (r: Self) {
        Query::GroupBy(Box::new(groupby_query))
    }
}

impl vstd::std_specs::convert::FromSpecImpl<GroupBy> for Query {
    open spec fn obeys_from_spec() -> bool {
        true
    }

    open spec fn from_spec(t: GroupBy) -> Query {
        Query::GroupBy(Box::new(t))
    }
}

impl From<Box<GroupBy>> for Query {
    fn from(groupby_query: Box<GroupBy>) -> (r: Self) {
        Query::GroupBy(groupby_query)
    }
}

impl vstd::std_specs::convert::FromSpecImpl<Box<GroupBy>> for Query {
    open spec fn obeys_from_spec() -> bool {
        true
    }

    open spec fn from_spec(t: Box<GroupBy>) -> Query {
        Query::GroupBy(t)
    }
}

impl From<Scan> for Query {
    fn from(scan_query: Scan) -> (r: Self) {
        Query::Scan(scan_query)
    }
}

impl vstd::std_specs::convert::FromSpecImpl<Scan> for Query {
    open spec fn obeys_from_spec() -> bool {
        true
    }

    open spec fn from_spec(t: Scan) -> Query {
        Query::Scan(t)
    }
}

impl From<Search> for Query {
    fn from(search_query: Search) -> (r: Self) {
        Query::Search(search_query)
    }
}

impl vstd::std_specs::convert::FromSpecImpl<Search> for Query {
    open spec fn obeys_from_spec() -> bool {
        true
    }

    open spec fn from_spec(t: Search) -> Query {
        Query::Search(t)
    }
}

impl From<TimeBoundary> for Query {
    fn from(timeboundary_query: TimeBoundary) -> (r: Self) {
        Query::TimeBoundary(timeboundary_query)
    }
}

impl vstd::std_specs::convert::FromSpecImpl<TimeBoundary> for Query {
    open spec fn obeys_from_spec() -> bool {
        true
    }

    open spec fn from_spec(t: TimeBoundary) -> Query {
        Query::TimeBoundary(t)
    }
}

impl From<SegmentMetadata> for Query {
    fn from(segment_metadata_query: SegmentMetadata) -> (r: Self) {
        Query::SegmentMetadata(segment_metadata_query)
    }
}

impl vstd::std_specs::convert::FromSpecImpl<SegmentMetadata> for Query {
    open spec fn obeys_from_spec() -> bool {
        true
    }

    open spec fn from_spec(t: SegmentMetadata) -> Query {
        Query::SegmentMetadata(t)
    }
}

impl From<DataSourceMetadata> for Query {
    fn from(datasource_metadata_query: DataSourceMetadata) -> (r: Self) {
        Query::DataSourceMetadata(datasource_metadata_query)
    }
}

impl vstd::std_specs::convert::FromSpecImpl<DataSourceMetadata> for Query {
    open spec fn obeys_from_spec() -> bool {
        true
    }

    open spec fn from_spec(t: DataSourceMetadata) -> Query {
        Query::DataSourceMetadata(t)
    }
}

impl From<Sql> for Query {
    fn from(sql_query: Sql) -> (r: Self) {
        Query::Sql(sql_query)
    }
}

impl vstd::std_specs::convert::FromSpecImpl<Sql> for Query {
    open spec fn obeys_from_spec() -> bool {
        true
    }

    open spec fn from_spec(t: Sql) -> Query {
        Query::Sql(t)
    }
}

/// An optional filter as an optional JSON value.
pub open spec fn filter_opt(o: Option<Filter>) -> Option<JsonV> {
    match o {
        Some(f) => Some(filter_jsonv(f)),
        None => None,
    }
}

/// An optional aggregator list as an optional JSON value.
pub open spec fn aggs_opt(o: Option<Vec<Aggregator>>) -> Option<JsonV> {
    match o {
        Some(v) => Some(JsonV::Arr(aggs_jsonv(v@))),
        None => None,
    }
}

/// An optional post-aggregator list as an optional JSON value.
pub open spec fn post_aggs_opt(o: Option<Vec<PostAggregator>>) -> Option<JsonV> {
    match o {
        Some(v) => Some(JsonV::Arr(post_aggs_jsonv(v@, v@.len() as int))),
        None => None,
    }
}

/// An optional virtual-column list as an optional JSON value.
pub open spec fn vcols_opt(o: Option<Vec<VirtaulColumn>>) -> Option<JsonV> {
    match o {
        Some(v) => Some(JsonV::Arr(virtual_columns_jsonv(v@))),
        None => None,
    }
}

/// An optional context as an optional JSON value.
pub open spec fn context_opt(o: Option<Context>) -> Option<JsonV> {
    match o {
        Some(c) => Some(context_jsonv(c)),
        None => None,
    }
}

/// An optional granularity as an optional JSON value.
pub open spec fn granularity_opt(o: Option<Granularity>) -> Option<JsonV> {
    match o {
        Some(g) => Some(granularity_jsonv(g)),
        None => None,
    }
}

/// An optional string list as an optional JSON value.
pub open spec fn strs_opt(o: Option<Vec<String>>) -> Option<JsonV> {
    match o {
        Some(v) => Some(JsonV::Arr(strs_jsonv(v@))),
        None => None,
    }
}

/// An optional list of string lists as an optional JSON value.
pub open spec fn str_lists_opt(o: Option<Vec<Vec<String>>>) -> Option<JsonV> {
    match o {
        Some(v) => Some(JsonV::Arr(str_lists_jsonv(v@))),
        None => None,
    }
}

/// An optional limit spec as an optional JSON value.
pub open spec fn limit_spec_opt(o: Option<LimitSpec>) -> Option<JsonV> {
    match o {
        Some(l) => Some(limit_spec_jsonv(l)),
        None => None,
    }
}

/// An optional having spec as an optional JSON value.
pub open spec fn having_opt(o: Option<HavingSpec>) -> Option<JsonV> {
    match o {
        Some(h) => Some(having_spec_jsonv(h)),
        None => None,
    }
}

/// An optional column selection as an optional JSON value.
pub open spec fn to_include_opt(o: Option<ToInclude>) -> Option<JsonV> {
    match o {
        Some(t) => Some(to_include_jsonv(t)),
        None => None,
    }
}

/// An optional interval list as an optional JSON value.
pub open spec fn intervals_opt(o: Option<Vec<Interval>>) -> Option<JsonV> {
    match o {
        Some(v) => Some(JsonV::Arr(intervals_jsonv(v@))),
        None => None,
    }
}

/// An optional SQL parameter list as an optional JSON value.
pub open spec fn sql_params_opt(o: Option<Vec<DruidSqlType>>) -> Option<JsonV> {
    match o {
        Some(v) => Some(JsonV::Arr(sql_types_jsonv(v@))),
        None => None,
    }
}

} // verus!
