//! The segmentMetadata query envelope.

use vstd::prelude::*;

verus! {

use crate::components::context::Context;
use crate::components::data_sources::DataSource;
use crate::components::data_sources::datasource_jsonv;
use crate::components::intervals::Interval;
use crate::components::intervals::intervals_to_json;
use crate::components::to_include::ToInclude;
use crate::components::virtual_columns::VirtaulColumn;
use crate::components::virtual_columns::virtual_columns_to_json;
use crate::json::JsonV;
use crate::json::JsonValue;
use crate::json::ObjBuilder;
use crate::json::jstring;
use crate::json::opt_bool_entry;
use crate::json::opt_entry;
use crate::json::strs_to_json;
use crate::queries::context_opt;
use crate::queries::intervals_opt;
use crate::queries::strs_opt;
use crate::queries::to_include_opt;
use crate::queries::vcols_opt;

/// A segmentMetadata query, built from its mandatory fields and grown with one
/// setter call per optional field; a field never set is left off the
/// wire.
pub struct SegmentMetadata {
    pub query_type: String,
    pub data_source: DataSource,
    pub intervals: Option<Vec<Interval>>,
    pub to_include: Option<ToInclude>,
    pub merge: Option<bool>,
    pub analysis_types: Option<Vec<String>>,
    pub lenient_aggregator_merge: Option<bool>,
    pub virtual_columns: Option<Vec<VirtaulColumn>>,
    pub context: Option<Context>,
}

impl SegmentMetadata {
    /// A new segmentMetadata query with every optional field unset.
    pub fn new(data_source: DataSource) -> (r: Self)
        ensures
            ({
            &&& r.query_type@ == "segmentMetadata"@
            &&& r.data_source == data_source
            &&& r.intervals is None
            &&& r.to_include is None
            &&& r.merge is None
            &&& r.analysis_types is None
            &&& r.lenient_aggregator_merge is None
            &&& r.virtual_columns is None
            &&& r.context is None
            }),
    {
        Self {
            query_type: String::from_str("segmentMetadata"),
            data_source,
            intervals: None,
            to_include: None,
            merge: None,
            analysis_types: None,
            lenient_aggregator_merge: None,
            virtual_columns: None,
            context: None,
        }
    }

    /// Set the `intervals` field.
    pub fn intervals(self, intervals: Vec<Interval>) -> (r: Self)
        ensures
            r == (SegmentMetadata { intervals: Some(intervals), ..self }),
    {
        Self { intervals: Some(intervals), ..self }
    }

    /// Set the `toInclude` field.
    pub fn to_include(self, to_include: ToInclude) -> (r: Self)
        ensures
            r == (SegmentMetadata { to_include: Some(to_include), ..self }),
    {
        Self { to_include: Some(to_include), ..self }
    }

    /// Set the `merge` field.
    pub fn merge(self, merge: bool) -> (r: Self)
        ensures
            r == (SegmentMetadata { merge: Some(merge), ..self }),
    {
        Self { merge: Some(merge), ..self }
    }

    /// Set the `analysisTypes` field.
    pub fn analysis_types(self, analysis_types: Vec<String>) -> (r: Self)
        ensures
            r == (SegmentMetadata { analysis_types: Some(analysis_types), ..self }),
    {
        Self { analysis_types: Some(analysis_types), ..self }
    }

    /// Set the `lenientAggregatorMerge` field.
    pub fn lenient_aggregator_merge(self, lenient_aggregator_merge: bool) -> (r: Self)
        ensures
            r == (SegmentMetadata { lenient_aggregator_merge: Some(lenient_aggregator_merge), ..self }),
    {
        Self { lenient_aggregator_merge: Some(lenient_aggregator_merge), ..self }
    }

    /// Set the `virtualColumns` field.
    pub fn virtual_columns(self, virtual_columns: Vec<VirtaulColumn>) -> (r: Self)
        ensures
            r == (SegmentMetadata { virtual_columns: Some(virtual_columns), ..self }),
    {
        Self { virtual_columns: Some(virtual_columns), ..self }
    }

    /// Set the `context` field.
    pub fn context(self, context: Context) -> (r: Self)
        ensures
            r == (SegmentMetadata { context: Some(context), ..self }),
    {
        Self { context: Some(context), ..self }
    }

    /// This query's JSON wire form.
    pub fn to_json(&self) -> (r: JsonValue)
        ensures
            r@ == segment_metadata_jsonv(*self),
        decreases *self,
    {
        let mut b = ObjBuilder::new();
        b.field("queryType", jstring(self.query_type.clone()));
        b.field("dataSource", self.data_source.to_json());
        if let Some(x) = &self.intervals {
            b.field("intervals", intervals_to_json(x));
        }
        if let Some(x) = &self.to_include {
            b.field("toInclude", x.to_json());
        }
        b.field_opt_bool("merge", &self.merge);
        if let Some(x) = &self.analysis_types {
            b.field("analysisTypes", strs_to_json(x));
        }
        b.field_opt_bool("lenientAggregatorMerge", &self.lenient_aggregator_merge);
        if let Some(x) = &self.virtual_columns {
            b.field("virtualColumns", virtual_columns_to_json(x));
        }
        if let Some(x) = &self.context {
            b.field("context", x.to_json());
        }
        b.finish()
    }
}

/// The JSON wire form of a segmentMetadata query.
pub open spec fn segment_metadata_jsonv(t: SegmentMetadata) -> JsonV
    decreases t,
{
    let es = Seq::empty().push(("queryType"@, JsonV::Str(t.query_type@)));
    let es = es.push(("dataSource"@, datasource_jsonv(t.data_source)));
    let es = opt_entry(es, "intervals"@, intervals_opt(t.intervals));
    let es = opt_entry(es, "toInclude"@, to_include_opt(t.to_include));
    let es = opt_bool_entry(es, "merge"@, t.merge);
    let es = opt_entry(es, "analysisTypes"@, strs_opt(t.analysis_types));
    let es = opt_bool_entry(es, "lenientAggregatorMerge"@, t.lenient_aggregator_merge);
    let es = opt_entry(es, "virtualColumns"@, vcols_opt(t.virtual_columns));
    let es = opt_entry(es, "context"@, context_opt(t.context));
    JsonV::Obj(es)
}

} // verus!
