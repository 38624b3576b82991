//! The scan query envelope.

use vstd::prelude::*;

verus! {

use crate::components::context::Context;
use crate::components::data_sources::DataSource;
use crate::components::data_sources::datasource_jsonv;
use crate::components::filters::Filter;
use crate::components::intervals::Interval;
use crate::components::intervals::intervals_jsonv;
use crate::components::intervals::intervals_to_json;
use crate::components::virtual_columns::VirtaulColumn;
use crate::components::virtual_columns::virtual_columns_to_json;
use crate::json::JsonV;
use crate::json::JsonValue;
use crate::json::ObjBuilder;
use crate::json::jstring;
use crate::json::opt_bool_entry;
use crate::json::opt_entry;
use crate::json::opt_str_entry;
use crate::json::opt_u64_entry;
use crate::json::strs_to_json;
use crate::queries::context_opt;
use crate::queries::filter_opt;
use crate::queries::strs_opt;
use crate::queries::vcols_opt;

/// A scan query, built from its mandatory fields and grown with one
/// setter call per optional field; a field never set is left off the
/// wire.
pub struct Scan {
    pub query_type: String,
    pub data_source: DataSource,
    pub intervals: Vec<Interval>,
    pub result_format: Option<String>,
    pub filter: Option<Filter>,
    pub columns: Option<Vec<String>>,
    pub batch_size: Option<usize>,
    pub limit: Option<usize>,
    pub offset: Option<usize>,
    pub order: Option<String>,
    pub legacy: Option<bool>,
    pub virtual_columns: Option<Vec<VirtaulColumn>>,
    pub context: Option<Context>,
}

impl Scan {
    /// A new scan query with every optional field unset.
    pub fn new(data_source: DataSource, intervals: Vec<Interval>) -> (r: Self)
        ensures
            ({
            &&& r.query_type@ == "scan"@
            &&& r.data_source == data_source
            &&& r.intervals == intervals
            &&& r.result_format is None
            &&& r.filter is None
            &&& r.columns is None
            &&& r.batch_size is None
            &&& r.limit is None
            &&& r.offset is None
            &&& r.order is None
            &&& r.legacy is None
            &&& r.virtual_columns is None
            &&& r.context is None
            }),
    {
        Self {
            query_type: String::from_str("scan"),
            data_source,
            intervals,
            result_format: None,
            filter: None,
            columns: None,
            batch_size: None,
            limit: None,
            offset: None,
            order: None,
            legacy: None,
            virtual_columns: None,
            context: None,
        }
    }

    /// Set the `resultFormat` field.
    pub fn result_format(self, result_format: String) -> (r: Self)
        ensures
            r == (Scan { result_format: Some(result_format), ..self }),
    {
        Self { result_format: Some(result_format), ..self }
    }

    /// Set the `filter` field.
    pub fn filter(self, filter: Filter) -> (r: Self)
        ensures
            r == (Scan { filter: Some(filter), ..self }),
    {
        Self { filter: Some(filter), ..self }
    }

    /// Set the `columns` field.
    pub fn columns(self, columns: Vec<String>) -> (r: Self)
        ensures
            r == (Scan { columns: Some(columns), ..self }),
    {
        Self { columns: Some(columns), ..self }
    }

    /// Set the `batchSize` field.
    pub fn batch_size(self, batch_size: usize) -> (r: Self)
        ensures
            r == (Scan { batch_size: Some(batch_size), ..self }),
    {
        Self { batch_size: Some(batch_size), ..self }
    }

    /// Set the `limit` field.
    pub fn limit(self, limit: usize) -> (r: Self)
        ensures
            r == (Scan { limit: Some(limit), ..self }),
    {
        Self { limit: Some(limit), ..self }
    }

    /// Set the `offset` field.
    pub fn offset(self, offset: usize) -> (r: Self)
        ensures
            r == (Scan { offset: Some(offset), ..self }),
    {
        Self { offset: Some(offset), ..self }
    }

    /// Set the `order` field.
    pub fn order(self, order: String) -> (r: Self)
        ensures
            r == (Scan { order: Some(order), ..self }),
    {
        Self { order: Some(order), ..self }
    }

    /// Set the `legacy` field.
    pub fn legacy(self, legacy: bool) -> (r: Self)
        ensures
            r == (Scan { legacy: Some(legacy), ..self }),
    {
        Self { legacy: Some(legacy), ..self }
    }

    /// Set the `virtualColumns` field.
    pub fn virtual_columns(self, virtual_columns: Vec<VirtaulColumn>) -> (r: Self)
        ensures
            r == (Scan { virtual_columns: Some(virtual_columns), ..self }),
    {
        Self { virtual_columns: Some(virtual_columns), ..self }
    }

    /// Set the `context` field.
    pub fn context(self, context: Context) -> (r: Self)
        ensures
            r == (Scan { context: Some(context), ..self }),
    {
        Self { context: Some(context), ..self }
    }

    /// This query's JSON wire form.
    pub fn to_json(&self) -> (r: JsonValue)
        ensures
            r@ == scan_jsonv(*self),
        decreases *self,
    {
        let mut b = ObjBuilder::new();
        b.field("queryType", jstring(self.query_type.clone()));
        b.field("dataSource", self.data_source.to_json());
        b.field("intervals", intervals_to_json(&self.intervals));
        b.field_opt_string("resultFormat", &self.result_format);
        if let Some(x) = &self.filter {
            b.field("filter", x.to_json());
        }
        if let Some(x) = &self.columns {
            b.field("columns", strs_to_json(x));
        }
        b.field_opt_usize("batchSize", &self.batch_size);
        b.field_opt_usize("limit", &self.limit);
        b.field_opt_usize("offset", &self.offset);
        b.field_opt_string("order", &self.order);
        b.field_opt_bool("legacy", &self.legacy);
        if let Some(x) = &self.virtual_columns {
            b.field("virtualColumns", virtual_columns_to_json(x));
        }
        if let Some(x) = &self.context {
            b.field("context", x.to_json());
        }
        b.finish()
    }
}

/// The JSON wire form of a scan query.
pub open spec fn scan_jsonv(t: Scan) -> JsonV
    decreases t,
{
    let es = Seq::empty().push(("queryType"@, JsonV::Str(t.query_type@)));
    let es = es.push(("dataSource"@, datasource_jsonv(t.data_source)));
    let es = es.push(("intervals"@, JsonV::Arr(intervals_jsonv(t.intervals@))));
    let es = opt_str_entry(es, "resultFormat"@, t.result_format.deep_view());
    let es = opt_entry(es, "filter"@, filter_opt(t.filter));
    let es = opt_entry(es, "columns"@, strs_opt(t.columns));
    let es = opt_u64_entry(es, "batchSize"@, (match t.batch_size {
        Some(n) => Some(n as u64),
        None => None,
    }));
    let es = opt_u64_entry(es, "limit"@, (match t.limit {
        Some(n) => Some(n as u64),
        None => None,
    }));
    let es = opt_u64_entry(es, "offset"@, (match t.offset {
        Some(n) => Some(n as u64),
        None => None,
    }));
    let es = opt_str_entry(es, "order"@, t.order.deep_view());
    let es = opt_bool_entry(es, "legacy"@, t.legacy);
    let es = opt_entry(es, "virtualColumns"@, vcols_opt(t.virtual_columns));
    let es = opt_entry(es, "context"@, context_opt(t.context));
    JsonV::Obj(es)
}

} // verus!
