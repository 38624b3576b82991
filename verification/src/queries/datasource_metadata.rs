//! The dataSourceMetadata query envelope.

use vstd::prelude::*;

verus! {

use crate::components::context::Context;
use crate::components::data_sources::DataSource;
use crate::components::data_sources::datasource_jsonv;
use crate::components::virtual_columns::VirtaulColumn;
use crate::components::virtual_columns::virtual_columns_to_json;
use crate::json::JsonV;
use crate::json::JsonValue;
use crate::json::ObjBuilder;
use crate::json::jstring;
use crate::json::opt_entry;
use crate::queries::context_opt;
use crate::queries::vcols_opt;

/// A dataSourceMetadata query, built from its mandatory fields and grown with one
/// setter call per optional field; a field never set is left off the
/// wire.
pub struct DataSourceMetadata {
    pub query_type: String,
    pub data_source: DataSource,
    pub virtual_columns: Option<Vec<VirtaulColumn>>,
    pub context: Option<Context>,
}

impl DataSourceMetadata {
    /// A new dataSourceMetadata query with every optional field unset.
    pub fn new(data_source: DataSource) -> (r: Self)
        ensures
            ({
            &&& r.query_type@ == "dataSourceMetadata"@
            &&& r.data_source == data_source
            &&& r.virtual_columns is None
            &&& r.context is None
            }),
    {
        Self {
            query_type: String::from_str("dataSourceMetadata"),
            data_source,
            virtual_columns: None,
            context: None,
        }
    }

    /// Set the `virtualColumns` field.
    pub fn virtual_columns(self, virtual_columns: Vec<VirtaulColumn>) -> (r: Self)
        ensures
            r == (DataSourceMetadata { virtual_columns: Some(virtual_columns), ..self }),
    {
        Self { virtual_columns: Some(virtual_columns), ..self }
    }

    /// Set the `context` field.
    pub fn context(self, context: Context) -> (r: Self)
        ensures
            r == (DataSourceMetadata { context: Some(context), ..self }),
    {
        Self { context: Some(context), ..self }
    }

    /// This query's JSON wire form.
    pub fn to_json(&self) -> (r: JsonValue)
        ensures
            r@ == datasource_metadata_jsonv(*self),
        decreases *self,
    {
        let mut b = ObjBuilder::new();
        b.field("queryType", jstring(self.query_type.clone()));
        b.field("dataSource", self.data_source.to_json());
        if let Some(x) = &self.virtual_columns {
            b.field("virtualColumns", virtual_columns_to_json(x));
        }
        if let Some(x) = &self.context {
            b.field("context", x.to_json());
        }
        b.finish()
    }
}

/// The JSON wire form of a dataSourceMetadata query.
pub open spec fn datasource_metadata_jsonv(t: DataSourceMetadata) -> JsonV
    decreases t,
{
    let es = Seq::empty().push(("queryType"@, JsonV::Str(t.query_type@)));
    let es = es.push(("dataSource"@, datasource_jsonv(t.data_source)));
    let es = opt_entry(es, "virtualColumns"@, vcols_opt(t.virtual_columns));
    let es = opt_entry(es, "context"@, context_opt(t.context));
    JsonV::Obj(es)
}

} // verus!
