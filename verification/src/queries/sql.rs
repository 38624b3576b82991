//! The SQL query and its result formats.

use vstd::prelude::*;

verus! {

use crate::components::context::Context;
use crate::components::druid_types::DruidSqlType;
use crate::json::JsonV;
use crate::json::JsonValue;
use crate::json::ObjBuilder;
use crate::json::jstr;
use crate::json::jstring;
use crate::json::opt_bool_entry;
use crate::json::opt_entry;
use crate::queries::context_opt;
use crate::queries::sql_params_opt;

/// A SQL query, sent to the SQL endpoint rather than the native one.
pub struct Sql {
    pub query: String,
    pub result_format: Option<ResultFormat>,
    pub header: Option<bool>,
    pub parameters: Option<Vec<DruidSqlType>>,
    pub context: Option<Context>,
}

/// The five result encodings the SQL endpoint can be asked to produce.
#[derive(Clone, Copy, PartialEq, Eq, Structural)]
pub enum ResultFormat {
    Object,
    Array,
    ObjectLines,
    ArrayLines,
    Csv,
}

impl ResultFormat {
    /// This format's JSON wire form, its lower-camel-case name.
    pub fn to_json(&self) -> (r: JsonValue)
        ensures
            r@ == result_format_jsonv(*self),
    {
        match self {
            ResultFormat::Object => jstr("object"),
            ResultFormat::Array => jstr("array"),
            ResultFormat::ObjectLines => jstr("objectLines"),
            ResultFormat::ArrayLines => jstr("arrayLines"),
            ResultFormat::Csv => jstr("csv"),
        }
    }
}

/// The JSON wire form of a result format.
pub open spec fn result_format_jsonv(f: ResultFormat) -> JsonV {
    match f {
        ResultFormat::Object => JsonV::Str("object"@),
        ResultFormat::Array => JsonV::Str("array"@),
        ResultFormat::ObjectLines => JsonV::Str("objectLines"@),
        ResultFormat::ArrayLines => JsonV::Str("arrayLines"@),
        ResultFormat::Csv => JsonV::Str("csv"@),
    }
}

impl Sql {
    /// A new SQL query with every optional field unset.
    pub fn new(query: &str) -> (r: Self)
        ensures
            r.query@ == query@,
            r.result_format is None,
            r.header is None,
            r.parameters is None,
            r.context is None,
    {
        Self {
            query: String::from_str(query),
            result_format: None,
            header: None,
            parameters: None,
            context: None,
        }
    }

    /// Set the `resultFormat` field.
    pub fn result_format(self, result_format: ResultFormat) -> (r: Self)
        ensures
            r == (Sql { result_format: Some(result_format), ..self }),
    {
        Self { result_format: Some(result_format), ..self }
    }

    /// Set the `header` field.
    pub fn header(self, header: bool) -> (r: Self)
        ensures
            r == (Sql { header: Some(header), ..self }),
    {
        Self { header: Some(header), ..self }
    }

    /// Set the `parameters` field.
    pub fn parameters(self, parameters: Vec<DruidSqlType>) -> (r: Self)
        ensures
            r == (Sql { parameters: Some(parameters), ..self }),
    {
        Self { parameters: Some(parameters), ..self }
    }

    /// Set the `context` field.
    pub fn context(self, context: Context) -> (r: Self)
        ensures
            r == (Sql { context: Some(context), ..self }),
    {
        Self { context: Some(context), ..self }
    }

    /// This query's JSON wire form.
    pub fn to_json(&self) -> (r: JsonValue)
        ensures
            r@ == sql_jsonv(*self),
    {
        let mut b = ObjBuilder::new();
        b.field("query", jstring(self.query.clone()));
        if let Some(x) = &self.result_format {
            b.field("resultFormat", x.to_json());
        }
        b.field_opt_bool("header", &self.header);
        if let Some(x) = &self.parameters {
            b.field("parameters", crate::components::druid_types::sql_types_to_json(x));
        }
        if let Some(x) = &self.context {
            b.field("context", x.to_json());
        }
        b.finish()
    }
}

/// The JSON wire form of a SQL query.
pub open spec fn sql_jsonv(t: Sql) -> JsonV {
    let es = Seq::<(Seq<char>, JsonV)>::empty().push(("query"@, JsonV::Str(t.query@)));
    let es = opt_entry(
        es,
        "resultFormat"@,
        (match t.result_format {
            Some(x) => Some(result_format_jsonv(x)),
            None => None,
        }),
    );
    let es = opt_bool_entry(es, "header"@, t.header);
    let es = opt_entry(es, "parameters"@, sql_params_opt(t.parameters));
    let es = opt_entry(es, "context"@, context_opt(t.context));
    JsonV::Obj(es)
}

} // verus!
