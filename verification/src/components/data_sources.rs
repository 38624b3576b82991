//! Data sources: what a query reads from, including joins and nested
//! queries.

use vstd::prelude::*;

verus! {

use crate::components::druid_types::DruidNativeType;
use crate::components::druid_types::natives_jsonv;
use crate::components::druid_types::natives_to_json;
use crate::json::JsonV;
use crate::json::JsonValue;
use crate::json::ObjBuilder;
use crate::json::jarr;
use crate::json::jstr;
use crate::json::jstring;
use crate::json::strs_jsonv;
use crate::json::strs_to_json;
use crate::queries::Query;
use crate::queries::query_body_jsonv;
use crate::queries::query_tag;
use crate::text::has_double_eq;
use crate::text::has_double_eq_exec;
use crate::text::to_upper;
use crate::text::upper_chars;

/// A data source.
pub enum DataSource {
    Table { name: String },
    Lookup { lookup: String },
    Union { data_sources: Vec<String> },
    Inline { column_names: Vec<String>, rows: Vec<Vec<DruidNativeType>> },
    Query(Box<Query>),
    Join {
        left: Box<DataSource>,
        right: Box<DataSource>,
        right_prefix: String,
        condition: String,
        join_type: String,
    },
}

/// Errors of the join constructor.
#[derive(Debug, Clone)]
pub enum JoinDataSourceError {
    /// A side of the join has a kind that cannot stand there; carries the
    /// side (`left` or `right`) and the offending kind's name.
    InvalidJoinSource { which: String, datasource_type: String },
    /// The join type, upper-cased, is neither `INNER` nor `LEFT`; carries
    /// the upper-cased value.
    InvalidJoinType(String),
    /// The right-hand prefix is empty.
    EmptyRightPrefix,
    /// The join condition does not contain `==`.
    ConditionNotEquality,
}

/// The message of a join error, naming what was rejected.
pub open spec fn join_error_message(e: JoinDataSourceError) -> Seq<char> {
    match e {
        JoinDataSourceError::InvalidJoinSource { which, datasource_type } => "invalid "@
            + which@ + " join source "@ + datasource_type@,
        JoinDataSourceError::InvalidJoinType(t) => "invalid join type "@ + t@,
        JoinDataSourceError::EmptyRightPrefix => "right_prefix is empty"@,
        JoinDataSourceError::ConditionNotEquality => "condition is not equality"@,
    }
}

impl JoinDataSourceError {
    /// A human-readable message for this error.
    pub fn message(&self) -> (r: String)
        ensures
            r@ == join_error_message(*self),
    {
        match self {
            Self::InvalidJoinSource { which, datasource_type } => String::from_str(
                "invalid ",
            ).concat(which.as_str()).concat(" join source ").concat(datasource_type.as_str()),
            Self::InvalidJoinType(t) => String::from_str("invalid join type ").concat(
                t.as_str(),
            ),
            Self::EmptyRightPrefix => String::from_str("right_prefix is empty"),
            Self::ConditionNotEquality => String::from_str("condition is not equality"),
        }
    }
}

/// The lower-case kind name of a data source.
pub open spec fn datasource_kind(d: DataSource) -> Seq<char> {
    match d {
        DataSource::Table { .. } => "table"@,
        DataSource::Lookup { .. } => "lookup"@,
        DataSource::Union { .. } => "union"@,
        DataSource::Inline { .. } => "inline"@,
        DataSource::Query(..) => "query"@,
        DataSource::Join { .. } => "join"@,
    }
}

/// Whether a data source may stand on the left of a join: anything but a
/// union.
pub open spec fn valid_join_left(d: DataSource) -> bool {
    !(d is Union)
}

/// Whether a data source may stand on the right of a join: anything but
/// a table, a union or another join.
pub open spec fn valid_join_right(d: DataSource) -> bool {
    !(d is Table) && !(d is Union) && !(d is Join)
}

/// Whether an upper-cased join type is accepted.
pub open spec fn valid_join_type(upper: Seq<char>) -> bool {
    upper == "INNER"@ || upper == "LEFT"@
}

impl DataSource {
    /// The lower-case kind name of this data source.
    pub fn datasource_type(&self) -> (r: String)
        ensures
            r@ == datasource_kind(*self),
    {
        match self {
            DataSource::Table { .. } => String::from_str("table"),
            DataSource::Lookup { .. } => String::from_str("lookup"),
            DataSource::Union { .. } => String::from_str("union"),
            DataSource::Inline { .. } => String::from_str("inline"),
            DataSource::Query(..) => String::from_str("query"),
            DataSource::Join { .. } => String::from_str("join"),
        }
    }

    /// A table.
    pub fn table(name: String) -> (r: Self)
        ensures
            r == (DataSource::Table { name }),
    {
        Self::Table { name }
    }

    /// A registered lookup.
    pub fn lookup(lookup: String) -> (r: Self)
        ensures
            r == (DataSource::Lookup { lookup }),
    {
        Self::Lookup { lookup }
    }

    /// A union of tables.
    pub fn union(data_sources: Vec<String>) -> (r: Self)
        ensures
            r == (DataSource::Union { data_sources }),
    {
        Self::Union { data_sources }
    }

    /// Inline rows.
    pub fn inline(column_names: Vec<String>, rows: Vec<Vec<DruidNativeType>>) -> (r: Self)
        ensures
            r == (DataSource::Inline { column_names, rows }),
    {
        Self::Inline { column_names, rows }
    }

    /// A nested query.
    pub fn query(q: Query) -> (r: Self)
        ensures
            r == DataSource::Query(Box::new(q)),
    {
        Self::Query(Box::new(q))
    }

    /// A join. The left side must not be a union; the right side must not
    /// be a table, a union or a join; the right prefix must not be empty;
    /// the join type, upper-cased, must be `INNER` or `LEFT` and is kept
    /// upper-cased; the condition must contain `==`. Each rule is checked
    /// in that order, and the first one broken names the error.
    pub fn join(
        left: DataSource,
        right: DataSource,
        right_prefix: String,
        condition: String,
        join_type: String,
    ) -> (r: Result<Self, JoinDataSourceError>)
        ensures
            match r {
                Ok(d) => {
                    &&& valid_join_left(left)
                    &&& valid_join_right(right)
                    &&& right_prefix@.len() > 0
                    &&& valid_join_type(upper_chars(join_type@))
                    &&& has_double_eq(condition@)
                    &&& (d matches DataSource::Join {
                        left: l,
                        right: rr,
                        right_prefix: rp,
                        condition: c,
                        join_type: jt,
                    } && *l == left && *rr == right && rp == right_prefix && c == condition
                        && jt@ == upper_chars(join_type@))
                },
                Err(e) => match e {
                    JoinDataSourceError::InvalidJoinSource { which, datasource_type } => {
                        ||| (!valid_join_left(left) && which@ == "left"@ && datasource_type@
                            == datasource_kind(left))
                        ||| (valid_join_left(left) && !valid_join_right(right) && which@
                            == "right"@ && datasource_type@ == datasource_kind(right))
                    },
                    JoinDataSourceError::EmptyRightPrefix => {
                        &&& valid_join_left(left)
                        &&& valid_join_right(right)
                        &&& right_prefix@.len() == 0
                    },
                    JoinDataSourceError::InvalidJoinType(t) => {
                        &&& valid_join_left(left)
                        &&& valid_join_right(right)
                        &&& right_prefix@.len() > 0
                        &&& !valid_join_type(upper_chars(join_type@))
                        &&& t@ == upper_chars(join_type@)
                    },
                    JoinDataSourceError::ConditionNotEquality => {
                        &&& valid_join_left(left)
                        &&& valid_join_right(right)
                        &&& right_prefix@.len() > 0
                        &&& valid_join_type(upper_chars(join_type@))
                        &&& !has_double_eq(condition@)
                    },
                },
            },
    {
        if let DataSource::Union { .. } = &left {
            return Err(
                JoinDataSourceError::InvalidJoinSource {
                    which: String::from_str("left"),
                    datasource_type: left.datasource_type(),
                },
            );
        }
        match &right {
            DataSource::Table { .. } | DataSource::Union { .. } | DataSource::Join { .. } => {
                return Err(
                    JoinDataSourceError::InvalidJoinSource {
                        which: String::from_str("right"),
                        datasource_type: right.datasource_type(),
                    },
                );
            },
            _ => {},
        }
        if right_prefix.as_str().unicode_len() == 0 {
            return Err(JoinDataSourceError::EmptyRightPrefix);
        }
        let join_type_upper = to_upper(join_type.as_str());
        let is_inner = crate::text::str_eq(join_type_upper.as_str(), "INNER");
        let is_left = crate::text::str_eq(join_type_upper.as_str(), "LEFT");
        if !is_inner && !is_left {
            return Err(JoinDataSourceError::InvalidJoinType(join_type_upper));
        }
        if !has_double_eq_exec(condition.as_str()) {
            return Err(JoinDataSourceError::ConditionNotEquality);
        }
        Ok(
            Self::Join {
                left: Box::new(left),
                right: Box::new(right),
                right_prefix,
                condition,
                join_type: join_type_upper,
            },
        )
    }

    /// This data source's JSON wire form. A nested query is carried as a
    /// `query`-tagged object holding the query under its kind's name.
    #[verifier::rlimit(50)]
    pub fn to_json(&self) -> (r: JsonValue)
        ensures
            r@ == datasource_jsonv(*self),
        decreases *self,
    {
        let mut b = ObjBuilder::new();
        match self {
            Self::Table { name } => {
                b.field("type", jstr("table"));
                b.field("name", jstring(name.clone()));
            },
            Self::Lookup { lookup } => {
                b.field("type", jstr("lookup"));
                b.field("lookup", jstring(lookup.clone()));
            },
            Self::Union { data_sources } => {
                b.field("type", jstr("union"));
                b.field("dataSources", strs_to_json(data_sources));
            },
            Self::Inline { column_names, rows } => {
                b.field("type", jstr("inline"));
                b.field("columnNames", strs_to_json(column_names));
                let mut row_items: Vec<JsonValue> = Vec::new();
                let mut i: usize = 0;
                while i < rows.len()
                    invariant
                        i <= rows@.len(),
                        row_items@.len() == i,
                        forall|j: int|
                            0 <= j < i ==> #[trigger] row_items@[j]@ == JsonV::Arr(
                                natives_jsonv(rows@[j]@),
                            ),
                    decreases rows@.len() - i,
                {
                    row_items.push(natives_to_json(&rows[i]));
                    i = i + 1;
                }
                let rj = jarr(row_items);
                proof {
                    assert(rj@ matches JsonV::Arr(s) && s =~= native_rows_jsonv(rows@));
                }
                b.field("rows", rj);
            },
            Self::Query(q) => {
                b.field("type", jstr("query"));
                b.field_owned_key(q.tag_name(), q.body_json());
            },
            Self::Join { left, right, right_prefix, condition, join_type } => {
                b.field("type", jstr("join"));
                b.field("left", left.to_json());
                b.field("right", right.to_json());
                b.field("rightPrefix", jstring(right_prefix.clone()));
                b.field("condition", jstring(condition.clone()));
                b.field("joinType", jstring(join_type.clone()));
            },
        }
        b.finish()
    }
}

/// The element-wise JSON form of a list of inline rows.
pub open spec fn native_rows_jsonv(s: Seq<Vec<DruidNativeType>>) -> Seq<JsonV> {
    Seq::new(s.len(), |i: int| JsonV::Arr(natives_jsonv(s[i]@)))
}

/// The JSON wire form of a data source.
pub open spec fn datasource_jsonv(d: DataSource) -> JsonV
    decreases d,
{
    match d {
        DataSource::Table { name } => JsonV::Obj(
            Seq::empty().push(("type"@, JsonV::Str("table"@))).push(
                ("name"@, JsonV::Str(name@)),
            ),
        ),
        DataSource::Lookup { lookup } => JsonV::Obj(
            Seq::empty().push(("type"@, JsonV::Str("lookup"@))).push(
                ("lookup"@, JsonV::Str(lookup@)),
            ),
        ),
        DataSource::Union { data_sources } => JsonV::Obj(
            Seq::empty().push(("type"@, JsonV::Str("union"@))).push(
                ("dataSources"@, JsonV::Arr(strs_jsonv(data_sources@))),
            ),
        ),
        DataSource::Inline { column_names, rows } => JsonV::Obj(
            Seq::empty().push(("type"@, JsonV::Str("inline"@))).push(
                ("columnNames"@, JsonV::Arr(strs_jsonv(column_names@))),
            ).push(("rows"@, JsonV::Arr(native_rows_jsonv(rows@)))),
        ),
        DataSource::Query(q) => JsonV::Obj(
            Seq::empty().push(("type"@, JsonV::Str("query"@))).push(
                (query_tag(*q), query_body_jsonv(*q)),
            ),
        ),
        DataSource::Join { left, right, right_prefix, condition, join_type } => JsonV::Obj(
            Seq::empty().push(("type"@, JsonV::Str("join"@))).push(
                ("left"@, datasource_jsonv(*left)),
            ).push(("right"@, datasource_jsonv(*right))).push(
                ("rightPrefix"@, JsonV::Str(right_prefix@)),
            ).push(("condition"@, JsonV::Str(condition@))).push(
                ("joinType"@, JsonV::Str(join_type@)),
            ),
        ),
    }
}

} // verus!
