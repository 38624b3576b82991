//! Aggregators: the per-bucket computations of a native query.

use vstd::prelude::*;

verus! {

use crate::components::dimension_specs::DimensionSpec;
use crate::components::dimension_specs::dim_specs_jsonv;
use crate::components::dimension_specs::dim_specs_to_json;
use crate::components::filters::Filter;
use crate::components::filters::filter_jsonv;
use crate::json::JsonV;
use crate::json::JsonValue;
use crate::json::ObjBuilder;
use crate::json::jarr;
use crate::json::jstr;
use crate::json::jstring;
use crate::json::opt_bool_entry;
use crate::json::opt_u64_entry;
use crate::json::strs_jsonv;
use crate::json::strs_to_json;

/// An aggregator.
pub enum Aggregator {
    Count { name: String },
    LongSum { name: String, field_name: String },
    DoubleSum { name: String, field_name: String },
    FloatSum { name: String, field_name: String },
    LongMin { name: String, field_name: String },
    DoubleMin { name: String, field_name: String },
    FloatMin { name: String, field_name: String },
    LongMax { name: String, field_name: String },
    DoubleMax { name: String, field_name: String },
    FloatMax { name: String, field_name: String },
    DoubleMean { name: String, field_name: String },
    LongFirst { name: String, field_name: String },
    DoubleFirst { name: String, field_name: String },
    FloatFirst { name: String, field_name: String },
    LongLast { name: String, field_name: String },
    DoubleLast { name: String, field_name: String },
    FloatLast { name: String, field_name: String },
    LongAny { name: String, field_name: String },
    DoubleAny { name: String, field_name: String },
    FloatAny { name: String, field_name: String },
    StringFirst { name: String, field_name: String, max_string_bytes: Option<u64> },
    StringLast { name: String, field_name: String, max_string_bytes: Option<u64> },
    StringAny { name: String, field_name: String, max_string_bytes: Option<u64> },
    Javascript {
        name: String,
        field_names: Vec<String>,
        fn_aggregate: String,
        fn_combine: String,
        fn_reset: String,
    },
    Filtered { filter: Box<Filter>, aggregator: Box<Aggregator> },
    Grouping { name: String, groupings: Vec<String> },
    Cardinality {
        name: String,
        fields: Vec<DimensionSpec>,
        by_row: Option<bool>,
        round: Option<bool>,
    },
    HyperUnique {
        name: String,
        field_name: String,
        is_input_hyper_unique: Option<bool>,
        round: Option<bool>,
    },
}

impl Aggregator {
    /// The `count` aggregator.
    pub fn count(name: String) -> (r: Self)
        ensures
            r == (Aggregator::Count { name }),
    {
        Self::Count { name }
    }

    /// The `longSum` aggregator.
    pub fn long_sum(name: String, field_name: String) -> (r: Self)
        ensures
            r == (Aggregator::LongSum { name, field_name }),
    {
        Self::LongSum { name, field_name }
    }

    /// The `doubleSum` aggregator.
    pub fn double_sum(name: String, field_name: String) -> (r: Self)
        ensures
            r == (Aggregator::DoubleSum { name, field_name }),
    {
        Self::DoubleSum { name, field_name }
    }

    /// The `floatSum` aggregator.
    pub fn float_sum(name: String, field_name: String) -> (r: Self)
        ensures
            r == (Aggregator::FloatSum { name, field_name }),
    {
        Self::FloatSum { name, field_name }
    }

    /// The `longMin` aggregator.
    pub fn long_min(name: String, field_name: String) -> (r: Self)
        ensures
            r == (Aggregator::LongMin { name, field_name }),
    {
        Self::LongMin { name, field_name }
    }

    /// The `doubleMin` aggregator.
    pub fn double_min(name: String, field_name: String) -> (r: Self)
        ensures
            r == (Aggregator::DoubleMin { name, field_name }),
    {
        Self::DoubleMin { name, field_name }
    }

    /// The `floatMin` aggregator.
    pub fn float_min(name: String, field_name: String) -> (r: Self)
        ensures
            r == (Aggregator::FloatMin { name, field_name }),
    {
        Self::FloatMin { name, field_name }
    }

    /// The `longMax` aggregator.
    pub fn long_max(name: String, field_name: String) -> (r: Self)
        ensures
            r == (Aggregator::LongMax { name, field_name }),
    {
        Self::LongMax { name, field_name }
    }

    /// The `doubleMax` aggregator.
    pub fn double_max(name: String, field_name: String) -> (r: Self)
        ensures
            r == (Aggregator::DoubleMax { name, field_name }),
    {
        Self::DoubleMax { name, field_name }
    }

    /// The `floatMax` aggregator.
    pub fn float_max(name: String, field_name: String) -> (r: Self)
        ensures
            r == (Aggregator::FloatMax { name, field_name }),
    {
        Self::FloatMax { name, field_name }
    }

    /// The `doubleMean` aggregator.
    pub fn double_mean(name: String, field_name: String) -> (r: Self)
        ensures
            r == (Aggregator::DoubleMean { name, field_name }),
    {
        Self::DoubleMean { name, field_name }
    }

    /// The `longFirst` aggregator.
    pub fn long_first(name: String, field_name: String) -> (r: Self)
        ensures
            r == (Aggregator::LongFirst { name, field_name }),
    {
        Self::LongFirst { name, field_name }
    }

    /// The `doubleFirst` aggregator.
    pub fn double_first(name: String, field_name: String) -> (r: Self)
        ensures
            r == (Aggregator::DoubleFirst { name, field_name }),
    {
        Self::DoubleFirst { name, field_name }
    }

    /// The `floatFirst` aggregator.
    pub fn float_first(name: String, field_name: String) -> (r: Self)
        ensures
            r == (Aggregator::FloatFirst { name, field_name }),
    {
        Self::FloatFirst { name, field_name }
    }

    /// The `longLast` aggregator.
    pub fn long_last(name: String, field_name: String) -> (r: Self)
        ensures
            r == (Aggregator::LongLast { name, field_name }),
    {
        Self::LongLast { name, field_name }
    }

    /// The `doubleLast` aggregator.
    pub fn double_last(name: String, field_name: String) -> (r: Self)
        ensures
            r == (Aggregator::DoubleLast { name, field_name }),
    {
        Self::DoubleLast { name, field_name }
    }

    /// The `floatLast` aggregator.
    pub fn float_last(name: String, field_name: String) -> (r: Self)
        ensures
            r == (Aggregator::FloatLast { name, field_name }),
    {
        Self::FloatLast { name, field_name }
    }

    /// The `longAny` aggregator.
    pub fn long_any(name: String, field_name: String) -> (r: Self)
        ensures
            r == (Aggregator::LongAny { name, field_name }),
    {
        Self::LongAny { name, field_name }
    }

    /// The `doubleAny` aggregator.
    pub fn double_any(name: String, field_name: String) -> (r: Self)
        ensures
            r == (Aggregator::DoubleAny { name, field_name }),
    {
        Self::DoubleAny { name, field_name }
    }

    /// The `floatAny` aggregator.
    pub fn float_any(name: String, field_name: String) -> (r: Self)
        ensures
            r == (Aggregator::FloatAny { name, field_name }),
    {
        Self::FloatAny { name, field_name }
    }

    /// The `stringFirst` aggregator.
    pub fn string_first(name: String, field_name: String, max_string_bytes: Option<u64>) -> (r:
        Self)
        ensures
            r == (Aggregator::StringFirst { name, field_name, max_string_bytes }),
    {
        Self::StringFirst { name, field_name, max_string_bytes }
    }

    /// The `stringLast` aggregator.
    pub fn string_last(name: String, field_name: String, max_string_bytes: Option<u64>) -> (r:
        Self)
        ensures
            r == (Aggregator::StringLast { name, field_name, max_string_bytes }),
    {
        Self::StringLast { name, field_name, max_string_bytes }
    }

    /// The `stringAny` aggregator.
    pub fn string_any(name: String, field_name: String, max_string_bytes: Option<u64>) -> (r:
        Self)
        ensures
            r == (Aggregator::StringAny { name, field_name, max_string_bytes }),
    {
        Self::StringAny { name, field_name, max_string_bytes }
    }

    /// The `javascript` aggregator.
    pub fn javascript(
        name: String,
        field_names: Vec<String>,
        fn_aggregate: String,
        fn_combine: String,
        fn_reset: String,
    ) -> (r: Self)
        ensures
            r == (Aggregator::Javascript {
                name,
                field_names,
                fn_aggregate,
                fn_combine,
                fn_reset,
            }),
    {
        Self::Javascript { name, field_names, fn_aggregate, fn_combine, fn_reset }
    }

    /// The `filtered` aggregator.
    pub fn filtered(filter: Filter, aggregator: Aggregator) -> (r: Self)
        ensures
            r == (Aggregator::Filtered {
                filter: Box::new(filter),
                aggregator: Box::new(aggregator),
            }),
    {
        Self::Filtered { filter: Box::new(filter), aggregator: Box::new(aggregator) }
    }

    /// The `grouping` aggregator.
    pub fn grouping(name: String, groupings: Vec<String>) -> (r: Self)
        ensures
            r == (Aggregator::Grouping { name, groupings }),
    {
        Self::Grouping { name, groupings }
    }

    /// The `cardinality` aggregator.
    pub fn cardinality(
        name: String,
        fields: Vec<DimensionSpec>,
        by_row: Option<bool>,
        round: Option<bool>,
    ) -> (r: Self)
        ensures
            r == (Aggregator::Cardinality { name, fields, by_row, round }),
    {
        Self::Cardinality { name, fields, by_row, round }
    }

    /// The `hyperUnique` aggregator.
    pub fn hyper_unique(
        name: String,
        field_name: String,
        is_input_hyper_unique: Option<bool>,
        round: Option<bool>,
    ) -> (r: Self)
        ensures
            r == (Aggregator::HyperUnique {
                name,
                field_name,
                is_input_hyper_unique,
                round,
            }),
    {
        Self::HyperUnique { name, field_name, is_input_hyper_unique, round }
    }

    /// This aggregator's JSON wire form.
    pub fn to_json(&self) -> (r: JsonValue)
        ensures
            r@ == agg_jsonv(*self),
        decreases *self,
    {
        let mut b = ObjBuilder::new();
        match self {
            Self::Count { name } => {
                b.field("type", jstr("count"));
                b.field("name", jstring(name.clone()));
            },
            Self::LongSum { name, field_name } => {
                b.field("type", jstr("longSum"));
                b.field("name", jstring(name.clone()));
                b.field("fieldName", jstring(field_name.clone()));
            },
            Self::DoubleSum { name, field_name } => {
                b.field("type", jstr("doubleSum"));
                b.field("name", jstring(name.clone()));
                b.field("fieldName", jstring(field_name.clone()));
            },
            Self::FloatSum { name, field_name } => {
                b.field("type", jstr("floatSum"));
                b.field("name", jstring(name.clone()));
                b.field("fieldName", jstring(field_name.clone()));
            },
            Self::LongMin { name, field_name } => {
                b.field("type", jstr("longMin"));
                b.field("name", jstring(name.clone()));
                b.field("fieldName", jstring(field_name.clone()));
            },
            Self::DoubleMin { name, field_name } => {
                b.field("type", jstr("doubleMin"));
                b.field("name", jstring(name.clone()));
                b.field("fieldName", jstring(field_name.clone()));
            },
            Self::FloatMin { name, field_name } => {
                b.field("type", jstr("floatMin"));
                b.field("name", jstring(name.clone()));
                b.field("fieldName", jstring(field_name.clone()));
            },
            Self::LongMax { name, field_name } => {
                b.field("type", jstr("longMax"));
                b.field("name", jstring(name.clone()));
                b.field("fieldName", jstring(field_name.clone()));
            },
            Self::DoubleMax { name, field_name } => {
                b.field("type", jstr("doubleMax"));
                b.field("name", jstring(name.clone()));
                b.field("fieldName", jstring(field_name.clone()));
            },
            Self::FloatMax { name, field_name } => {
                b.field("type", jstr("floatMax"));
                b.field("name", jstring(name.clone()));
                b.field("fieldName", jstring(field_name.clone()));
            },
            Self::DoubleMean { name, field_name } => {
                b.field("type", jstr("doubleMean"));
                b.field("name", jstring(name.clone()));
                b.field("fieldName", jstring(field_name.clone()));
            },
            Self::LongFirst { name, field_name } => {
                b.field("type", jstr("longFirst"));
                b.field("name", jstring(name.clone()));
                b.field("fieldName", jstring(field_name.clone()));
            },
            Self::DoubleFirst { name, field_name } => {
                b.field("type", jstr("doubleFirst"));
                b.field("name", jstring(name.clone()));
                b.field("fieldName", jstring(field_name.clone()));
            },
            Self::FloatFirst { name, field_name } => {
                b.field("type", jstr("floatFirst"));
                b.field("name", jstring(name.clone()));
                b.field("fieldName", jstring(field_name.clone()));
            },
            Self::LongLast { name, field_name } => {
                b.field("type", jstr("longLast"));
                b.field("name", jstring(name.clone()));
                b.field("fieldName", jstring(field_name.clone()));
            },
            Self::DoubleLast { name, field_name } => {
                b.field("type", jstr("doubleLast"));
                b.field("name", jstring(name.clone()));
                b.field("fieldName", jstring(field_name.clone()));
            },
            Self::FloatLast { name, field_name } => {
                b.field("type", jstr("floatLast"));
                b.field("name", jstring(name.clone()));
                b.field("fieldName", jstring(field_name.clone()));
            },
            Self::LongAny { name, field_name } => {
                b.field("type", jstr("longAny"));
                b.field("name", jstring(name.clone()));
                b.field("fieldName", jstring(field_name.clone()));
            },
            Self::DoubleAny { name, field_name } => {
                b.field("type", jstr("doubleAny"));
                b.field("name", jstring(name.clone()));
                b.field("fieldName", jstring(field_name.clone()));
            },
            Self::FloatAny { name, field_name } => {
                b.field("type", jstr("floatAny"));
                b.field("name", jstring(name.clone()));
                b.field("fieldName", jstring(field_name.clone()));
            },
            Self::StringFirst { name, field_name, max_string_bytes } => {
                b.field("type", jstr("stringFirst"));
                b.field("name", jstring(name.clone()));
                b.field("fieldName", jstring(field_name.clone()));
                b.field_opt_u64("maxStringBytes", max_string_bytes);
            },
            Self::StringLast { name, field_name, max_string_bytes } => {
                b.field("type", jstr("stringLast"));
                b.field("name", jstring(name.clone()));
                b.field("fieldName", jstring(field_name.clone()));
                b.field_opt_u64("maxStringBytes", max_string_bytes);
            },
            Self::StringAny { name, field_name, max_string_bytes } => {
                b.field("type", jstr("stringAny"));
                b.field("name", jstring(name.clone()));
                b.field("fieldName", jstring(field_name.clone()));
                b.field_opt_u64("maxStringBytes", max_string_bytes);
            },
            Self::Javascript { name, field_names, fn_aggregate, fn_combine, fn_reset } => {
                b.field("type", jstr("javascript"));
                b.field("name", jstring(name.clone()));
                b.field("fieldNames", strs_to_json(field_names));
                b.field("fnAggregate", jstring(fn_aggregate.clone()));
                b.field("fnCombine", jstring(fn_combine.clone()));
                b.field("fnReset", jstring(fn_reset.clone()));
            },
            Self::Filtered { filter, aggregator } => {
                b.field("type", jstr("filtered"));
                b.field("filter", filter.to_json());
                b.field("aggregator", aggregator.to_json());
            },
            Self::Grouping { name, groupings } => {
                b.field("type", jstr("grouping"));
                b.field("name", jstring(name.clone()));
                b.field("groupings", strs_to_json(groupings));
            },
            Self::Cardinality { name, fields, by_row, round } => {
                b.field("type", jstr("cardinality"));
                b.field("name", jstring(name.clone()));
                b.field("fields", dim_specs_to_json(fields));
                b.field_opt_bool("byRow", by_row);
                b.field_opt_bool("round", round);
            },
            Self::HyperUnique { name, field_name, is_input_hyper_unique, round } => {
                b.field("type", jstr("hyperUnique"));
                b.field("name", jstring(name.clone()));
                b.field("fieldName", jstring(field_name.clone()));
                b.field_opt_bool("isInputHyperUnique", is_input_hyper_unique);
                b.field_opt_bool("round", round);
            },
        }
        b.finish()
    }
}

/// The JSON wire form of an aggregator.
pub open spec fn agg_jsonv(a: Aggregator) -> JsonV
    decreases a,
{
    match a {
        Aggregator::Count { name } => JsonV::Obj(
            Seq::empty().push(("type"@, JsonV::Str("count"@))).push(
                ("name"@, JsonV::Str(name@)),
            ),
        ),
        Aggregator::LongSum { name, field_name } => JsonV::Obj(
            Seq::empty().push(("type"@, JsonV::Str("longSum"@))).push(
                ("name"@, JsonV::Str(name@)),
            ).push(("fieldName"@, JsonV::Str(field_name@))),
        ),
        Aggregator::DoubleSum { name, field_name } => JsonV::Obj(
            Seq::empty().push(("type"@, JsonV::Str("doubleSum"@))).push(
                ("name"@, JsonV::Str(name@)),
            ).push(("fieldName"@, JsonV::Str(field_name@))),
        ),
        Aggregator::FloatSum { name, field_name } => JsonV::Obj(
            Seq::empty().push(("type"@, JsonV::Str("floatSum"@))).push(
                ("name"@, JsonV::Str(name@)),
            ).push(("fieldName"@, JsonV::Str(field_name@))),
        ),
        Aggregator::LongMin { name, field_name } => JsonV::Obj(
            Seq::empty().push(("type"@, JsonV::Str("longMin"@))).push(
                ("name"@, JsonV::Str(name@)),
            ).push(("fieldName"@, JsonV::Str(field_name@))),
        ),
        Aggregator::DoubleMin { name, field_name } => JsonV::Obj(
            Seq::empty().push(("type"@, JsonV::Str("doubleMin"@))).push(
                ("name"@, JsonV::Str(name@)),
            ).push(("fieldName"@, JsonV::Str(field_name@))),
        ),
        Aggregator::FloatMin { name, field_name } => JsonV::Obj(
            Seq::empty().push(("type"@, JsonV::Str("floatMin"@))).push(
                ("name"@, JsonV::Str(name@)),
            ).push(("fieldName"@, JsonV::Str(field_name@))),
        ),
        Aggregator::LongMax { name, field_name } => JsonV::Obj(
            Seq::empty().push(("type"@, JsonV::Str("longMax"@))).push(
                ("name"@, JsonV::Str(name@)),
            ).push(("fieldName"@, JsonV::Str(field_name@))),
        ),
        Aggregator::DoubleMax { name, field_name } => JsonV::Obj(
            Seq::empty().push(("type"@, JsonV::Str("doubleMax"@))).push(
                ("name"@, JsonV::Str(name@)),
            ).push(("fieldName"@, JsonV::Str(field_name@))),
        ),
        Aggregator::FloatMax { name, field_name } => JsonV::Obj(
            Seq::empty().push(("type"@, JsonV::Str("floatMax"@))).push(
                ("name"@, JsonV::Str(name@)),
            ).push(("fieldName"@, JsonV::Str(field_name@))),
        ),
        Aggregator::DoubleMean { name, field_name } => JsonV::Obj(
            Seq::empty().push(("type"@, JsonV::Str("doubleMean"@))).push(
                ("name"@, JsonV::Str(name@)),
            ).push(("fieldName"@, JsonV::Str(field_name@))),
        ),
        Aggregator::LongFirst { name, field_name } => JsonV::Obj(
            Seq::empty().push(("type"@, JsonV::Str("longFirst"@))).push(
                ("name"@, JsonV::Str(name@)),
            ).push(("fieldName"@, JsonV::Str(field_name@))),
        ),
        Aggregator::DoubleFirst { name, field_name } => JsonV::Obj(
            Seq::empty().push(("type"@, JsonV::Str("doubleFirst"@))).push(
                ("name"@, JsonV::Str(name@)),
            ).push(("fieldName"@, JsonV::Str(field_name@))),
        ),
        Aggregator::FloatFirst { name, field_name } => JsonV::Obj(
            Seq::empty().push(("type"@, JsonV::Str("floatFirst"@))).push(
                ("name"@, JsonV::Str(name@)),
            ).push(("fieldName"@, JsonV::Str(field_name@))),
        ),
        Aggregator::LongLast { name, field_name } => JsonV::Obj(
            Seq::empty().push(("type"@, JsonV::Str("longLast"@))).push(
                ("name"@, JsonV::Str(name@)),
            ).push(("fieldName"@, JsonV::Str(field_name@))),
        ),
        Aggregator::DoubleLast { name, field_name } => JsonV::Obj(
            Seq::empty().push(("type"@, JsonV::Str("doubleLast"@))).push(
                ("name"@, JsonV::Str(name@)),
            ).push(("fieldName"@, JsonV::Str(field_name@))),
        ),
        Aggregator::FloatLast { name, field_name } => JsonV::Obj(
            Seq::empty().push(("type"@, JsonV::Str("floatLast"@))).push(
                ("name"@, JsonV::Str(name@)),
            ).push(("fieldName"@, JsonV::Str(field_name@))),
        ),
        Aggregator::LongAny { name, field_name } => JsonV::Obj(
            Seq::empty().push(("type"@, JsonV::Str("longAny"@))).push(
                ("name"@, JsonV::Str(name@)),
            ).push(("fieldName"@, JsonV::Str(field_name@))),
        ),
        Aggregator::DoubleAny { name, field_name } => JsonV::Obj(
            Seq::empty().push(("type"@, JsonV::Str("doubleAny"@))).push(
                ("name"@, JsonV::Str(name@)),
            ).push(("fieldName"@, JsonV::Str(field_name@))),
        ),
        Aggregator::FloatAny { name, field_name } => JsonV::Obj(
            Seq::empty().push(("type"@, JsonV::Str("floatAny"@))).push(
                ("name"@, JsonV::Str(name@)),
            ).push(("fieldName"@, JsonV::Str(field_name@))),
        ),
        Aggregator::StringFirst { name, field_name, max_string_bytes } => JsonV::Obj(
            opt_u64_entry(
                Seq::empty().push(("type"@, JsonV::Str("stringFirst"@))).push(
                    ("name"@, JsonV::Str(name@)),
                ).push(("fieldName"@, JsonV::Str(field_name@))),
                "maxStringBytes"@,
                max_string_bytes,
            ),
        ),
        Aggregator::StringLast { name, field_name, max_string_bytes } => JsonV::Obj(
            opt_u64_entry(
                Seq::empty().push(("type"@, JsonV::Str("stringLast"@))).push(
                    ("name"@, JsonV::Str(name@)),
                ).push(("fieldName"@, JsonV::Str(field_name@))),
                "maxStringBytes"@,
                max_string_bytes,
            ),
        ),
        Aggregator::StringAny { name, field_name, max_string_bytes } => JsonV::Obj(
            opt_u64_entry(
                Seq::empty().push(("type"@, JsonV::Str("stringAny"@))).push(
                    ("name"@, JsonV::Str(name@)),
                ).push(("fieldName"@, JsonV::Str(field_name@))),
                "maxStringBytes"@,
                max_string_bytes,
            ),
        ),
        Aggregator::Javascript { name, field_names, fn_aggregate, fn_combine, fn_reset } => JsonV::Obj(
            Seq::empty().push(("type"@, JsonV::Str("javascript"@))).push(
                ("name"@, JsonV::Str(name@)),
            ).push(("fieldNames"@, JsonV::Arr(strs_jsonv(field_names@)))).push(
                ("fnAggregate"@, JsonV::Str(fn_aggregate@)),
            ).push(("fnCombine"@, JsonV::Str(fn_combine@))).push(
                ("fnReset"@, JsonV::Str(fn_reset@)),
            ),
        ),
        Aggregator::Filtered { filter, aggregator } => JsonV::Obj(
            Seq::empty().push(("type"@, JsonV::Str("filtered"@))).push(
                ("filter"@, filter_jsonv(*filter)),
            ).push(("aggregator"@, agg_jsonv(*aggregator))),
        ),
        Aggregator::Grouping { name, groupings } => JsonV::Obj(
            Seq::empty().push(("type"@, JsonV::Str("grouping"@))).push(
                ("name"@, JsonV::Str(name@)),
            ).push(("groupings"@, JsonV::Arr(strs_jsonv(groupings@)))),
        ),
        Aggregator::Cardinality { name, fields, by_row, round } => JsonV::Obj(
            opt_bool_entry(
                opt_bool_entry(
                    Seq::empty().push(("type"@, JsonV::Str("cardinality"@))).push(
                        ("name"@, JsonV::Str(name@)),
                    ).push(("fields"@, JsonV::Arr(dim_specs_jsonv(fields@)))),
                    "byRow"@,
                    by_row,
                ),
                "round"@,
                round,
            ),
        ),
        Aggregator::HyperUnique { name, field_name, is_input_hyper_unique, round } => JsonV::Obj(
            opt_bool_entry(
                opt_bool_entry(
                    Seq::empty().push(("type"@, JsonV::Str("hyperUnique"@))).push(
                        ("name"@, JsonV::Str(name@)),
                    ).push(("fieldName"@, JsonV::Str(field_name@))),
                    "isInputHyperUnique"@,
                    is_input_hyper_unique,
                ),
                "round"@,
                round,
            ),
        ),
    }
}

/// The element-wise JSON form of a list of aggregators.
pub open spec fn aggs_jsonv(s: Seq<Aggregator>) -> Seq<JsonV> {
    Seq::new(s.len(), |i: int| agg_jsonv(s[i]))
}

/// A JSON array of aggregators.
pub fn aggs_to_json(xs: &Vec<Aggregator>) -> (r: JsonValue)
    ensures
        r@ == JsonV::Arr(aggs_jsonv(xs@)),
{
    let mut items: Vec<JsonValue> = Vec::new();
    let mut i: usize = 0;
    while i < xs.len()
        invariant
            i <= xs@.len(),
            items@.len() == i,
            forall|j: int| 0 <= j < i ==> #[trigger] items@[j]@ == agg_jsonv(xs@[j]),
        decreases xs@.len() - i,
    {
        items.push(xs[i].to_json());
        i = i + 1;
    }
    let r = jarr(items);
    proof {
        assert(r@ matches JsonV::Arr(s) && s =~= aggs_jsonv(xs@));
    }
    r
}

} // verus!
