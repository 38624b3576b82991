//! Post-aggregators: computations over already-aggregated values.

use vstd::prelude::*;

verus! {

use crate::components::druid_types::DruidNativeType;
use crate::components::druid_types::native_jsonv;
use crate::components::ordering::InvalidOrderingError;
use crate::json::JsonV;
use crate::json::JsonValue;
use crate::json::ObjBuilder;
use crate::json::jarr;
use crate::json::jstr;
use crate::json::jstring;
use crate::json::opt_str_entry;
use crate::json::strs_jsonv;
use crate::json::strs_to_json;
use crate::text::lower_chars;
use crate::text::str_eq;
use crate::text::to_lower;

/// A post-aggregator, recursive through the arithmetic, greatest and
/// least kinds.
pub enum PostAggregator {
    Arithmetic {
        name: String,
        func: String,
        fields: Vec<PostAggregator>,
        ordering: Option<String>,
    },
    FieldAccess { name: String, field_name: String },
    FinalizingFieldAccess { name: String, field_name: String },
    Constant { name: String, value: DruidNativeType },
    LongGreatest { name: String, fields: Vec<PostAggregator> },
    DoubleGreatest { name: String, fields: Vec<PostAggregator> },
    LongLeast { name: String, fields: Vec<PostAggregator> },
    DoubleLeast { name: String, fields: Vec<PostAggregator> },
    Javascript { name: String, field_names: Vec<String>, function: String },
    HyperUniqueCardinality { name: String, field_name: String },
}

/// Error for a constant post-aggregator whose value is not numeric.
#[derive(Debug, Clone, Copy)]
pub struct NonNumericConstant;

/// Whether an arithmetic ordering option is accepted: absent, or the one
/// literal `numericFirst`, compared case-insensitively.
pub open spec fn numeric_first_ok(o: Option<Seq<char>>) -> bool {
    match o {
        None => true,
        Some(s) => lower_chars(s) == "numericfirst"@,
    }
}

/// Whether a scalar is one of the numeric shapes.
pub open spec fn numeric_scalar(v: DruidNativeType) -> bool {
    v is Long || v is Double || v is Float
}

impl PostAggregator {
    /// An arithmetic combination of post-aggregators. The ordering, when
    /// given, must be the one literal `numericFirst` (compared
    /// case-insensitively); anything else is rejected with an error
    /// naming it and that literal.
    pub fn arithmetic(
        name: String,
        func: String,
        fields: Vec<PostAggregator>,
        ordering: Option<String>,
    ) -> (r: Result<Self, InvalidOrderingError>)
        ensures
            match r {
                Ok(p) => numeric_first_ok(ordering.deep_view()) && p == (
                PostAggregator::Arithmetic { name, func, fields, ordering }),
                Err(e) => {
                    &&& !numeric_first_ok(ordering.deep_view())
                    &&& ordering matches Some(s) && e.value@ == s@
                    &&& e.expected@ == "numericFirst"@
                },
            },
    {
        if let Some(s) = &ordering {
            let lower = to_lower(s.as_str());
            if !str_eq(lower.as_str(), "numericfirst") {
                return Err(
                    InvalidOrderingError::new(s.clone(), String::from_str("numericFirst")),
                );
            }
        }
        Ok(Self::Arithmetic { name, func, fields, ordering })
    }

    /// A field access.
    pub fn field_access(name: String, field_name: String) -> (r: Self)
        ensures
            r == (PostAggregator::FieldAccess { name, field_name }),
    {
        Self::FieldAccess { name, field_name }
    }

    /// A finalizing field access.
    pub fn finalizing_field_access(name: String, field_name: String) -> (r: Self)
        ensures
            r == (PostAggregator::FinalizingFieldAccess { name, field_name }),
    {
        Self::FinalizingFieldAccess { name, field_name }
    }

    /// A constant. The value must be one of the numeric scalar shapes;
    /// a string or an array is rejected.
    pub fn constant(name: &str, value: DruidNativeType) -> (r: Result<
        Self,
        NonNumericConstant,
    >)
        ensures
            match r {
                Ok(p) => numeric_scalar(value) && (p matches PostAggregator::Constant {
                    name: n,
                    value: v,
                } && n@ == name@ && v == value),
                Err(_) => !numeric_scalar(value),
            },
    {
        match &value {
            DruidNativeType::Long(_) | DruidNativeType::Double(_) | DruidNativeType::Float(_) => {
                Ok(Self::Constant { name: String::from_str(name), value })
            },
            _ => Err(NonNumericConstant),
        }
    }

    /// The greatest of long-valued fields.
    pub fn long_greatest(name: String, fields: Vec<PostAggregator>) -> (r: Self)
        ensures
            r == (PostAggregator::LongGreatest { name, fields }),
    {
        Self::LongGreatest { name, fields }
    }

    /// The greatest of double-valued fields.
    pub fn double_greatest(name: String, fields: Vec<PostAggregator>) -> (r: Self)
        ensures
            r == (PostAggregator::DoubleGreatest { name, fields }),
    {
        Self::DoubleGreatest { name, fields }
    }

    /// The least of long-valued fields.
    pub fn long_least(name: String, fields: Vec<PostAggregator>) -> (r: Self)
        ensures
            r == (PostAggregator::LongLeast { name, fields }),
    {
        Self::LongLeast { name, fields }
    }

    /// The least of double-valued fields.
    pub fn double_least(name: String, fields: Vec<PostAggregator>) -> (r: Self)
        ensures
            r == (PostAggregator::DoubleLeast { name, fields }),
    {
        Self::DoubleLeast { name, fields }
    }

    /// A JavaScript post-aggregator.
    pub fn javascript(name: String, field_names: Vec<String>, function: String) -> (r: Self)
        ensures
            r == (PostAggregator::Javascript { name, field_names, function }),
    {
        Self::Javascript { name, field_names, function }
    }

    /// A hyper-unique cardinality post-aggregator.
    pub fn hyper_unique_cardinality(name: String, field_name: String) -> (r: Self)
        ensures
            r == (PostAggregator::HyperUniqueCardinality { name, field_name }),
    {
        Self::HyperUniqueCardinality { name, field_name }
    }

    /// This post-aggregator's JSON wire form.
    pub fn to_json(&self) -> (r: JsonValue)
        ensures
            r@ == post_agg_jsonv(*self),
        decreases *self, 1int,
    {
        let mut b = ObjBuilder::new();
        match self {
            Self::Arithmetic { name, func, fields, ordering } => {
                b.field("type", jstr("arithmetic"));
                b.field("name", jstring(name.clone()));
                b.field("fn", jstring(func.clone()));
                b.field("fields", post_aggs_to_json(fields));
                b.field_opt_string("ordering", ordering);
            },
            Self::FieldAccess { name, field_name } => {
                b.field("type", jstr("fieldAccess"));
                b.field("name", jstring(name.clone()));
                b.field("fieldName", jstring(field_name.clone()));
            },
            Self::FinalizingFieldAccess { name, field_name } => {
                b.field("type", jstr("finalizingFieldAccess"));
                b.field("name", jstring(name.clone()));
                b.field("fieldName", jstring(field_name.clone()));
            },
            Self::Constant { name, value } => {
                b.field("type", jstr("constant"));
                b.field("name", jstring(name.clone()));
                b.field("value", value.to_json());
            },
            Self::LongGreatest { name, fields } => {
                b.field("type", jstr("longGreatest"));
                b.field("name", jstring(name.clone()));
                b.field("fields", post_aggs_to_json(fields));
            },
            Self::DoubleGreatest { name, fields } => {
                b.field("type", jstr("doubleGreatest"));
                b.field("name", jstring(name.clone()));
                b.field("fields", post_aggs_to_json(fields));
            },
            Self::LongLeast { name, fields } => {
                b.field("type", jstr("longLeast"));
                b.field("name", jstring(name.clone()));
                b.field("fields", post_aggs_to_json(fields));
            },
            Self::DoubleLeast { name, fields } => {
                b.field("type", jstr("doubleLeast"));
                b.field("name", jstring(name.clone()));
                b.field("fields", post_aggs_to_json(fields));
            },
            Self::Javascript { name, field_names, function } => {
                b.field("type", jstr("javascript"));
                b.field("name", jstring(name.clone()));
                b.field("fieldNames", strs_to_json(field_names));
                b.field("function", jstring(function.clone()));
            },
            Self::HyperUniqueCardinality { name, field_name } => {
                b.field("type", jstr("hyperUniqueCardinality"));
                b.field("name", jstring(name.clone()));
                b.field("fieldName", jstring(field_name.clone()));
            },
        }
        b.finish()
    }
}

/// A JSON array of post-aggregators.
#[verifier::loop_isolation(false)]
pub fn post_aggs_to_json(xs: &Vec<PostAggregator>) -> (r: JsonValue)
    ensures
        r@ == JsonV::Arr(post_aggs_jsonv(xs@, xs@.len() as int)),
    decreases xs@, 0int,
{
    let mut items: Vec<JsonValue> = Vec::new();
    let mut i: usize = 0;
    proof {
        lemma_post_aggs_jsonv(xs@, xs@.len() as int);
    }
    while i < xs.len()
        invariant
            i <= xs@.len(),
            items@.len() == i,
            forall|j: int| 0 <= j < i ==> #[trigger] items@[j]@ == post_agg_jsonv(xs@[j]),
        decreases xs@.len() - i,
    {
        items.push(xs[i].to_json());
        i = i + 1;
    }
    let r = jarr(items);
    proof {
        assert(r@ matches JsonV::Arr(s) && s =~= post_aggs_jsonv(xs@, xs@.len() as int));
    }
    r
}

/// The JSON wire form of a post-aggregator. The arithmetic function goes
/// on the wire under the key `fn`.
pub open spec fn post_agg_jsonv(p: PostAggregator) -> JsonV
    decreases p, 2int,
{
    match p {
        PostAggregator::Arithmetic { name, func, fields, ordering } => JsonV::Obj(
            opt_str_entry(
                Seq::empty().push(("type"@, JsonV::Str("arithmetic"@))).push(
                    ("name"@, JsonV::Str(name@)),
                ).push(("fn"@, JsonV::Str(func@))).push(
                    ("fields"@, JsonV::Arr(post_aggs_jsonv(fields@, fields@.len() as int))),
                ),
                "ordering"@,
                ordering.deep_view(),
            ),
        ),
        PostAggregator::FieldAccess { name, field_name } => JsonV::Obj(
            Seq::empty().push(("type"@, JsonV::Str("fieldAccess"@))).push(
                ("name"@, JsonV::Str(name@)),
            ).push(("fieldName"@, JsonV::Str(field_name@))),
        ),
        PostAggregator::FinalizingFieldAccess { name, field_name } => JsonV::Obj(
            Seq::empty().push(("type"@, JsonV::Str("finalizingFieldAccess"@))).push(
                ("name"@, JsonV::Str(name@)),
            ).push(("fieldName"@, JsonV::Str(field_name@))),
        ),
        PostAggregator::Constant { name, value } => JsonV::Obj(
            Seq::empty().push(("type"@, JsonV::Str("constant"@))).push(
                ("name"@, JsonV::Str(name@)),
            ).push(("value"@, native_jsonv(value))),
        ),
        PostAggregator::LongGreatest { name, fields } => JsonV::Obj(
            Seq::empty().push(("type"@, JsonV::Str("longGreatest"@))).push(
                ("name"@, JsonV::Str(name@)),
            ).push(("fields"@, JsonV::Arr(post_aggs_jsonv(fields@, fields@.len() as int)))),
        ),
        PostAggregator::DoubleGreatest { name, fields } => JsonV::Obj(
            Seq::empty().push(("type"@, JsonV::Str("doubleGreatest"@))).push(
                ("name"@, JsonV::Str(name@)),
            ).push(("fields"@, JsonV::Arr(post_aggs_jsonv(fields@, fields@.len() as int)))),
        ),
        PostAggregator::LongLeast { name, fields } => JsonV::Obj(
            Seq::empty().push(("type"@, JsonV::Str("longLeast"@))).push(
                ("name"@, JsonV::Str(name@)),
            ).push(("fields"@, JsonV::Arr(post_aggs_jsonv(fields@, fields@.len() as int)))),
        ),
        PostAggregator::DoubleLeast { name, fields } => JsonV::Obj(
            Seq::empty().push(("type"@, JsonV::Str("doubleLeast"@))).push(
                ("name"@, JsonV::Str(name@)),
            ).push(("fields"@, JsonV::Arr(post_aggs_jsonv(fields@, fields@.len() as int)))),
        ),
        PostAggregator::Javascript { name, field_names, function } => JsonV::Obj(
            Seq::empty().push(("type"@, JsonV::Str("javascript"@))).push(
                ("name"@, JsonV::Str(name@)),
            ).push(("fieldNames"@, JsonV::Arr(strs_jsonv(field_names@)))).push(
                ("function"@, JsonV::Str(function@)),
            ),
        ),
        PostAggregator::HyperUniqueCardinality { name, field_name } => JsonV::Obj(
            Seq::empty().push(("type"@, JsonV::Str("hyperUniqueCardinality"@))).push(
                ("name"@, JsonV::Str(name@)),
            ).push(("fieldName"@, JsonV::Str(field_name@))),
        ),
    }
}

/// The JSON wire forms of the first `n` post-aggregators of a list.
pub open spec fn post_aggs_jsonv(s: Seq<PostAggregator>, n: int) -> Seq<JsonV>
    decreases s, 1int, n,
{
    if n <= 0 || n > s.len() {
        Seq::empty()
    } else {
        post_aggs_jsonv(s, n - 1).push(post_agg_jsonv(s[n - 1]))
    }
}

/// [`post_aggs_jsonv`] is the element-wise wire form of the list.
pub proof fn lemma_post_aggs_jsonv(s: Seq<PostAggregator>, n: int)
    requires
        0 <= n <= s.len(),
    ensures
        post_aggs_jsonv(s, n).len() == n,
        forall|i: int| 0 <= i < n ==> #[trigger] post_aggs_jsonv(s, n)[i] == post_agg_jsonv(
            s[i],
        ),
    decreases n,
{
    if n > 0 {
        lemma_post_aggs_jsonv(s, n - 1);
    }
}

} // verus!
