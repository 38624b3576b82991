//! Having specs: post-aggregation row filters, analogous to SQL HAVING.

use vstd::prelude::*;

verus! {

use crate::components::druid_types::DruidNativeType;
use crate::components::druid_types::native_jsonv;
use crate::components::filters::Filter;
use crate::components::filters::filter_jsonv;
use crate::json::JsonV;
use crate::json::JsonValue;
use crate::json::ObjBuilder;
use crate::json::jarr;
use crate::json::jstr;
use crate::json::jstring;

/// A post-aggregation row filter.
pub enum HavingSpec {
    Filter { filter: Filter },
    EqualTo { aggregation: String, value: DruidNativeType },
    GreaterThan { aggregation: String, value: DruidNativeType },
    LessThan { aggregation: String, value: DruidNativeType },
    DimSelector { dimension: String, value: DruidNativeType },
    And { having_specs: Vec<HavingSpec> },
    Or { having_specs: Vec<HavingSpec> },
    Not { having_spec: Box<HavingSpec> },
}

impl HavingSpec {
    /// A having spec wrapping a row filter.
    pub fn filter(filter: Filter) -> (r: Self)
        ensures
            r == (HavingSpec::Filter { filter }),
    {
        Self::Filter { filter }
    }

    /// Keep rows whose aggregation equals the value.
    pub fn equal_to(aggregation: String, value: DruidNativeType) -> (r: Self)
        ensures
            r == (HavingSpec::EqualTo { aggregation, value }),
    {
        Self::EqualTo { aggregation, value }
    }

    /// Keep rows whose aggregation exceeds the value.
    pub fn greater_than(aggregation: String, value: DruidNativeType) -> (r: Self)
        ensures
            r == (HavingSpec::GreaterThan { aggregation, value }),
    {
        Self::GreaterThan { aggregation, value }
    }

    /// Keep rows whose aggregation falls below the value.
    pub fn less_than(aggregation: String, value: DruidNativeType) -> (r: Self)
        ensures
            r == (HavingSpec::LessThan { aggregation, value }),
    {
        Self::LessThan { aggregation, value }
    }

    /// Keep rows whose dimension takes the value.
    pub fn dim_selector(dimension: String, value: DruidNativeType) -> (r: Self)
        ensures
            r == (HavingSpec::DimSelector { dimension, value }),
    {
        Self::DimSelector { dimension, value }
    }

    /// The conjunction of the given having specs.
    pub fn and(having_specs: Vec<HavingSpec>) -> (r: Self)
        ensures
            r == (HavingSpec::And { having_specs }),
    {
        Self::And { having_specs }
    }

    /// The disjunction of the given having specs.
    pub fn or(having_specs: Vec<HavingSpec>) -> (r: Self)
        ensures
            r == (HavingSpec::Or { having_specs }),
    {
        Self::Or { having_specs }
    }

    /// The negation of a having spec.
    pub fn not(having_spec: HavingSpec) -> (r: Self)
        ensures
            r == (HavingSpec::Not { having_spec: Box::new(having_spec) }),
    {
        Self::Not { having_spec: Box::new(having_spec) }
    }

    /// This having spec's JSON wire form.
    pub fn to_json(&self) -> (r: JsonValue)
        ensures
            r@ == having_spec_jsonv(*self),
        decreases *self, 1int,
    {
        let mut b = ObjBuilder::new();
        match self {
            Self::Filter { filter } => {
                b.field("type", jstr("filter"));
                b.field("filter", filter.to_json());
            },
            Self::EqualTo { aggregation, value } => {
                b.field("type", jstr("equalTo"));
                b.field("aggregation", jstring(aggregation.clone()));
                b.field("value", value.to_json());
            },
            Self::GreaterThan { aggregation, value } => {
                b.field("type", jstr("greaterThan"));
                b.field("aggregation", jstring(aggregation.clone()));
                b.field("value", value.to_json());
            },
            Self::LessThan { aggregation, value } => {
                b.field("type", jstr("lessThan"));
                b.field("aggregation", jstring(aggregation.clone()));
                b.field("value", value.to_json());
            },
            Self::DimSelector { dimension, value } => {
                b.field("type", jstr("dimSelector"));
                b.field("dimension", jstring(dimension.clone()));
                b.field("value", value.to_json());
            },
            Self::And { having_specs } => {
                b.field("type", jstr("and"));
                b.field("havingSpecs", having_specs_to_json(having_specs));
            },
            Self::Or { having_specs } => {
                b.field("type", jstr("or"));
                b.field("havingSpecs", having_specs_to_json(having_specs));
            },
            Self::Not { having_spec } => {
                b.field("type", jstr("not"));
                b.field("havingSpec", having_spec.to_json());
            },
        }
        b.finish()
    }
}

/// A JSON array of having specs.
#[verifier::loop_isolation(false)]
pub fn having_specs_to_json(xs: &Vec<HavingSpec>) -> (r: JsonValue)
    ensures
        r@ == JsonV::Arr(having_specs_jsonv(xs@, xs@.len() as int)),
    decreases xs@, 0int,
{
    let mut items: Vec<JsonValue> = Vec::new();
    let mut i: usize = 0;
    proof {
        lemma_having_specs_jsonv(xs@, xs@.len() as int);
    }
    while i < xs.len()
        invariant
            i <= xs@.len(),
            items@.len() == i,
            forall|j: int| 0 <= j < i ==> #[trigger] items@[j]@ == having_spec_jsonv(xs@[j]),
        decreases xs@.len() - i,
    {
        items.push(xs[i].to_json());
        i = i + 1;
    }
    let r = jarr(items);
    proof {
        assert(r@ matches JsonV::Arr(s) && s =~= having_specs_jsonv(xs@, xs@.len() as int));
    }
    r
}

/// The JSON wire form of a having spec.
pub open spec fn having_spec_jsonv(h: HavingSpec) -> JsonV
    decreases h, 2int,
{
    match h {
        HavingSpec::Filter { filter } => JsonV::Obj(
            Seq::empty().push(("type"@, JsonV::Str("filter"@))).push(
                ("filter"@, filter_jsonv(filter)),
            ),
        ),
        HavingSpec::EqualTo { aggregation, value } => JsonV::Obj(
            Seq::empty().push(("type"@, JsonV::Str("equalTo"@))).push(
                ("aggregation"@, JsonV::Str(aggregation@)),
            ).push(("value"@, native_jsonv(value))),
        ),
        HavingSpec::GreaterThan { aggregation, value } => JsonV::Obj(
            Seq::empty().push(("type"@, JsonV::Str("greaterThan"@))).push(
                ("aggregation"@, JsonV::Str(aggregation@)),
            ).push(("value"@, native_jsonv(value))),
        ),
        HavingSpec::LessThan { aggregation, value } => JsonV::Obj(
            Seq::empty().push(("type"@, JsonV::Str("lessThan"@))).push(
                ("aggregation"@, JsonV::Str(aggregation@)),
            ).push(("value"@, native_jsonv(value))),
        ),
        HavingSpec::DimSelector { dimension, value } => JsonV::Obj(
            Seq::empty().push(("type"@, JsonV::Str("dimSelector"@))).push(
                ("dimension"@, JsonV::Str(dimension@)),
            ).push(("value"@, native_jsonv(value))),
        ),
        HavingSpec::And { having_specs } => JsonV::Obj(
            Seq::empty().push(("type"@, JsonV::Str("and"@))).push(
                (
                    "havingSpecs"@,
                    JsonV::Arr(having_specs_jsonv(having_specs@, having_specs@.len() as int)),
                ),
            ),
        ),
        HavingSpec::Or { having_specs } => JsonV::Obj(
            Seq::empty().push(("type"@, JsonV::Str("or"@))).push(
                (
                    "havingSpecs"@,
                    JsonV::Arr(having_specs_jsonv(having_specs@, having_specs@.len() as int)),
                ),
            ),
        ),
        HavingSpec::Not { having_spec } => JsonV::Obj(
            Seq::empty().push(("type"@, JsonV::Str("not"@))).push(
                ("havingSpec"@, having_spec_jsonv(*having_spec)),
            ),
        ),
    }
}

/// The JSON wire forms of the first `n` having specs of a list.
pub open spec fn having_specs_jsonv(s: Seq<HavingSpec>, n: int) -> Seq<JsonV>
    decreases s, 1int, n,
{
    if n <= 0 || n > s.len() {
        Seq::empty()
    } else {
        having_specs_jsonv(s, n - 1).push(having_spec_jsonv(s[n - 1]))
    }
}

/// [`having_specs_jsonv`] is the element-wise wire form of the list.
pub proof fn lemma_having_specs_jsonv(s: Seq<HavingSpec>, n: int)
    requires
        0 <= n <= s.len(),
    ensures
        having_specs_jsonv(s, n).len() == n,
        forall|i: int| 0 <= i < n ==> #[trigger] having_specs_jsonv(s, n)[i]
            == having_spec_jsonv(s[i]),
    decreases n,
{
    if n > 0 {
        lemma_having_specs_jsonv(s, n - 1);
    }
}

} // verus!
