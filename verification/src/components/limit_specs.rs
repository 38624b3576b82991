//! Limit specs: how a group-by query limits and orders its rows.

use vstd::prelude::*;

verus! {

use crate::components::ordering::InvalidOrderingError;
use crate::components::ordering::Ordering;
use crate::components::ordering::ordering_jsonv;
use crate::components::ordering::ordering_of_lower;
use crate::json::JsonV;
use crate::json::JsonValue;
use crate::json::ObjBuilder;
use crate::json::jarr;
use crate::json::jstr;
use crate::json::jstring;
use crate::json::opt_entry;
use crate::json::opt_u64_entry;
use crate::text::lower_chars;

/// A limit spec: the default kind with limit, offset and ordering
/// columns, or one ordering column.
pub enum LimitSpec {
    Default { limit: Option<usize>, offset: Option<usize>, columns: Option<Vec<LimitSpec>> },
    OrderByColumnSpec { dimension: String, direction: String, dimension_order: Option<Ordering> },
}

impl LimitSpec {
    /// The default limit spec.
    pub fn default(
        limit: Option<usize>,
        offset: Option<usize>,
        columns: Option<Vec<LimitSpec>>,
    ) -> (r: Self)
        ensures
            r == (LimitSpec::Default { limit, offset, columns }),
    {
        Self::Default { limit, offset, columns }
    }

    /// One ordering column. A dimension order given as a string is read
    /// case-insensitively against the legal ordering set; a string
    /// outside it is rejected with an error naming it and the set.
    pub fn order_by_columns_spec(
        dimension: String,
        direction: String,
        dimension_order: Option<String>,
    ) -> (r: Result<Self, InvalidOrderingError>)
        ensures
            match dimension_order {
                None => r matches Ok(l) && l == (LimitSpec::OrderByColumnSpec {
                    dimension,
                    direction,
                    dimension_order: None,
                }),
                Some(s) => match ordering_of_lower(lower_chars(s@)) {
                    Some(o) => r matches Ok(l) && l == (LimitSpec::OrderByColumnSpec {
                        dimension,
                        direction,
                        dimension_order: Some(o),
                    }),
                    None => r matches Err(e) && e.value@ == s@ && e.expected@
                        == "lexicographic, alphanumeric, numeric, strlen"@,
                },
            },
    {
        let order = match dimension_order {
            None => None,
            Some(s) => match Ordering::parse(s.as_str()) {
                Ok(o) => Some(o),
                Err(e) => {
                    return Err(e);
                },
            },
        };
        Ok(Self::OrderByColumnSpec { dimension, direction, dimension_order: order })
    }

    /// This limit spec's JSON wire form.
    pub fn to_json(&self) -> (r: JsonValue)
        ensures
            r@ == limit_spec_jsonv(*self),
        decreases *self, 1int,
    {
        match self {
            Self::Default { limit, offset, columns } => {
                let mut b = ObjBuilder::new();
                b.field("type", jstr("default"));
                b.field_opt_usize("limit", limit);
                b.field_opt_usize("offset", offset);
                if let Some(cols) = columns {
                    b.field("columns", limit_specs_to_json(cols));
                }
                b.finish()
            },
            Self::OrderByColumnSpec { dimension, direction, dimension_order } => {
                let mut b = ObjBuilder::new();
                b.field("type", jstr("orderByColumnSpec"));
                b.field("dimension", jstring(dimension.clone()));
                b.field("direction", jstring(direction.clone()));
                if let Some(o) = dimension_order {
                    b.field("dimensionOrder", o.to_json());
                }
                b.finish()
            },
        }
    }
}

/// A JSON array of limit specs.
#[verifier::loop_isolation(false)]
fn limit_specs_to_json(xs: &Vec<LimitSpec>) -> (r: JsonValue)
    ensures
        r@ == JsonV::Arr(limit_specs_jsonv(xs@, xs@.len() as int)),
    decreases xs@, 0int,
{
    let mut items: Vec<JsonValue> = Vec::new();
    let mut i: usize = 0;
    proof {
        lemma_limit_specs_jsonv(xs@, xs@.len() as int);
    }
    while i < xs.len()
        invariant
            i <= xs@.len(),
            items@.len() == i,
            forall|j: int| 0 <= j < i ==> #[trigger] items@[j]@ == limit_spec_jsonv(xs@[j]),
            forall|j: int|
                0 <= j < xs@.len() ==> #[trigger] limit_specs_jsonv(xs@, xs@.len() as int)[j]
                    == limit_spec_jsonv(xs@[j]),
            limit_specs_jsonv(xs@, xs@.len() as int).len() == xs@.len(),
        decreases xs@.len() - i,
    {
        items.push(xs[i].to_json());
        i = i + 1;
    }
    let r = jarr(items);
    proof {
        assert(r@ matches JsonV::Arr(s) && s =~= limit_specs_jsonv(xs@, xs@.len() as int));
    }
    r
}

/// The JSON wire form of a limit spec.
pub open spec fn limit_spec_jsonv(l: LimitSpec) -> JsonV
    decreases l, 2int,
{
    match l {
        LimitSpec::Default { limit, offset, columns } => JsonV::Obj(
            opt_entry(
                opt_u64_entry(
                    opt_u64_entry(
                        Seq::empty().push(("type"@, JsonV::Str("default"@))),
                        "limit"@,
                        match limit {
                            Some(n) => Some(n as u64),
                            None => None,
                        },
                    ),
                    "offset"@,
                    match offset {
                        Some(n) => Some(n as u64),
                        None => None,
                    },
                ),
                "columns"@,
                match columns {
                    Some(cols) => Some(
                        JsonV::Arr(limit_specs_jsonv(cols@, cols@.len() as int)),
                    ),
                    None => None,
                },
            ),
        ),
        LimitSpec::OrderByColumnSpec { dimension, direction, dimension_order } => JsonV::Obj(
            opt_entry(
                Seq::empty().push(("type"@, JsonV::Str("orderByColumnSpec"@))).push(
                    ("dimension"@, JsonV::Str(dimension@)),
                ).push(("direction"@, JsonV::Str(direction@))),
                "dimensionOrder"@,
                match dimension_order {
                    Some(o) => Some(ordering_jsonv(o)),
                    None => None,
                },
            ),
        ),
    }
}

/// The JSON wire forms of the first `n` specs of a list.
pub open spec fn limit_specs_jsonv(s: Seq<LimitSpec>, n: int) -> Seq<JsonV>
    decreases s, 1int, n,
{
    if n <= 0 || n > s.len() {
        Seq::empty()
    } else {
        limit_specs_jsonv(s, n - 1).push(limit_spec_jsonv(s[n - 1]))
    }
}

/// [`limit_specs_jsonv`] is the element-wise wire form of the list.
pub proof fn lemma_limit_specs_jsonv(s: Seq<LimitSpec>, n: int)
    requires
        0 <= n <= s.len(),
    ensures
        limit_specs_jsonv(s, n).len() == n,
        forall|i: int| 0 <= i < n ==> #[trigger] limit_specs_jsonv(s, n)[i]
            == limit_spec_jsonv(s[i]),
    decreases n,
{
    if n > 0 {
        lemma_limit_specs_jsonv(s, n - 1);
    }
}

} // verus!
