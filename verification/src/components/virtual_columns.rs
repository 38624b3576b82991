//! Virtual columns: expression columns computed at query time.

use vstd::prelude::*;

verus! {

use crate::json::JsonV;
use crate::json::JsonValue;
use crate::json::ObjBuilder;
use crate::json::jstr;
use crate::json::jstring;
use crate::json::opt_str_entry;

/// A virtual column. Only the expression kind exists.
pub enum VirtaulColumn {
    Expression { name: String, expression: String, output_type: Option<String> },
}

impl VirtaulColumn {
    /// An expression virtual column.
    pub fn expression(name: String, expression: String, output_type: Option<String>) -> (r:
        Self)
        ensures
            r == (VirtaulColumn::Expression { name, expression, output_type }),
    {
        Self::Expression { name, expression, output_type }
    }

    /// This virtual column's JSON wire form.
    pub fn to_json(&self) -> (r: JsonValue)
        ensures
            r@ == virtual_column_jsonv(*self),
    {
        match self {
            Self::Expression { name, expression, output_type } => {
                let mut b = ObjBuilder::new();
                b.field("type", jstr("expression"));
                b.field("name", jstring(name.clone()));
                b.field("expression", jstring(expression.clone()));
                b.field_opt_string("outputType", output_type);
                b.finish()
            },
        }
    }
}

/// The element-wise JSON form of a list of virtual columns.
pub open spec fn virtual_columns_jsonv(s: Seq<VirtaulColumn>) -> Seq<JsonV> {
    Seq::new(s.len(), |i: int| virtual_column_jsonv(s[i]))
}

/// A JSON array of virtual columns.
pub fn virtual_columns_to_json(xs: &Vec<VirtaulColumn>) -> (r: JsonValue)
    ensures
        r@ == JsonV::Arr(virtual_columns_jsonv(xs@)),
{
    let mut items: Vec<JsonValue> = Vec::new();
    let mut i: usize = 0;
    while i < xs.len()
        invariant
            i <= xs@.len(),
            items@.len() == i,
            forall|j: int| 0 <= j < i ==> #[trigger] items@[j]@ == virtual_column_jsonv(
                xs@[j],
            ),
        decreases xs@.len() - i,
    {
        items.push(xs[i].to_json());
        i = i + 1;
    }
    let r = crate::json::jarr(items);
    proof {
        assert(r@ matches JsonV::Arr(s) && s =~= virtual_columns_jsonv(xs@));
    }
    r
}

/// The JSON wire form of a virtual column.
pub open spec fn virtual_column_jsonv(v: VirtaulColumn) -> JsonV {
    match v {
        VirtaulColumn::Expression { name, expression, output_type } => JsonV::Obj(
            opt_str_entry(
                Seq::empty().push(("type"@, JsonV::Str("expression"@))).push(
                    ("name"@, JsonV::Str(name@)),
                ).push(("expression"@, JsonV::Str(expression@))),
                "outputType"@,
                output_type.deep_view(),
            ),
        ),
    }
}

} // verus!
