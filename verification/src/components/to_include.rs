//! Column selections for segment metadata queries.

use vstd::prelude::*;

verus! {

use crate::json::JsonV;
use crate::json::JsonValue;
use crate::json::ObjBuilder;
use crate::json::jstr;
use crate::json::strs_jsonv;
use crate::json::strs_to_json;

/// Which columns a segment metadata query reports on: all of them, none,
/// or a listed few.
pub enum ToInclude {
    All,
    NoColumns,
    List { columns: Vec<String> },
}

impl ToInclude {
    /// Include every column.
    pub fn all() -> (r: Self)
        ensures
            r == ToInclude::All,
    {
        Self::All
    }

    /// Include no column.
    pub fn none() -> (r: Self)
        ensures
            r == ToInclude::NoColumns,
    {
        Self::NoColumns
    }

    /// Include the listed columns.
    pub fn list(columns: Vec<String>) -> (r: Self)
        ensures
            r == (ToInclude::List { columns }),
    {
        Self::List { columns }
    }

    /// This selection's JSON wire form.
    pub fn to_json(&self) -> (r: JsonValue)
        ensures
            r@ == to_include_jsonv(*self),
    {
        let mut b = ObjBuilder::new();
        match self {
            Self::All => {
                b.field("type", jstr("all"));
            },
            Self::NoColumns => {
                b.field("type", jstr("none"));
            },
            Self::List { columns } => {
                b.field("type", jstr("list"));
                b.field("columns", strs_to_json(columns));
            },
        }
        b.finish()
    }
}

/// The JSON wire form of a column selection.
pub open spec fn to_include_jsonv(t: ToInclude) -> JsonV {
    match t {
        ToInclude::All => JsonV::Obj(Seq::empty().push(("type"@, JsonV::Str("all"@)))),
        ToInclude::NoColumns => JsonV::Obj(Seq::empty().push(("type"@, JsonV::Str("none"@)))),
        ToInclude::List { columns } => JsonV::Obj(
            Seq::empty().push(("type"@, JsonV::Str("list"@))).push(
                ("columns"@, JsonV::Arr(strs_jsonv(columns@))),
            ),
        ),
    }
}

} // verus!
