//! Lookups: inline value substitution maps.

use vstd::prelude::*;

verus! {

use crate::components::druid_types::DruidNativeType;
use crate::components::druid_types::native_jsonv;
use crate::json::JsonV;
use crate::json::JsonValue;
use crate::json::ObjBuilder;
use crate::json::jstr;
use crate::json::opt_bool_entry;

/// An inline lookup. The map kind is the only one carried inline in a
/// query; its entries keep their insertion order on the wire.
pub enum Lookup {
    Mapping { map: Vec<(String, DruidNativeType)>, injective: Option<bool> },
}

impl Lookup {
    /// A map lookup.
    pub fn map(map: Vec<(String, DruidNativeType)>, injective: Option<bool>) -> (r: Self)
        ensures
            r == (Lookup::Mapping { map, injective }),
    {
        Self::Mapping { map, injective }
    }

    /// This lookup's JSON wire form.
    pub fn to_json(&self) -> (r: JsonValue)
        ensures
            r@ == lookup_jsonv(*self),
    {
        match self {
            Self::Mapping { map, injective } => {
                let mut inner = ObjBuilder::new();
                let mut i: usize = 0;
                while i < map.len()
                    invariant
                        i <= map@.len(),
                        inner@.len() == i,
                        forall|j: int|
                            0 <= j < i ==> #[trigger] inner@[j] == (
                                map@[j].0@,
                                native_jsonv(map@[j].1),
                            ),
                    decreases map@.len() - i,
                {
                    inner.field(map[i].0.as_str(), map[i].1.to_json());
                    i = i + 1;
                }
                proof {
                    assert(inner@ =~= native_map_entries(map@));
                }
                let mut b = ObjBuilder::new();
                b.field("type", jstr("map"));
                b.field("map", inner.finish());
                b.field_opt_bool("injective", injective);
                b.finish()
            },
        }
    }
}

/// The entries of a lookup map as JSON object entries, in order.
pub open spec fn native_map_entries(s: Seq<(String, DruidNativeType)>) -> Seq<
    (Seq<char>, JsonV),
> {
    Seq::new(s.len(), |i: int| (s[i].0@, native_jsonv(s[i].1)))
}

/// The JSON wire form of a lookup.
pub open spec fn lookup_jsonv(l: Lookup) -> JsonV {
    match l {
        Lookup::Mapping { map, injective } => JsonV::Obj(
            opt_bool_entry(
                Seq::empty().push(("type"@, JsonV::Str("map"@))).push(
                    ("map"@, JsonV::Obj(native_map_entries(map@))),
                ),
                "injective"@,
                injective,
            ),
        ),
    }
}

} // verus!
