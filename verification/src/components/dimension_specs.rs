//! Dimension specs: how a dimension is selected, renamed, transformed or
//! filtered in a query.

use vstd::prelude::*;

verus! {

use crate::components::druid_types::DruidNativeType;
use crate::components::extraction_functions::ExtractionFunction;
use crate::components::extraction_functions::LookupError;
use crate::components::extraction_functions::extraction_fn_jsonv;
use crate::components::extraction_functions::native_opt;
use crate::components::extraction_functions::retain_replace_conflict;
use crate::components::extraction_functions::retain_replace_conflict_exec;
use crate::components::lookups::Lookup;
use crate::components::lookups::lookup_jsonv;
use crate::json::JsonV;
use crate::json::JsonValue;
use crate::json::ObjBuilder;
use crate::json::jarr;
use crate::json::jstr;
use crate::json::jstring;
use crate::json::opt_bool_entry;
use crate::json::opt_entry;
use crate::json::opt_str_entry;
use crate::json::strs_jsonv;
use crate::json::strs_to_json;

/// A dimension spec, possibly wrapping another one through the filtered
/// kinds' delegate.
pub enum DimensionSpec {
    Default { dimension: String, output_name: String, output_type: Option<String> },
    Extraction {
        dimension: String,
        output_name: String,
        extraction_fn: ExtractionFunction,
        output_type: Option<String>,
    },
    ListFiltered { delegate: Box<DimensionSpec>, values: Vec<String>, is_whitelist: Option<bool> },
    RegexFiltered { delegate: Box<DimensionSpec>, pattern: String },
    PrefixFiltered { delegate: Box<DimensionSpec>, prefix: String },
    Lookup {
        dimension: String,
        output_name: String,
        retain_missing_value: Option<bool>,
        replace_missing_value_with: Option<DruidNativeType>,
        lookup: Option<Lookup>,
        optimize: Option<bool>,
        name: Option<String>,
    },
}

impl DimensionSpec {
    /// A lookup dimension spec. Retaining the missing value together with
    /// a real replacement is rejected (an empty-string replacement counts
    /// as none); a nested lookup must be of the map kind.
    pub fn lookup(
        dimension: &str,
        output_name: &str,
        retain_missing_value: Option<bool>,
        replace_missing_value_with: Option<DruidNativeType>,
        lookup: Option<Lookup>,
        optimize: Option<bool>,
        name: Option<String>,
    ) -> (r: Result<Self, LookupError>)
        ensures
            match r {
                Ok(d) => {
                    &&& !retain_replace_conflict(
                        retain_missing_value,
                        replace_missing_value_with,
                    )
                    &&& (d matches DimensionSpec::Lookup {
                        dimension: dd,
                        output_name: on,
                        retain_missing_value: rmv,
                        replace_missing_value_with: rmw,
                        lookup: lk,
                        optimize: op,
                        name: nm,
                    } && dd@ == dimension@ && on@ == output_name@ && rmv
                        == retain_missing_value && rmw == replace_missing_value_with && lk
                        == lookup && op == optimize && nm == name)
                },
                Err(err) => {
                    &&& retain_replace_conflict(
                        retain_missing_value,
                        replace_missing_value_with,
                    )
                    &&& err is RetainingReplacingSimultaneously
                },
            },
    {
        if retain_replace_conflict_exec(&retain_missing_value, &replace_missing_value_with) {
            return Err(LookupError::RetainingReplacingSimultaneously);
        }
        match &lookup {
            Some(Lookup::Mapping { .. }) | None => Ok(
                Self::Lookup {
                    dimension: String::from_str(dimension),
                    output_name: String::from_str(output_name),
                    retain_missing_value,
                    replace_missing_value_with,
                    lookup,
                    optimize,
                    name,
                },
            ),
        }
    }

    /// This dimension spec's JSON wire form.
    pub fn to_json(&self) -> (r: JsonValue)
        ensures
            r@ == dim_spec_jsonv(*self),
        decreases *self,
    {
        let mut b = ObjBuilder::new();
        match self {
            Self::Default { dimension, output_name, output_type } => {
                b.field("type", jstr("default"));
                b.field("dimension", jstring(dimension.clone()));
                b.field("outputName", jstring(output_name.clone()));
                b.field_opt_string("outputType", output_type);
            },
            Self::Extraction { dimension, output_name, extraction_fn, output_type } => {
                b.field("type", jstr("extraction"));
                b.field("dimension", jstring(dimension.clone()));
                b.field("outputName", jstring(output_name.clone()));
                b.field("extractionFn", extraction_fn.to_json());
                b.field_opt_string("outputType", output_type);
            },
            Self::ListFiltered { delegate, values, is_whitelist } => {
                b.field("type", jstr("listFiltered"));
                b.field("delegate", delegate.to_json());
                b.field("values", strs_to_json(values));
                b.field_opt_bool("isWhitelist", is_whitelist);
            },
            Self::RegexFiltered { delegate, pattern } => {
                b.field("type", jstr("regexFiltered"));
                b.field("delegate", delegate.to_json());
                b.field("pattern", jstring(pattern.clone()));
            },
            Self::PrefixFiltered { delegate, prefix } => {
                b.field("type", jstr("prefixFiltered"));
                b.field("delegate", delegate.to_json());
                b.field("prefix", jstring(prefix.clone()));
            },
            Self::Lookup {
                dimension,
                output_name,
                retain_missing_value,
                replace_missing_value_with,
                lookup,
                optimize,
                name,
            } => {
                b.field("type", jstr("lookup"));
                b.field("dimension", jstring(dimension.clone()));
                b.field("outputName", jstring(output_name.clone()));
                b.field_opt_bool("retainMissingValue", retain_missing_value);
                if let Some(v) = replace_missing_value_with {
                    b.field("replaceMissingValueWith", v.to_json());
                }
                if let Some(l) = lookup {
                    b.field("lookup", l.to_json());
                }
                b.field_opt_bool("optimize", optimize);
                b.field_opt_string("name", name);
            },
        }
        b.finish()
    }
}

/// The JSON wire form of a dimension spec.
pub open spec fn dim_spec_jsonv(d: DimensionSpec) -> JsonV
    decreases d,
{
    match d {
        DimensionSpec::Default { dimension, output_name, output_type } => JsonV::Obj(
            opt_str_entry(
                Seq::empty().push(("type"@, JsonV::Str("default"@))).push(
                    ("dimension"@, JsonV::Str(dimension@)),
                ).push(("outputName"@, JsonV::Str(output_name@))),
                "outputType"@,
                output_type.deep_view(),
            ),
        ),
        DimensionSpec::Extraction { dimension, output_name, extraction_fn, output_type } => JsonV::Obj(
            opt_str_entry(
                Seq::empty().push(("type"@, JsonV::Str("extraction"@))).push(
                    ("dimension"@, JsonV::Str(dimension@)),
                ).push(("outputName"@, JsonV::Str(output_name@))).push(
                    ("extractionFn"@, extraction_fn_jsonv(extraction_fn)),
                ),
                "outputType"@,
                output_type.deep_view(),
            ),
        ),
        DimensionSpec::ListFiltered { delegate, values, is_whitelist } => JsonV::Obj(
            opt_bool_entry(
                Seq::empty().push(("type"@, JsonV::Str("listFiltered"@))).push(
                    ("delegate"@, dim_spec_jsonv(*delegate)),
                ).push(("values"@, JsonV::Arr(strs_jsonv(values@)))),
                "isWhitelist"@,
                is_whitelist,
            ),
        ),
        DimensionSpec::RegexFiltered { delegate, pattern } => JsonV::Obj(
            Seq::empty().push(("type"@, JsonV::Str("regexFiltered"@))).push(
                ("delegate"@, dim_spec_jsonv(*delegate)),
            ).push(("pattern"@, JsonV::Str(pattern@))),
        ),
        DimensionSpec::PrefixFiltered { delegate, prefix } => JsonV::Obj(
            Seq::empty().push(("type"@, JsonV::Str("prefixFiltered"@))).push(
                ("delegate"@, dim_spec_jsonv(*delegate)),
            ).push(("prefix"@, JsonV::Str(prefix@))),
        ),
        DimensionSpec::Lookup {
            dimension,
            output_name,
            retain_missing_value,
            replace_missing_value_with,
            lookup,
            optimize,
            name,
        } => {
            let es = Seq::empty().push(("type"@, JsonV::Str("lookup"@))).push(
                ("dimension"@, JsonV::Str(dimension@)),
            ).push(("outputName"@, JsonV::Str(output_name@)));
            let es = opt_bool_entry(es, "retainMissingValue"@, retain_missing_value);
            let es = opt_entry(
                es,
                "replaceMissingValueWith"@,
                native_opt(replace_missing_value_with),
            );
            let es = opt_entry(
                es,
                "lookup"@,
                match lookup {
                    Some(l) => Some(lookup_jsonv(l)),
                    None => None,
                },
            );
            let es = opt_bool_entry(es, "optimize"@, optimize);
            let es = opt_str_entry(es, "name"@, name.deep_view());
            JsonV::Obj(es)
        },
    }
}

/// The element-wise JSON form of a list of dimension specs.
pub open spec fn dim_specs_jsonv(s: Seq<DimensionSpec>) -> Seq<JsonV> {
    Seq::new(s.len(), |i: int| dim_spec_jsonv(s[i]))
}

/// A JSON array of dimension specs.
pub fn dim_specs_to_json(xs: &Vec<DimensionSpec>) -> (r: JsonValue)
    ensures
        r@ == JsonV::Arr(dim_specs_jsonv(xs@)),
{
    let mut items: Vec<JsonValue> = Vec::new();
    let mut i: usize = 0;
    while i < xs.len()
        invariant
            i <= xs@.len(),
            items@.len() == i,
            forall|j: int| 0 <= j < i ==> #[trigger] items@[j]@ == dim_spec_jsonv(xs@[j]),
        decreases xs@.len() - i,
    {
        items.push(xs[i].to_json());
        i = i + 1;
    }
    let r = jarr(items);
    proof {
        assert(r@ matches JsonV::Arr(s) && s =~= dim_specs_jsonv(xs@));
    }
    r
}

} // verus!
