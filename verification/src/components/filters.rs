//! Filters: row predicates, recursive through the boolean combinators.

use vstd::prelude::*;

verus! {

use crate::components::dimension_specs::DimensionSpec;
use crate::components::dimension_specs::dim_spec_jsonv;
use crate::components::dimension_specs::dim_specs_jsonv;
use crate::components::dimension_specs::dim_specs_to_json;
use crate::components::extraction_functions::ExtractionFunction;
use crate::components::extraction_functions::extraction_fn_jsonv;
use crate::components::intervals::Interval;
use crate::components::intervals::intervals_jsonv;
use crate::components::intervals::intervals_to_json;
use crate::components::ordering::Ordering;
use crate::components::ordering::ordering_jsonv;
use crate::components::search_query_specs::SearchQuerySpec;
use crate::components::search_query_specs::search_query_spec_jsonv;
use crate::json::JsonV;
use crate::json::JsonValue;
use crate::json::ObjBuilder;
use crate::json::jarr;
use crate::json::jstr;
use crate::json::jstring;
use crate::json::nums_jsonv;
use crate::json::nums_to_json;
use crate::json::opt_bool_entry;
use crate::json::opt_entry;
use crate::json::opt_str_entry;
use crate::json::strs_jsonv;
use crate::json::strs_to_json;

/// A row filter.
pub enum Filter {
    Selector {
        dimension: DimensionSpec,
        value: String,
        extraction_fn: Option<ExtractionFunction>,
    },
    ColumnComparison { dimensions: Vec<DimensionSpec> },
    Regex {
        dimension: DimensionSpec,
        pattern: String,
        extraction_fn: Option<ExtractionFunction>,
    },
    And { fields: Vec<Filter> },
    Or { fields: Vec<Filter> },
    Not { field: Box<Filter> },
    Javascript {
        dimension: DimensionSpec,
        function: String,
        extraction_fn: Option<ExtractionFunction>,
    },
    Extraction { dimension: DimensionSpec, value: String, extraction_fn: ExtractionFunction },
    Search {
        dimension: DimensionSpec,
        query: SearchQuerySpec,
        extraction_fn: Option<ExtractionFunction>,
    },
    In { dimension: DimensionSpec, values: Vec<String> },
    Like {
        dimension: String,
        pattern: String,
        escape: Option<String>,
        extraction_fn: Option<ExtractionFunction>,
    },
    Bound {
        dimension: String,
        lower: Option<String>,
        upper: Option<String>,
        lower_strict: Option<bool>,
        upper_strict: Option<bool>,
        ordering: Option<Ordering>,
        extraction_fn: Option<ExtractionFunction>,
    },
    Interval {
        dimension: String,
        intervals: Vec<Interval>,
        extraction_fn: Option<ExtractionFunction>,
    },
    Expression { expression: String },
    True,
    Spatial { dimension: String, bound: Bound },
}

/// A spatial bound for the spatial filter; its coordinates are numerals
/// kept as text. This is unrelated to the bound *filter* above, which
/// compares dimension values against an ordering.
pub enum Bound {
    Rectangular { min_coords: Vec<String>, max_coords: Vec<String> },
    Radius { coords: Vec<String>, radius: String },
    Polygon { abscissa: Vec<String>, ordinate: Vec<String> },
}

impl Filter {
    /// A selector filter.
    pub fn selector(
        dimension: DimensionSpec,
        value: String,
        extraction_fn: Option<ExtractionFunction>,
    ) -> (r: Self)
        ensures
            r == (Filter::Selector { dimension, value, extraction_fn }),
    {
        Self::Selector { dimension, value, extraction_fn }
    }

    /// A column-comparison filter.
    pub fn column_comparison(dimensions: Vec<DimensionSpec>) -> (r: Self)
        ensures
            r == (Filter::ColumnComparison { dimensions }),
    {
        Self::ColumnComparison { dimensions }
    }

    /// A regular-expression filter.
    pub fn regex(
        dimension: DimensionSpec,
        pattern: String,
        extraction_fn: Option<ExtractionFunction>,
    ) -> (r: Self)
        ensures
            r == (Filter::Regex { dimension, pattern, extraction_fn }),
    {
        Self::Regex { dimension, pattern, extraction_fn }
    }

    /// The conjunction of the given filters.
    pub fn and(fields: Vec<Filter>) -> (r: Self)
        ensures
            r == (Filter::And { fields }),
    {
        Self::And { fields }
    }

    /// The disjunction of the given filters.
    pub fn or(fields: Vec<Filter>) -> (r: Self)
        ensures
            r == (Filter::Or { fields }),
    {
        Self::Or { fields }
    }

    /// The negation of a filter.
    pub fn not(field: Filter) -> (r: Self)
        ensures
            r == (Filter::Not { field: Box::new(field) }),
    {
        Self::Not { field: Box::new(field) }
    }

    /// A JavaScript filter.
    pub fn javascript(
        dimension: DimensionSpec,
        function: String,
        extraction_fn: Option<ExtractionFunction>,
    ) -> (r: Self)
        ensures
            r == (Filter::Javascript { dimension, function, extraction_fn }),
    {
        Self::Javascript { dimension, function, extraction_fn }
    }

    /// An extraction filter.
    pub fn extraction(
        dimension: DimensionSpec,
        value: String,
        extraction_fn: ExtractionFunction,
    ) -> (r: Self)
        ensures
            r == (Filter::Extraction { dimension, value, extraction_fn }),
    {
        Self::Extraction { dimension, value, extraction_fn }
    }

    /// A search filter.
    pub fn search(
        dimension: DimensionSpec,
        query: SearchQuerySpec,
        extraction_fn: Option<ExtractionFunction>,
    ) -> (r: Self)
        ensures
            r == (Filter::Search { dimension, query, extraction_fn }),
    {
        Self::Search { dimension, query, extraction_fn }
    }

    /// An in filter.
    pub fn in_filter(dimension: DimensionSpec, values: Vec<String>) -> (r: Self)
        ensures
            r == (Filter::In { dimension, values }),
    {
        Self::In { dimension, values }
    }

    /// A like filter.
    pub fn like(
        dimension: String,
        pattern: String,
        escape: Option<String>,
        extraction_fn: Option<ExtractionFunction>,
    ) -> (r: Self)
        ensures
            r == (Filter::Like { dimension, pattern, escape, extraction_fn }),
    {
        Self::Like { dimension, pattern, escape, extraction_fn }
    }

    /// A bound filter.
    pub fn bound(
        dimension: String,
        lower: Option<String>,
        upper: Option<String>,
        lower_strict: Option<bool>,
        upper_strict: Option<bool>,
        ordering: Option<Ordering>,
        extraction_fn: Option<ExtractionFunction>,
    ) -> (r: Self)
        ensures
            r == (Filter::Bound {
                dimension,
                lower,
                upper,
                lower_strict,
                upper_strict,
                ordering,
                extraction_fn,
            }),
    {
        Self::Bound {
            dimension,
            lower,
            upper,
            lower_strict,
            upper_strict,
            ordering,
            extraction_fn,
        }
    }

    /// An interval filter.
    pub fn interval(
        dimension: String,
        intervals: Vec<Interval>,
        extraction_fn: Option<ExtractionFunction>,
    ) -> (r: Self)
        ensures
            r == (Filter::Interval { dimension, intervals, extraction_fn }),
    {
        Self::Interval { dimension, intervals, extraction_fn }
    }

    /// An expression filter.
    pub fn expression(expression: String) -> (r: Self)
        ensures
            r == (Filter::Expression { expression }),
    {
        Self::Expression { expression }
    }

    /// The filter that accepts every row.
    pub fn true_filter() -> (r: Self)
        ensures
            r == Filter::True,
    {
        Self::True
    }

    /// A spatial filter.
    pub fn spatial(dimension: String, bound: Bound) -> (r: Self)
        ensures
            r == (Filter::Spatial { dimension, bound }),
    {
        Self::Spatial { dimension, bound }
    }

    /// This filter's JSON wire form.
    pub fn to_json(&self) -> (r: JsonValue)
        ensures
            r@ == filter_jsonv(*self),
        decreases *self, 1int,
    {
        let mut b = ObjBuilder::new();
        match self {
            Self::Selector { dimension, value, extraction_fn } => {
                b.field("type", jstr("selector"));
                b.field("dimension", dimension.to_json());
                b.field("value", jstring(value.clone()));
                if let Some(e) = extraction_fn {
                    b.field("extractionFn", e.to_json());
                }
            },
            Self::ColumnComparison { dimensions } => {
                b.field("type", jstr("columnComparison"));
                b.field("dimensions", dim_specs_to_json(dimensions));
            },
            Self::Regex { dimension, pattern, extraction_fn } => {
                b.field("type", jstr("regex"));
                b.field("dimension", dimension.to_json());
                b.field("pattern", jstring(pattern.clone()));
                if let Some(e) = extraction_fn {
                    b.field("extractionFn", e.to_json());
                }
            },
            Self::And { fields } => {
                b.field("type", jstr("and"));
                b.field("fields", filters_to_json(fields));
            },
            Self::Or { fields } => {
                b.field("type", jstr("or"));
                b.field("fields", filters_to_json(fields));
            },
            Self::Not { field } => {
                b.field("type", jstr("not"));
                b.field("field", field.to_json());
            },
            Self::Javascript { dimension, function, extraction_fn } => {
                b.field("type", jstr("javascript"));
                b.field("dimension", dimension.to_json());
                b.field("function", jstring(function.clone()));
                if let Some(e) = extraction_fn {
                    b.field("extractionFn", e.to_json());
                }
            },
            Self::Extraction { dimension, value, extraction_fn } => {
                b.field("type", jstr("extraction"));
                b.field("dimension", dimension.to_json());
                b.field("value", jstring(value.clone()));
                b.field("extractionFn", extraction_fn.to_json());
            },
            Self::Search { dimension, query, extraction_fn } => {
                b.field("type", jstr("search"));
                b.field("dimension", dimension.to_json());
                b.field("query", query.to_json());
                if let Some(e) = extraction_fn {
                    b.field("extractionFn", e.to_json());
                }
            },
            Self::In { dimension, values } => {
                b.field("type", jstr("in"));
                b.field("dimension", dimension.to_json());
                b.field("values", strs_to_json(values));
            },
            Self::Like { dimension, pattern, escape, extraction_fn } => {
                b.field("type", jstr("like"));
                b.field("dimension", jstring(dimension.clone()));
                b.field("pattern", jstring(pattern.clone()));
                b.field_opt_string("escape", escape);
                if let Some(e) = extraction_fn {
                    b.field("extractionFn", e.to_json());
                }
            },
            Self::Bound {
                dimension,
                lower,
                upper,
                lower_strict,
                upper_strict,
                ordering,
                extraction_fn,
            } => {
                b.field("type", jstr("bound"));
                b.field("dimension", jstring(dimension.clone()));
                b.field_opt_string("lower", lower);
                b.field_opt_string("upper", upper);
                b.field_opt_bool("lowerStrict", lower_strict);
                b.field_opt_bool("upperStrict", upper_strict);
                if let Some(o) = ordering {
                    b.field("ordering", o.to_json());
                }
                if let Some(e) = extraction_fn {
                    b.field("extractionFn", e.to_json());
                }
            },
            Self::Interval { dimension, intervals, extraction_fn } => {
                b.field("type", jstr("interval"));
                b.field("dimension", jstring(dimension.clone()));
                b.field("intervals", intervals_to_json(intervals));
                if let Some(e) = extraction_fn {
                    b.field("extractionFn", e.to_json());
                }
            },
            Self::Expression { expression } => {
                b.field("type", jstr("expression"));
                b.field("expression", jstring(expression.clone()));
            },
            Self::True => {
                b.field("type", jstr("true"));
            },
            Self::Spatial { dimension, bound } => {
                b.field("type", jstr("spatial"));
                b.field("dimension", jstring(dimension.clone()));
                b.field("bound", bound.to_json());
            },
        }
        b.finish()
    }
}

impl Bound {
    /// A rectangular spatial bound.
    pub fn rectangular(min_coords: Vec<String>, max_coords: Vec<String>) -> (r: Self)
        ensures
            r == (Bound::Rectangular { min_coords, max_coords }),
    {
        Self::Rectangular { min_coords, max_coords }
    }

    /// A radius spatial bound.
    pub fn radius(coords: Vec<String>, radius: String) -> (r: Self)
        ensures
            r == (Bound::Radius { coords, radius }),
    {
        Self::Radius { coords, radius }
    }

    /// A polygon spatial bound.
    pub fn polygon(abscissa: Vec<String>, ordinate: Vec<String>) -> (r: Self)
        ensures
            r == (Bound::Polygon { abscissa, ordinate }),
    {
        Self::Polygon { abscissa, ordinate }
    }

    /// This bound's JSON wire form.
    pub fn to_json(&self) -> (r: JsonValue)
        ensures
            r@ == spatial_bound_jsonv(*self),
    {
        let mut b = ObjBuilder::new();
        match self {
            Self::Rectangular { min_coords, max_coords } => {
                b.field("type", jstr("rectangular"));
                b.field("minCoords", nums_to_json(min_coords));
                b.field("maxCoords", nums_to_json(max_coords));
            },
            Self::Radius { coords, radius } => {
                b.field("type", jstr("radius"));
                b.field("coords", nums_to_json(coords));
                b.field("radius", JsonValue::NumText(radius.clone()));
            },
            Self::Polygon { abscissa, ordinate } => {
                b.field("type", jstr("polygon"));
                b.field("abscissa", nums_to_json(abscissa));
                b.field("ordinate", nums_to_json(ordinate));
            },
        }
        b.finish()
    }
}

/// A JSON array of filters.
#[verifier::loop_isolation(false)]
pub fn filters_to_json(xs: &Vec<Filter>) -> (r: JsonValue)
    ensures
        r@ == JsonV::Arr(filters_jsonv(xs@, xs@.len() as int)),
    decreases xs@, 0int,
{
    let mut items: Vec<JsonValue> = Vec::new();
    let mut i: usize = 0;
    proof {
        lemma_filters_jsonv(xs@, xs@.len() as int);
    }
    while i < xs.len()
        invariant
            i <= xs@.len(),
            items@.len() == i,
            forall|j: int| 0 <= j < i ==> #[trigger] items@[j]@ == filter_jsonv(xs@[j]),
        decreases xs@.len() - i,
    {
        items.push(xs[i].to_json());
        i = i + 1;
    }
    let r = jarr(items);
    proof {
        assert(r@ matches JsonV::Arr(s) && s =~= filters_jsonv(xs@, xs@.len() as int));
    }
    r
}

/// The JSON wire form of a filter.
pub open spec fn filter_jsonv(f: Filter) -> JsonV
    decreases f, 2int,
{
    match f {
        Filter::Selector { dimension, value, extraction_fn } => JsonV::Obj(
            opt_entry(
                Seq::empty().push(("type"@, JsonV::Str("selector"@))).push(
                    ("dimension"@, dim_spec_jsonv(dimension)),
                ).push(("value"@, JsonV::Str(value@))),
                "extractionFn"@,
                efn_opt(extraction_fn),
            ),
        ),
        Filter::ColumnComparison { dimensions } => JsonV::Obj(
            Seq::empty().push(("type"@, JsonV::Str("columnComparison"@))).push(
                ("dimensions"@, JsonV::Arr(dim_specs_jsonv(dimensions@))),
            ),
        ),
        Filter::Regex { dimension, pattern, extraction_fn } => JsonV::Obj(
            opt_entry(
                Seq::empty().push(("type"@, JsonV::Str("regex"@))).push(
                    ("dimension"@, dim_spec_jsonv(dimension)),
                ).push(("pattern"@, JsonV::Str(pattern@))),
                "extractionFn"@,
                efn_opt(extraction_fn),
            ),
        ),
        Filter::And { fields } => JsonV::Obj(
            Seq::empty().push(("type"@, JsonV::Str("and"@))).push(
                ("fields"@, JsonV::Arr(filters_jsonv(fields@, fields@.len() as int))),
            ),
        ),
        Filter::Or { fields } => JsonV::Obj(
            Seq::empty().push(("type"@, JsonV::Str("or"@))).push(
                ("fields"@, JsonV::Arr(filters_jsonv(fields@, fields@.len() as int))),
            ),
        ),
        Filter::Not { field } => JsonV::Obj(
            Seq::empty().push(("type"@, JsonV::Str("not"@))).push(
                ("field"@, filter_jsonv(*field)),
            ),
        ),
        Filter::Javascript { dimension, function, extraction_fn } => JsonV::Obj(
            opt_entry(
                Seq::empty().push(("type"@, JsonV::Str("javascript"@))).push(
                    ("dimension"@, dim_spec_jsonv(dimension)),
                ).push(("function"@, JsonV::Str(function@))),
                "extractionFn"@,
                efn_opt(extraction_fn),
            ),
        ),
        Filter::Extraction { dimension, value, extraction_fn } => JsonV::Obj(
            Seq::empty().push(("type"@, JsonV::Str("extraction"@))).push(
                ("dimension"@, dim_spec_jsonv(dimension)),
            ).push(("value"@, JsonV::Str(value@))).push(
                ("extractionFn"@, extraction_fn_jsonv(extraction_fn)),
            ),
        ),
        Filter::Search { dimension, query, extraction_fn } => JsonV::Obj(
            opt_entry(
                Seq::empty().push(("type"@, JsonV::Str("search"@))).push(
                    ("dimension"@, dim_spec_jsonv(dimension)),
                ).push(("query"@, search_query_spec_jsonv(query))),
                "extractionFn"@,
                efn_opt(extraction_fn),
            ),
        ),
        Filter::In { dimension, values } => JsonV::Obj(
            Seq::empty().push(("type"@, JsonV::Str("in"@))).push(
                ("dimension"@, dim_spec_jsonv(dimension)),
            ).push(("values"@, JsonV::Arr(strs_jsonv(values@)))),
        ),
        Filter::Like { dimension, pattern, escape, extraction_fn } => JsonV::Obj(
            opt_entry(
                opt_str_entry(
                    Seq::empty().push(("type"@, JsonV::Str("like"@))).push(
                        ("dimension"@, JsonV::Str(dimension@)),
                    ).push(("pattern"@, JsonV::Str(pattern@))),
                    "escape"@,
                    escape.deep_view(),
                ),
                "extractionFn"@,
                efn_opt(extraction_fn),
            ),
        ),
        Filter::Bound {
            dimension,
            lower,
            upper,
            lower_strict,
            upper_strict,
            ordering,
            extraction_fn,
        } => {
            let es = Seq::empty().push(("type"@, JsonV::Str("bound"@))).push(
                ("dimension"@, JsonV::Str(dimension@)),
            );
            let es = opt_str_entry(es, "lower"@, lower.deep_view());
            let es = opt_str_entry(es, "upper"@, upper.deep_view());
            let es = opt_bool_entry(es, "lowerStrict"@, lower_strict);
            let es = opt_bool_entry(es, "upperStrict"@, upper_strict);
            let es = opt_entry(
                es,
                "ordering"@,
                match ordering {
                    Some(o) => Some(ordering_jsonv(o)),
                    None => None,
                },
            );
            let es = opt_entry(es, "extractionFn"@, efn_opt(extraction_fn));
            JsonV::Obj(es)
        },
        Filter::Interval { dimension, intervals, extraction_fn } => JsonV::Obj(
            opt_entry(
                Seq::empty().push(("type"@, JsonV::Str("interval"@))).push(
                    ("dimension"@, JsonV::Str(dimension@)),
                ).push(("intervals"@, JsonV::Arr(intervals_jsonv(intervals@)))),
                "extractionFn"@,
                efn_opt(extraction_fn),
            ),
        ),
        Filter::Expression { expression } => JsonV::Obj(
            Seq::empty().push(("type"@, JsonV::Str("expression"@))).push(
                ("expression"@, JsonV::Str(expression@)),
            ),
        ),
        Filter::True => JsonV::Obj(Seq::empty().push(("type"@, JsonV::Str("true"@)))),
        Filter::Spatial { dimension, bound } => JsonV::Obj(
            Seq::empty().push(("type"@, JsonV::Str("spatial"@))).push(
                ("dimension"@, JsonV::Str(dimension@)),
            ).push(("bound"@, spatial_bound_jsonv(bound))),
        ),
    }
}

/// An optional extraction function as an optional JSON value.
pub open spec fn efn_opt(o: Option<ExtractionFunction>) -> Option<JsonV> {
    match o {
        Some(e) => Some(extraction_fn_jsonv(e)),
        None => None,
    }
}

/// The JSON wire form of a spatial bound.
pub open spec fn spatial_bound_jsonv(b: Bound) -> JsonV {
    match b {
        Bound::Rectangular { min_coords, max_coords } => JsonV::Obj(
            Seq::empty().push(("type"@, JsonV::Str("rectangular"@))).push(
                ("minCoords"@, JsonV::Arr(nums_jsonv(min_coords@))),
            ).push(("maxCoords"@, JsonV::Arr(nums_jsonv(max_coords@)))),
        ),
        Bound::Radius { coords, radius } => JsonV::Obj(
            Seq::empty().push(("type"@, JsonV::Str("radius"@))).push(
                ("coords"@, JsonV::Arr(nums_jsonv(coords@))),
            ).push(("radius"@, JsonV::NumText(radius@))),
        ),
        Bound::Polygon { abscissa, ordinate } => JsonV::Obj(
            Seq::empty().push(("type"@, JsonV::Str("polygon"@))).push(
                ("abscissa"@, JsonV::Arr(nums_jsonv(abscissa@))),
            ).push(("ordinate"@, JsonV::Arr(nums_jsonv(ordinate@)))),
        ),
    }
}

/// The JSON wire forms of the first `n` filters of a list.
pub open spec fn filters_jsonv(s: Seq<Filter>, n: int) -> Seq<JsonV>
    decreases s, 1int, n,
{
    if n <= 0 || n > s.len() {
        Seq::empty()
    } else {
        filters_jsonv(s, n - 1).push(filter_jsonv(s[n - 1]))
    }
}

/// [`filters_jsonv`] is the element-wise wire form of the list.
pub proof fn lemma_filters_jsonv(s: Seq<Filter>, n: int)
    requires
        0 <= n <= s.len(),
    ensures
        filters_jsonv(s, n).len() == n,
        forall|i: int| 0 <= i < n ==> #[trigger] filters_jsonv(s, n)[i] == filter_jsonv(s[i]),
    decreases n,
{
    if n > 0 {
        lemma_filters_jsonv(s, n - 1);
    }
}

} // verus!
