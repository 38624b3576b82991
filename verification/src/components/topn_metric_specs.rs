//! Metric specs: how a top-N query ranks its rows.

use vstd::prelude::*;

verus! {

use crate::components::ordering::Ordering;
use crate::components::ordering::ordering_jsonv;
use crate::json::JsonV;
use crate::json::JsonValue;
use crate::json::ObjBuilder;
use crate::json::jstr;
use crate::json::jstring;
use crate::json::opt_entry;
use crate::json::opt_str_entry;

/// How a top-N query ranks: by a numeric metric, by dimension value
/// ordering, or by inverting another metric spec.
pub enum TopNMetricSpec {
    Numeric { metric: String },
    Dimension { ordering: Option<Ordering>, previous_stop: Option<String> },
    Inverted { metric: Box<TopNMetricSpec> },
}

impl TopNMetricSpec {
    /// Rank by a numeric metric.
    pub fn numeric(metric: String) -> (r: Self)
        ensures
            r == (TopNMetricSpec::Numeric { metric }),
    {
        Self::Numeric { metric }
    }

    /// Rank by dimension values.
    pub fn dimension(ordering: Option<Ordering>, previous_stop: Option<String>) -> (r: Self)
        ensures
            r == (TopNMetricSpec::Dimension { ordering, previous_stop }),
    {
        Self::Dimension { ordering, previous_stop }
    }

    /// Invert another metric spec's order.
    pub fn inverted(metric: TopNMetricSpec) -> (r: Self)
        ensures
            r == (TopNMetricSpec::Inverted { metric: Box::new(metric) }),
    {
        Self::Inverted { metric: Box::new(metric) }
    }

    /// This metric spec's JSON wire form.
    pub fn to_json(&self) -> (r: JsonValue)
        ensures
            r@ == topn_metric_spec_jsonv(*self),
        decreases *self,
    {
        let mut b = ObjBuilder::new();
        match self {
            Self::Numeric { metric } => {
                b.field("type", jstr("numeric"));
                b.field("metric", jstring(metric.clone()));
            },
            Self::Dimension { ordering, previous_stop } => {
                b.field("type", jstr("dimension"));
                if let Some(o) = ordering {
                    b.field("ordering", o.to_json());
                }
                b.field_opt_string("previousStop", previous_stop);
            },
            Self::Inverted { metric } => {
                b.field("type", jstr("inverted"));
                b.field("metric", metric.to_json());
            },
        }
        b.finish()
    }
}

/// The JSON wire form of a top-N metric spec.
pub open spec fn topn_metric_spec_jsonv(m: TopNMetricSpec) -> JsonV
    decreases m,
{
    match m {
        TopNMetricSpec::Numeric { metric } => JsonV::Obj(
            Seq::empty().push(("type"@, JsonV::Str("numeric"@))).push(
                ("metric"@, JsonV::Str(metric@)),
            ),
        ),
        TopNMetricSpec::Dimension { ordering, previous_stop } => JsonV::Obj(
            opt_str_entry(
                opt_entry(
                    Seq::empty().push(("type"@, JsonV::Str("dimension"@))),
                    "ordering"@,
                    match ordering {
                        Some(o) => Some(ordering_jsonv(o)),
                        None => None,
                    },
                ),
                "previousStop"@,
                previous_stop.deep_view(),
            ),
        ),
        TopNMetricSpec::Inverted { metric } => JsonV::Obj(
            Seq::empty().push(("type"@, JsonV::Str("inverted"@))).push(
                ("metric"@, topn_metric_spec_jsonv(*metric)),
            ),
        ),
    }
}

} // verus!
