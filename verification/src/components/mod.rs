//! Native query building blocks: the component types a query is composed
//! from, each with the construction rules the Druid server enforces.

pub mod aggregations;
pub mod context;
pub mod data_sources;
pub mod dimension_specs;
pub mod druid_types;
pub mod extraction_functions;
pub mod filters;
pub mod granularities;
pub mod having_specs;
pub mod limit_specs;
pub mod intervals;
pub mod lookups;
pub mod ordering;
pub mod post_aggregations;
pub mod search_query_specs;
pub mod to_include;
pub mod topn_metric_specs;
pub mod virtual_columns;
