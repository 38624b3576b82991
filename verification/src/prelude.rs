//! One flat import for the library's commonly used items.

pub use crate::client::Client;
pub use crate::client::Error;
pub use crate::client::HttpRequest;
pub use crate::components::aggregations::Aggregator;
pub use crate::components::context::Context;
pub use crate::components::data_sources::DataSource;
pub use crate::components::dimension_specs::DimensionSpec;
pub use crate::components::druid_types::DruidNativeType;
pub use crate::components::druid_types::DruidSqlType;
pub use crate::components::extraction_functions::ExtractionFunction;
pub use crate::components::filters::Bound;
pub use crate::components::filters::Filter;
pub use crate::components::granularities::Granularity;
pub use crate::components::having_specs::HavingSpec;
pub use crate::components::intervals::Interval;
pub use crate::components::limit_specs::LimitSpec;
pub use crate::components::lookups::Lookup;
pub use crate::components::ordering::Ordering;
pub use crate::components::post_aggregations::PostAggregator;
pub use crate::components::search_query_specs::SearchQuerySpec;
pub use crate::components::to_include::ToInclude;
pub use crate::components::topn_metric_specs::TopNMetricSpec;
pub use crate::components::virtual_columns::VirtaulColumn;
pub use crate::queries::Query;
pub use crate::queries::datasource_metadata::DataSourceMetadata;
pub use crate::queries::groupby::GroupBy;
pub use crate::queries::response::DataSourceMetadataResult;
pub use crate::queries::response::DruidResponse;
pub use crate::queries::response::GroupByResult;
pub use crate::queries::response::ScanResult;
pub use crate::queries::response::SearchResult;
pub use crate::queries::response::SegmentMetadataResult;
pub use crate::queries::response::SqlResult;
pub use crate::queries::response::TimeBoundaryResult;
pub use crate::queries::response::TimeseriesResult;
pub use crate::queries::response::TopNResult;
pub use crate::queries::scan::Scan;
pub use crate::queries::search::Search;
pub use crate::queries::segment_metadata::SegmentMetadata;
pub use crate::queries::sql::Sql;
pub use crate::queries::time_boundary::TimeBoundary;
pub use crate::queries::timeseries::Timeseries;
pub use crate::queries::topn::TopN;
