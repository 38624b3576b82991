//! The query context: a flat bag of independently optional tuning knobs,
//! serialized as one JSON object that leaves absent knobs out entirely.

use vstd::prelude::*;

verus! {

use crate::json::JsonV;
use crate::json::JsonValue;
use crate::json::ObjBuilder;
use crate::json::opt_bool_entry;
use crate::json::opt_str_entry;
use crate::json::opt_u64_entry;

/// A query context. Build one up from [`Context::new`] with the setter
/// for each knob; a knob never set is left off the wire.
pub struct Context {
    pub timeout: Option<u64>,
    pub priority: Option<u64>,
    pub lane: Option<String>,
    pub query_id: Option<String>,
    pub broker_service: Option<String>,
    pub use_cache: Option<bool>,
    pub populate_cache: Option<bool>,
    pub use_result_level_cache: Option<bool>,
    pub populate_result_level_cache: Option<bool>,
    pub by_segment: Option<bool>,
    pub finalize: Option<bool>,
    pub max_scatter_gather_bytes: Option<u64>,
    pub max_queued_bytes: Option<u64>,
    pub serialize_date_time_as_long: Option<bool>,
    pub serialize_date_time_as_long_inner: Option<bool>,
    pub enable_parallel_merge: Option<bool>,
    pub parallel_merge_parallelism: Option<u64>,
    pub parallel_merge_initial_yield_rows: Option<u64>,
    pub parallel_merge_small_batch_rows: Option<u64>,
    pub use_filter_c_n_f: Option<bool>,
    pub secondary_partition_pruning: Option<bool>,
    pub enable_join_left_table_scan_direct: Option<bool>,
    pub debug: Option<bool>,
    pub min_top_n_threshold: Option<u64>,
    pub skip_empty_buckets: Option<bool>,
    pub vectorize: Option<bool>,
    pub vector_size: Option<u64>,
    pub vectorize_virtual_columns: Option<bool>,
    pub sql_query_id: Option<String>,
    pub sql_time_zone: Option<String>,
    pub sql_stringify_arrays: Option<bool>,
    pub use_approximate_count_distinct: Option<bool>,
    pub use_grouping_set_for_exact_distinct: Option<bool>,
    pub use_approximate_top_n: Option<bool>,
}

/// The context with every knob unset.
pub open spec fn empty_context() -> Context {
    Context {
        timeout: None,
        priority: None,
        lane: None,
        query_id: None,
        broker_service: None,
        use_cache: None,
        populate_cache: None,
        use_result_level_cache: None,
        populate_result_level_cache: None,
        by_segment: None,
        finalize: None,
        max_scatter_gather_bytes: None,
        max_queued_bytes: None,
        serialize_date_time_as_long: None,
        serialize_date_time_as_long_inner: None,
        enable_parallel_merge: None,
        parallel_merge_parallelism: None,
        parallel_merge_initial_yield_rows: None,
        parallel_merge_small_batch_rows: None,
        use_filter_c_n_f: None,
        secondary_partition_pruning: None,
        enable_join_left_table_scan_direct: None,
        debug: None,
        min_top_n_threshold: None,
        skip_empty_buckets: None,
        vectorize: None,
        vector_size: None,
        vectorize_virtual_columns: None,
        sql_query_id: None,
        sql_time_zone: None,
        sql_stringify_arrays: None,
        use_approximate_count_distinct: None,
        use_grouping_set_for_exact_distinct: None,
        use_approximate_top_n: None,
    }
}

impl Context {
    /// An empty query context.
    pub fn new() -> (r: Self)
        ensures
            r == empty_context(),
    {
        Self {
            timeout: None,
            priority: None,
            lane: None,
            query_id: None,
            broker_service: None,
            use_cache: None,
            populate_cache: None,
            use_result_level_cache: None,
            populate_result_level_cache: None,
            by_segment: None,
            finalize: None,
            max_scatter_gather_bytes: None,
            max_queued_bytes: None,
            serialize_date_time_as_long: None,
            serialize_date_time_as_long_inner: None,
            enable_parallel_merge: None,
            parallel_merge_parallelism: None,
            parallel_merge_initial_yield_rows: None,
            parallel_merge_small_batch_rows: None,
            use_filter_c_n_f: None,
            secondary_partition_pruning: None,
            enable_join_left_table_scan_direct: None,
            debug: None,
            min_top_n_threshold: None,
            skip_empty_buckets: None,
            vectorize: None,
            vector_size: None,
            vectorize_virtual_columns: None,
            sql_query_id: None,
            sql_time_zone: None,
            sql_stringify_arrays: None,
            use_approximate_count_distinct: None,
            use_grouping_set_for_exact_distinct: None,
            use_approximate_top_n: None,
        }
    }

    /// Set the `timeout` parameter.
    pub fn timeout(self, t: u64) -> (r: Self)
        ensures
            r == (Context { timeout: Some(t), ..self }),
    {
        Self { timeout: Some(t), ..self }
    }

    /// Set the `priority` parameter.
    pub fn priority(self, t: u64) -> (r: Self)
        ensures
            r == (Context { priority: Some(t), ..self }),
    {
        Self { priority: Some(t), ..self }
    }

    /// Set the `lane` parameter.
    pub fn lane(self, v: String) -> (r: Self)
        ensures
            r == (Context { lane: Some(v), ..self }),
    {
        Self { lane: Some(v), ..self }
    }

    /// Set the `queryId` parameter.
    pub fn query_id(self, v: String) -> (r: Self)
        ensures
            r == (Context { query_id: Some(v), ..self }),
    {
        Self { query_id: Some(v), ..self }
    }

    /// Set the `brokerService` parameter.
    pub fn broker_service(self, v: String) -> (r: Self)
        ensures
            r == (Context { broker_service: Some(v), ..self }),
    {
        Self { broker_service: Some(v), ..self }
    }

    /// Set the `useCache` parameter.
    pub fn use_cache(self, flag: bool) -> (r: Self)
        ensures
            r == (Context { use_cache: Some(flag), ..self }),
    {
        Self { use_cache: Some(flag), ..self }
    }

    /// Set the `populateCache` parameter.
    pub fn populate_cache(self, flag: bool) -> (r: Self)
        ensures
            r == (Context { populate_cache: Some(flag), ..self }),
    {
        Self { populate_cache: Some(flag), ..self }
    }

    /// Set the `useResultLevelCache` parameter.
    pub fn use_result_level_cache(self, flag: bool) -> (r: Self)
        ensures
            r == (Context { use_result_level_cache: Some(flag), ..self }),
    {
        Self { use_result_level_cache: Some(flag), ..self }
    }

    /// Set the `populateResultLevelCache` parameter.
    pub fn populate_result_level_cache(self, flag: bool) -> (r: Self)
        ensures
            r == (Context { populate_result_level_cache: Some(flag), ..self }),
    {
        Self { populate_result_level_cache: Some(flag), ..self }
    }

    /// Set the `bySegment` parameter.
    pub fn by_segment(self, flag: bool) -> (r: Self)
        ensures
            r == (Context { by_segment: Some(flag), ..self }),
    {
        Self { by_segment: Some(flag), ..self }
    }

    /// Set the `finalize` parameter.
    pub fn finalize(self, flag: bool) -> (r: Self)
        ensures
            r == (Context { finalize: Some(flag), ..self }),
    {
        Self { finalize: Some(flag), ..self }
    }

    /// Set the `maxScatterGatherBytes` parameter.
    pub fn max_scatter_gather_bytes(self, t: u64) -> (r: Self)
        ensures
            r == (Context { max_scatter_gather_bytes: Some(t), ..self }),
    {
        Self { max_scatter_gather_bytes: Some(t), ..self }
    }

    /// Set the `maxQueuedBytes` parameter.
    pub fn max_queued_bytes(self, t: u64) -> (r: Self)
        ensures
            r == (Context { max_queued_bytes: Some(t), ..self }),
    {
        Self { max_queued_bytes: Some(t), ..self }
    }

    /// Set the `serializeDateTimeAsLong` parameter.
    pub fn serialize_date_time_as_long(self, flag: bool) -> (r: Self)
        ensures
            r == (Context { serialize_date_time_as_long: Some(flag), ..self }),
    {
        Self { serialize_date_time_as_long: Some(flag), ..self }
    }

    /// Set the `serializeDateTimeAsLongInner` parameter.
    pub fn serialize_date_time_as_long_inner(self, flag: bool) -> (r: Self)
        ensures
            r == (Context { serialize_date_time_as_long_inner: Some(flag), ..self }),
    {
        Self { serialize_date_time_as_long_inner: Some(flag), ..self }
    }

    /// Set the `enableParallelMerge` parameter.
    pub fn enable_parallel_merge(self, flag: bool) -> (r: Self)
        ensures
            r == (Context { enable_parallel_merge: Some(flag), ..self }),
    {
        Self { enable_parallel_merge: Some(flag), ..self }
    }

    /// Set the `parallelMergeParallelism` parameter.
    pub fn parallel_merge_parallelism(self, t: u64) -> (r: Self)
        ensures
            r == (Context { parallel_merge_parallelism: Some(t), ..self }),
    {
        Self { parallel_merge_parallelism: Some(t), ..self }
    }

    /// Set the `parallelMergeInitialYieldRows` parameter.
    pub fn parallel_merge_initial_yield_rows(self, t: u64) -> (r: Self)
        ensures
            r == (Context { parallel_merge_initial_yield_rows: Some(t), ..self }),
    {
        Self { parallel_merge_initial_yield_rows: Some(t), ..self }
    }

    /// Set the `parallelMergeSmallBatchRows` parameter.
    pub fn parallel_merge_small_batch_rows(self, t: u64) -> (r: Self)
        ensures
            r == (Context { parallel_merge_small_batch_rows: Some(t), ..self }),
    {
        Self { parallel_merge_small_batch_rows: Some(t), ..self }
    }

    /// Set the `useFilterCNF` parameter.
    pub fn use_filter_c_n_f(self, flag: bool) -> (r: Self)
        ensures
            r == (Context { use_filter_c_n_f: Some(flag), ..self }),
    {
        Self { use_filter_c_n_f: Some(flag), ..self }
    }

    /// Set the `secondaryPartitionPruning` parameter.
    pub fn secondary_partition_pruning(self, flag: bool) -> (r: Self)
        ensures
            r == (Context { secondary_partition_pruning: Some(flag), ..self }),
    {
        Self { secondary_partition_pruning: Some(flag), ..self }
    }

    /// Set the `enableJoinLeftTableScanDirect` parameter.
    pub fn enable_join_left_table_scan_direct(self, flag: bool) -> (r: Self)
        ensures
            r == (Context { enable_join_left_table_scan_direct: Some(flag), ..self }),
    {
        Self { enable_join_left_table_scan_direct: Some(flag), ..self }
    }

    /// Set the `debug` parameter.
    pub fn debug(self, flag: bool) -> (r: Self)
        ensures
            r == (Context { debug: Some(flag), ..self }),
    {
        Self { debug: Some(flag), ..self }
    }

    /// Set the `minTopNThreshold` parameter.
    pub fn min_top_n_threshold(self, t: u64) -> (r: Self)
        ensures
            r == (Context { min_top_n_threshold: Some(t), ..self }),
    {
        Self { min_top_n_threshold: Some(t), ..self }
    }

    /// Set the `skipEmptyBuckets` parameter.
    pub fn skip_empty_buckets(self, flag: bool) -> (r: Self)
        ensures
            r == (Context { skip_empty_buckets: Some(flag), ..self }),
    {
        Self { skip_empty_buckets: Some(flag), ..self }
    }

    /// Set the `vectorize` parameter.
    pub fn vectorize(self, flag: bool) -> (r: Self)
        ensures
            r == (Context { vectorize: Some(flag), ..self }),
    {
        Self { vectorize: Some(flag), ..self }
    }

    /// Set the `vectorSize` parameter.
    pub fn vector_size(self, t: u64) -> (r: Self)
        ensures
            r == (Context { vector_size: Some(t), ..self }),
    {
        Self { vector_size: Some(t), ..self }
    }

    /// Set the `vectorizeVirtualColumns` parameter.
    pub fn vectorize_virtual_columns(self, flag: bool) -> (r: Self)
        ensures
            r == (Context { vectorize_virtual_columns: Some(flag), ..self }),
    {
        Self { vectorize_virtual_columns: Some(flag), ..self }
    }

    /// Set the `sqlQueryId` parameter.
    pub fn sql_query_id(self, v: String) -> (r: Self)
        ensures
            r == (Context { sql_query_id: Some(v), ..self }),
    {
        Self { sql_query_id: Some(v), ..self }
    }

    /// Set the `sqlTimeZone` parameter.
    pub fn sql_time_zone(self, v: String) -> (r: Self)
        ensures
            r == (Context { sql_time_zone: Some(v), ..self }),
    {
        Self { sql_time_zone: Some(v), ..self }
    }

    /// Set the `sqlStringifyArrays` parameter.
    pub fn sql_stringify_arrays(self, flag: bool) -> (r: Self)
        ensures
            r == (Context { sql_stringify_arrays: Some(flag), ..self }),
    {
        Self { sql_stringify_arrays: Some(flag), ..self }
    }

    /// Set the `useApproximateCountDistinct` parameter.
    pub fn use_approximate_count_distinct(self, flag: bool) -> (r: Self)
        ensures
            r == (Context { use_approximate_count_distinct: Some(flag), ..self }),
    {
        Self { use_approximate_count_distinct: Some(flag), ..self }
    }

    /// Set the `useGroupingSetForExactDistinct` parameter.
    pub fn use_grouping_set_for_exact_distinct(self, flag: bool) -> (r: Self)
        ensures
            r == (Context { use_grouping_set_for_exact_distinct: Some(flag), ..self }),
    {
        Self { use_grouping_set_for_exact_distinct: Some(flag), ..self }
    }

    /// Set the `useApproximateTopN` parameter.
    pub fn use_approximate_top_n(self, flag: bool) -> (r: Self)
        ensures
            r == (Context { use_approximate_top_n: Some(flag), ..self }),
    {
        Self { use_approximate_top_n: Some(flag), ..self }
    }

    /// This context's JSON wire form.
    pub fn to_json(&self) -> (r: JsonValue)
        ensures
            r@ == context_jsonv(*self),
    {
        let mut b = ObjBuilder::new();
        b.field_opt_u64("timeout", &self.timeout);
        b.field_opt_u64("priority", &self.priority);
        b.field_opt_string("lane", &self.lane);
        b.field_opt_string("queryId", &self.query_id);
        b.field_opt_string("brokerService", &self.broker_service);
        b.field_opt_bool("useCache", &self.use_cache);
        b.field_opt_bool("populateCache", &self.populate_cache);
        b.field_opt_bool("useResultLevelCache", &self.use_result_level_cache);
        b.field_opt_bool("populateResultLevelCache", &self.populate_result_level_cache);
        b.field_opt_bool("bySegment", &self.by_segment);
        b.field_opt_bool("finalize", &self.finalize);
        b.field_opt_u64("maxScatterGatherBytes", &self.max_scatter_gather_bytes);
        b.field_opt_u64("maxQueuedBytes", &self.max_queued_bytes);
        b.field_opt_bool("serializeDateTimeAsLong", &self.serialize_date_time_as_long);
        b.field_opt_bool("serializeDateTimeAsLongInner", &self.serialize_date_time_as_long_inner);
        b.field_opt_bool("enableParallelMerge", &self.enable_parallel_merge);
        b.field_opt_u64("parallelMergeParallelism", &self.parallel_merge_parallelism);
        b.field_opt_u64("parallelMergeInitialYieldRows", &self.parallel_merge_initial_yield_rows);
        b.field_opt_u64("parallelMergeSmallBatchRows", &self.parallel_merge_small_batch_rows);
        b.field_opt_bool("useFilterCNF", &self.use_filter_c_n_f);
        b.field_opt_bool("secondaryPartitionPruning", &self.secondary_partition_pruning);
        b.field_opt_bool("enableJoinLeftTableScanDirect", &self.enable_join_left_table_scan_direct);
        b.field_opt_bool("debug", &self.debug);
        b.field_opt_u64("minTopNThreshold", &self.min_top_n_threshold);
        b.field_opt_bool("skipEmptyBuckets", &self.skip_empty_buckets);
        b.field_opt_bool("vectorize", &self.vectorize);
        b.field_opt_u64("vectorSize", &self.vector_size);
        b.field_opt_bool("vectorizeVirtualColumns", &self.vectorize_virtual_columns);
        b.field_opt_string("sqlQueryId", &self.sql_query_id);
        b.field_opt_string("sqlTimeZone", &self.sql_time_zone);
        b.field_opt_bool("sqlStringifyArrays", &self.sql_stringify_arrays);
        b.field_opt_bool("useApproximateCountDistinct", &self.use_approximate_count_distinct);
        b.field_opt_bool("useGroupingSetForExactDistinct", &self.use_grouping_set_for_exact_distinct);
        b.field_opt_bool("useApproximateTopN", &self.use_approximate_top_n);
        b.finish()
    }
}

/// The JSON wire form of a context.
pub open spec fn context_jsonv(c: Context) -> JsonV {
    let es = Seq::<(Seq<char>, JsonV)>::empty();
    let es = opt_u64_entry(es, "timeout"@, c.timeout);
    let es = opt_u64_entry(es, "priority"@, c.priority);
    let es = opt_str_entry(es, "lane"@, c.lane.deep_view());
    let es = opt_str_entry(es, "queryId"@, c.query_id.deep_view());
    let es = opt_str_entry(es, "brokerService"@, c.broker_service.deep_view());
    let es = opt_bool_entry(es, "useCache"@, c.use_cache);
    let es = opt_bool_entry(es, "populateCache"@, c.populate_cache);
    let es = opt_bool_entry(es, "useResultLevelCache"@, c.use_result_level_cache);
    let es = opt_bool_entry(es, "populateResultLevelCache"@, c.populate_result_level_cache);
    let es = opt_bool_entry(es, "bySegment"@, c.by_segment);
    let es = opt_bool_entry(es, "finalize"@, c.finalize);
    let es = opt_u64_entry(es, "maxScatterGatherBytes"@, c.max_scatter_gather_bytes);
    let es = opt_u64_entry(es, "maxQueuedBytes"@, c.max_queued_bytes);
    let es = opt_bool_entry(es, "serializeDateTimeAsLong"@, c.serialize_date_time_as_long);
    let es = opt_bool_entry(es, "serializeDateTimeAsLongInner"@, c.serialize_date_time_as_long_inner);
    let es = opt_bool_entry(es, "enableParallelMerge"@, c.enable_parallel_merge);
    let es = opt_u64_entry(es, "parallelMergeParallelism"@, c.parallel_merge_parallelism);
    let es = opt_u64_entry(es, "parallelMergeInitialYieldRows"@, c.parallel_merge_initial_yield_rows);
    let es = opt_u64_entry(es, "parallelMergeSmallBatchRows"@, c.parallel_merge_small_batch_rows);
    let es = opt_bool_entry(es, "useFilterCNF"@, c.use_filter_c_n_f);
    let es = opt_bool_entry(es, "secondaryPartitionPruning"@, c.secondary_partition_pruning);
    let es = opt_bool_entry(es, "enableJoinLeftTableScanDirect"@, c.enable_join_left_table_scan_direct);
    let es = opt_bool_entry(es, "debug"@, c.debug);
    let es = opt_u64_entry(es, "minTopNThreshold"@, c.min_top_n_threshold);
    let es = opt_bool_entry(es, "skipEmptyBuckets"@, c.skip_empty_buckets);
    let es = opt_bool_entry(es, "vectorize"@, c.vectorize);
    let es = opt_u64_entry(es, "vectorSize"@, c.vector_size);
    let es = opt_bool_entry(es, "vectorizeVirtualColumns"@, c.vectorize_virtual_columns);
    let es = opt_str_entry(es, "sqlQueryId"@, c.sql_query_id.deep_view());
    let es = opt_str_entry(es, "sqlTimeZone"@, c.sql_time_zone.deep_view());
    let es = opt_bool_entry(es, "sqlStringifyArrays"@, c.sql_stringify_arrays);
    let es = opt_bool_entry(es, "useApproximateCountDistinct"@, c.use_approximate_count_distinct);
    let es = opt_bool_entry(es, "useGroupingSetForExactDistinct"@, c.use_grouping_set_for_exact_distinct);
    let es = opt_bool_entry(es, "useApproximateTopN"@, c.use_approximate_top_n);
    JsonV::Obj(es)
}

} // verus!
