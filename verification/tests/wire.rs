//! Tests that hold the serialized wire forms against expected JSON text.

use query_druid::components::aggregations::Aggregator;
use query_druid::components::context::Context;
use query_druid::components::data_sources::DataSource;
use query_druid::components::druid_types::DruidNativeType;
use query_druid::components::filters::Filter;
use query_druid::components::granularities::Granularity;
use query_druid::components::intervals::Interval;
use query_druid::components::post_aggregations::PostAggregator;
use query_druid::components::having_specs::HavingSpec;
use query_druid::json::render_json;
use query_druid::queries::sql::Sql;
use query_druid::queries::timeseries::Timeseries;

#[test]
fn timeseries_envelope_wire_form() {
    let interval = Interval::new("2015-09-12", "P1D").unwrap();
    let query = Timeseries::new(
        DataSource::table("wikipedia".to_string()),
        vec![interval],
        Granularity::simple("hour".to_string()),
    )
    .aggregations(vec![Aggregator::count("num_records".to_string())]);
    let body = render_json(&query.to_json());
    assert_eq!(
        body,
        "{\"queryType\":\"timeseries\",\"dataSource\":{\"type\":\"table\",\"name\":\"wikipedia\"},\"intervals\":[\"2015-09-12/P1D\"],\"granularity\":\"hour\",\"aggregations\":[{\"type\":\"count\",\"name\":\"num_records\"}]}"
    );
}

#[test]
fn absent_options_are_left_off_the_wire() {
    let body = render_json(&Sql::new("SELECT 1").to_json());
    assert_eq!(body, "{\"query\":\"SELECT 1\"}");
}

#[test]
fn context_serializes_only_set_knobs() {
    let sql = Sql::new("SELECT 1").context(Context::new().timeout(5).use_cache(true));
    let body = render_json(&sql.to_json());
    assert_eq!(
        body,
        "{\"query\":\"SELECT 1\",\"context\":{\"timeout\":5,\"useCache\":true}}"
    );
}

#[test]
fn constant_post_aggregator_keeps_its_numeral() {
    let c = PostAggregator::constant("c", DruidNativeType::Double("2.5".to_string())).unwrap();
    assert_eq!(
        render_json(&c.to_json()),
        "{\"type\":\"constant\",\"name\":\"c\",\"value\":2.5}"
    );
}

#[test]
fn filter_wire_form_is_tagged() {
    let f = Filter::and(vec![
        Filter::true_filter(),
        Filter::expression("x > 1".to_string()),
    ]);
    assert_eq!(
        render_json(&f.to_json()),
        "{\"type\":\"and\",\"fields\":[{\"type\":\"true\"},{\"type\":\"expression\",\"expression\":\"x > 1\"}]}"
    );
}

#[test]
fn granularity_wire_forms() {
    assert_eq!(
        render_json(&Granularity::simple("day".to_string()).to_json()),
        "\"day\""
    );
    assert_eq!(
        render_json(&Granularity::duration(7200000).to_json()),
        "{\"type\":\"duration\",\"duration\":7200000}"
    );
    assert_eq!(
        render_json(
            &Granularity::period_with_origin_tz("P1D".to_string(), None, Some("UTC".to_string()))
                .to_json()
        ),
        "{\"type\":\"period\",\"period\":\"P1D\",\"timeZone\":\"UTC\"}"
    );
}

#[test]
fn large_unsigned_context_values_survive() {
    let sql = Sql::new("SELECT 1").context(Context::new().max_scatter_gather_bytes(u64::MAX));
    let body = render_json(&sql.to_json());
    assert_eq!(
        body,
        "{\"query\":\"SELECT 1\",\"context\":{\"maxScatterGatherBytes\":18446744073709551615}}"
    );
}

#[test]
fn native_scalars_render_untagged() {
    let h = HavingSpec::equal_to("n".to_string(), DruidNativeType::Long(7));
    assert_eq!(
        render_json(&h.to_json()),
        "{\"type\":\"equalTo\",\"aggregation\":\"n\",\"value\":7}"
    );
    let h = HavingSpec::dim_selector(
        "d".to_string(),
        DruidNativeType::Array(vec!["x".to_string(), "y".to_string()]),
    );
    assert_eq!(
        render_json(&h.to_json()),
        "{\"type\":\"dimSelector\",\"dimension\":\"d\",\"value\":[\"x\",\"y\"]}"
    );
}
