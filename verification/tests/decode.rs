//! Tests for the response decoders, each driving real JSON text through
//! the parsing boundary.

use query_druid::client::Error;
use query_druid::components::druid_types::DruidNativeType;
use query_druid::components::granularities::Granularity;
use query_druid::queries::response::{
    segment_metadata_results, timeseries_results, scan_results, sql_results, ScanResult,
    SqlResult,
};
use query_druid::queries::sql::ResultFormat;

#[test]
fn object_lines_decode_two_records() {
    let body = "{\"a\":1}\n{\"a\":2}\n";
    let rows = sql_results(&Some(ResultFormat::ObjectLines), body).unwrap();
    assert_eq!(
        rows,
        vec![
            SqlResult::Object(vec![("a".to_string(), DruidNativeType::Long(1))]),
            SqlResult::Object(vec![("a".to_string(), DruidNativeType::Long(2))]),
        ]
    );
}

#[test]
fn object_lines_one_bad_line_fails_whole_call() {
    let body = "{\"a\":1}\nnot-json\n";
    match sql_results(&Some(ResultFormat::ObjectLines), body) {
        Err(Error::ResponseDecode(m)) => {
            assert_eq!(m, "part of the response is not valid JSON");
        }
        _ => panic!("did not receive the expected error"),
    }
}

#[test]
fn array_lines_decode_rows() {
    let body = "[1,\"x\"]\n[2.5,\"y\"]\n";
    let rows = sql_results(&Some(ResultFormat::ArrayLines), body).unwrap();
    assert_eq!(
        rows,
        vec![
            SqlResult::Array(vec![
                DruidNativeType::Long(1),
                DruidNativeType::String("x".to_string())
            ]),
            SqlResult::Array(vec![
                DruidNativeType::Float("2.5".to_string()),
                DruidNativeType::String("y".to_string())
            ]),
        ]
    );
}

#[test]
fn csv_lines_are_kept_verbatim() {
    let body = "a,b\n1,2\n";
    let rows = sql_results(&Some(ResultFormat::Csv), body).unwrap();
    assert_eq!(
        rows,
        vec![
            SqlResult::Csv("a,b".to_string()),
            SqlResult::Csv("1,2".to_string()),
        ]
    );
}

#[test]
fn sql_whole_body_decodes_untagged_rows() {
    let body = "[{\"a\":\"x\"},[1],\"line\"]";
    let rows = sql_results(&None, body).unwrap();
    assert_eq!(
        rows,
        vec![
            SqlResult::Object(vec![(
                "a".to_string(),
                DruidNativeType::String("x".to_string())
            )]),
            SqlResult::Array(vec![DruidNativeType::Long(1)]),
            SqlResult::Csv("line".to_string()),
        ]
    );
}

#[test]
fn scan_list_shape_decodes_as_list() {
    let body = "[{\"segmentId\":\"s1\",\"columns\":[\"c\"],\"events\":[{\"c\":\"v\"}]}]";
    let rows = scan_results(body).unwrap();
    assert_eq!(
        rows,
        vec![ScanResult::List {
            segment_id: "s1".to_string(),
            columns: vec!["c".to_string()],
            events: vec![vec![(
                "c".to_string(),
                DruidNativeType::String("v".to_string())
            )]],
        }]
    );
}

#[test]
fn scan_compacted_shape_decodes_as_compacted_list() {
    let body = "[{\"segmentId\":\"s1\",\"columns\":[\"c\"],\"events\":[[\"v\"]]}]";
    let rows = scan_results(body).unwrap();
    assert_eq!(
        rows,
        vec![ScanResult::CompactedList {
            segment_id: "s1".to_string(),
            columns: vec!["c".to_string()],
            events: vec![vec![DruidNativeType::String("v".to_string())]],
        }]
    );
}

#[test]
fn structured_remote_error_decodes_as_query_error() {
    let body = "{\"error\":\"e\",\"errorMessage\":\"m\",\"errorClass\":\"ec\",\"host\":\"h\"}";
    match timeseries_results(body) {
        Err(Error::QueryError(qe)) => {
            assert_eq!(qe.error, "e");
            assert_eq!(qe.error_message, "m");
            assert_eq!(qe.error_class, "ec");
            assert_eq!(qe.host, "h");
        }
        _ => panic!("did not receive the expected error"),
    }
}

#[test]
fn garbage_body_is_a_decode_error() {
    match timeseries_results("not json at all") {
        Err(Error::ResponseDecode(m)) => assert_eq!(m, "response is not valid JSON"),
        _ => panic!("did not receive the expected error"),
    }
}

#[test]
fn timeseries_records_decode() {
    let body = "[{\"timestamp\":\"2021-01-01T00:00:00Z\",\"result\":{\"n\":3}},{\"result\":{\"n\":4.5}}]";
    let rows = timeseries_results(body).unwrap();
    assert_eq!(rows.len(), 2);
    assert_eq!(rows[0].timestamp, Some("2021-01-01T00:00:00Z".to_string()));
    assert_eq!(
        rows[0].result,
        vec![("n".to_string(), DruidNativeType::Long(3))]
    );
    assert_eq!(rows[1].timestamp, None);
    assert_eq!(
        rows[1].result,
        vec![("n".to_string(), DruidNativeType::Float("4.5".to_string()))]
    );
}

#[test]
fn segment_metadata_records_decode() {
    let body = "[{\"id\":\"seg1\",\"intervals\":[\"2021-01-01/2021-01-02\"],\"columns\":{\"c\":{\"type\":\"STRING\"}},\"aggregators\":{\"a\":{\"type\":\"longSum\"}},\"queryGranularity\":{\"type\":\"duration\",\"duration\":3600000},\"size\":100,\"numRows\":10}]";
    let rows = segment_metadata_results(body).unwrap();
    assert_eq!(rows.len(), 1);
    assert_eq!(rows[0].id, "seg1");
    assert_eq!(rows[0].intervals[0].to_text(), "2021-01-01/2021-01-02");
    assert_eq!(rows[0].columns[0].0, "c");
    assert_eq!(
        rows[0].query_granularity,
        Granularity::Duration {
            duration: 3600000,
            origin: None
        }
    );
    assert_eq!(rows[0].size, 100);
    assert_eq!(rows[0].num_rows, 10);
}

#[test]
fn interval_strings_with_two_periods_are_rejected() {
    let body = "[{\"id\":\"seg1\",\"intervals\":[\"P1D/PT3H\"],\"columns\":{},\"aggregators\":{},\"queryGranularity\":\"day\",\"size\":1,\"numRows\":1}]";
    assert!(segment_metadata_results(body).is_err());
}
