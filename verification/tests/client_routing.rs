//! Tests for the client: construction and query routing.

use query_druid::client::{Client, Error};
use query_druid::components::data_sources::DataSource;
use query_druid::components::granularities::Granularity;
use query_druid::queries::timeseries::Timeseries;
use query_druid::queries::sql::Sql;
use query_druid::queries::Query;

#[test]
fn new_test() {
    let new_client = Client::new(
        "http://localhost:8888/druid/v2".to_string(),
        "http://localhost:8888/druid/v2/sql".to_string(),
    )
    .expect("couldn't create a client");
    let client = Client {
        native_endpoint: Some("http://localhost:8888/druid/v2".to_string()),
        sql_endpoint: Some("http://localhost:8888/druid/v2/sql".to_string()),
    };
    assert_eq!(new_client.native_endpoint, client.native_endpoint);
    assert_eq!(new_client.sql_endpoint, client.sql_endpoint);
}

#[test]
fn sql_only_client_rejects_native_queries() {
    let client = Client::sql_client("http://localhost:8888/druid/v2/sql/".to_string()).unwrap();
    let query = Query::Timeseries(Timeseries::new(
        DataSource::table("wikipedia".to_string()),
        vec![],
        Granularity::simple("all".to_string()),
    ));
    match client.prepare(&query) {
        Err(Error::Client(m)) => assert_eq!(m, "not a native query client"),
        _ => panic!("did not receive the expected error"),
    }
}

#[test]
fn native_only_client_rejects_sql_queries() {
    let client = Client::native_client("http://localhost:8888/druid/v2/".to_string()).unwrap();
    let query = Query::Sql(Sql::new("SELECT 1"));
    match client.prepare(&query) {
        Err(Error::Client(m)) => assert_eq!(m, "not a SQL client"),
        _ => panic!("did not receive the expected error"),
    }
}

#[test]
fn routing_picks_the_matching_endpoint() {
    let client = Client::new(
        "http://localhost:8888/druid/v2/".to_string(),
        "http://localhost:8888/druid/v2/sql/".to_string(),
    )
    .unwrap();
    let sql = Query::Sql(Sql::new("SELECT 1"));
    let req = client.prepare(&sql).unwrap();
    assert_eq!(req.url, "http://localhost:8888/druid/v2/sql/");
    assert_eq!(req.body, "{\"query\":\"SELECT 1\"}");

    let native = Query::Timeseries(Timeseries::new(
        DataSource::table("wikipedia".to_string()),
        vec![],
        Granularity::simple("all".to_string()),
    ));
    let req = client.prepare(&native).unwrap();
    assert_eq!(req.url, "http://localhost:8888/druid/v2/");
}

#[test]
fn error_messages_carry_their_kind() {
    let client = Client::sql_client("http://localhost:8888/druid/v2/sql/".to_string()).unwrap();
    let query = Query::Timeseries(Timeseries::new(
        DataSource::table("t".to_string()),
        vec![],
        Granularity::simple("all".to_string()),
    ));
    let e = client.prepare(&query).unwrap_err();
    assert_eq!(e.message(), "not a native query client");
    assert_eq!(
        Error::connection("refused".to_string()).message(),
        "connection error: refused"
    );
    assert_eq!(
        Error::invalid_utf8().message(),
        "error during decoding response from druid: response is not valid utf-8"
    );
}
