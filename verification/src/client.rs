//! The client: holds the configured endpoint addresses, routes a query
//! to the right one, builds the request body, and decodes the response
//! body.
//!
//! The HTTP exchange itself is the caller's: `prepare` says where to POST
//! and what, and `decode` reads the returned body back. The client holds
//! no per-request state, so one instance may serve any number of
//! concurrent exchanges.

use vstd::prelude::*;

verus! {

use crate::json::json_of;
use crate::json::json_text_of;
use crate::json::render_json;
use crate::queries::Query;
use crate::queries::query_body_jsonv;
use crate::queries::response::DruidResponse;
use crate::queries::response::QueryError;
use crate::queries::response::datasource_metadata_results;
use crate::queries::response::dsm_array_decodable;
use crate::queries::response::dsm_array_matches;
use crate::queries::response::groupby_array_decodable;
use crate::queries::response::groupby_array_matches;
use crate::queries::response::groupby_results;
use crate::queries::response::query_error_decodable;
use crate::queries::response::query_error_matches;
use crate::queries::response::scan_array_decodable;
use crate::queries::response::scan_array_matches;
use crate::queries::response::scan_results;
use crate::queries::response::search_array_decodable;
use crate::queries::response::search_array_matches;
use crate::queries::response::search_results;
use crate::queries::response::segment_array_decodable;
use crate::queries::response::segment_array_matches;
use crate::queries::response::segment_metadata_results;
use crate::queries::response::sql_body_matches;
use crate::queries::response::sql_body_ok;
use crate::queries::response::sql_results;
use crate::queries::response::time_boundary_array_decodable;
use crate::queries::response::time_boundary_array_matches;
use crate::queries::response::time_boundary_results;
use crate::queries::response::topn_array_decodable;
use crate::queries::response::topn_array_matches;
use crate::queries::response::topn_results;
use crate::queries::response::ts_array_decodable;
use crate::queries::response::ts_array_matches;
use crate::queries::response::timeseries_results;

/// An error of this library, tagged by kind so that a caller can branch:
/// a client configured without the needed endpoint, a transport failure,
/// a response that decodes as nothing known, or the server's own
/// structured error.
#[derive(Debug)]
pub enum Error {
    Client(String),
    Connection(String),
    ResponseDecode(String),
    QueryError(QueryError),
}

/// The message of a library error, prefixed by its kind; a remote query
/// error is summarized by its error name.
pub open spec fn error_message(e: Error) -> Seq<char> {
    match e {
        Error::Client(m) => m@,
        Error::Connection(m) => "connection error: "@ + m@,
        Error::ResponseDecode(m) => "error during decoding response from druid: "@ + m@,
        Error::QueryError(qe) => "error response from druid "@ + qe.error@,
    }
}

impl Error {
    /// A human-readable message for this error.
    pub fn message(&self) -> (r: String)
        ensures
            r@ == error_message(*self),
    {
        match self {
            Error::Client(m) => m.clone(),
            Error::Connection(m) => String::from_str("connection error: ").concat(m.as_str()),
            Error::ResponseDecode(m) => String::from_str(
                "error during decoding response from druid: ",
            ).concat(m.as_str()),
            Error::QueryError(qe) => String::from_str("error response from druid ").concat(
                qe.error.as_str(),
            ),
        }
    }

    /// The decode error for a response body that is not valid UTF-8
    /// text; the transport layer maps its text-decoding failure through
    /// this.
    pub fn invalid_utf8() -> (r: Self)
        ensures
            r matches Error::ResponseDecode(m) && m@ == "response is not valid utf-8"@,
    {
        Error::ResponseDecode(String::from_str("response is not valid utf-8"))
    }

    /// A connection error carrying the transport's description, with the
    /// target address when it is known.
    pub fn connection(detail: String) -> (r: Self)
        ensures
            r == Error::Connection(detail),
    {
        Error::Connection(detail)
    }
}

/// One HTTP request the caller is to perform: POST the body, as JSON, to
/// the address.
#[derive(Debug)]
pub struct HttpRequest {
    pub url: String,
    pub body: String,
}



/// A client configured with a native-query address, a SQL address, or
/// both; there is no way to build one with neither.
pub struct Client {
    pub native_endpoint: Option<String>,
    pub sql_endpoint: Option<String>,
}

impl Client {
    /// A client for both native and SQL querying.
    pub fn new(native_endpoint: String, sql_endpoint: String) -> (r: Result<Self, Error>)
        ensures
            r matches Ok(c) && c == (Client {
                native_endpoint: Some(native_endpoint),
                sql_endpoint: Some(sql_endpoint),
            }),
    {
        Ok(Self { native_endpoint: Some(native_endpoint), sql_endpoint: Some(sql_endpoint) })
    }

    /// A client for native querying only.
    pub fn native_client(native_endpoint: String) -> (r: Result<Self, Error>)
        ensures
            r matches Ok(c) && c == (Client {
                native_endpoint: Some(native_endpoint),
                sql_endpoint: None,
            }),
    {
        Ok(Self { native_endpoint: Some(native_endpoint), sql_endpoint: None })
    }

    /// A client for SQL querying only.
    pub fn sql_client(sql_endpoint: String) -> (r: Result<Self, Error>)
        ensures
            r matches Ok(c) && c == (Client {
                native_endpoint: None,
                sql_endpoint: Some(sql_endpoint),
            }),
    {
        Ok(Self { native_endpoint: None, sql_endpoint: Some(sql_endpoint) })
    }

    /// Whether this client can take native queries.
    fn is_native(&self) -> (r: Result<(), Error>)
        ensures
            match r {
                Ok(_) => self.native_endpoint is Some,
                Err(e) => self.native_endpoint is None && (e matches Error::Client(m) && m@
                    == "not a native query client"@),
            },
    {
        match &self.native_endpoint {
            Some(_) => Ok(()),
            None => Err(Error::Client(String::from_str("not a native query client"))),
        }
    }

    /// Whether this client can take SQL queries.
    fn is_sql(&self) -> (r: Result<(), Error>)
        ensures
            match r {
                Ok(_) => self.sql_endpoint is Some,
                Err(e) => self.sql_endpoint is None && (e matches Error::Client(m) && m@
                    == "not a SQL client"@),
            },
    {
        match &self.sql_endpoint {
            Some(_) => Ok(()),
            None => Err(Error::Client(String::from_str("not a SQL client"))),
        }
    }

    /// Route a query and build its request: a SQL query goes to the SQL
    /// address, every native kind to the native address, with the
    /// serialized envelope as the body. A query whose address is not
    /// configured fails at once, with no request to perform.
    pub fn prepare(&self, q: &Query) -> (r: Result<HttpRequest, Error>)
        ensures
            match r {
                Ok(req) => {
                    &&& (q is Sql ==> self.sql_endpoint == Some(req.url))
                    &&& (!(q is Sql) ==> self.native_endpoint == Some(req.url))
                    &&& req.body@ == json_text_of(query_body_jsonv(*q))
                },
                Err(e) => {
                    if *q is Sql {
                        self.sql_endpoint is None && (e matches Error::Client(m) && m@
                            == "not a SQL client"@)
                    } else {
                        self.native_endpoint is None && (e matches Error::Client(m) && m@
                            == "not a native query client"@)
                    }
                },
            },
    {
        let url = if let Query::Sql(_) = q {
            match self.is_sql() {
                Ok(_) => {
                    match &self.sql_endpoint {
                        Some(u) => u.clone(),
                        None => {
                            return Err(Error::Client(String::from_str("not a SQL client")));
                        },
                    }
                },
                Err(e) => {
                    return Err(e);
                },
            }
        } else {
            match self.is_native() {
                Ok(_) => {
                    match &self.native_endpoint {
                        Some(u) => u.clone(),
                        None => {
                            return Err(
                                Error::Client(String::from_str("not a native query client")),
                            );
                        },
                    }
                },
                Err(e) => {
                    return Err(e);
                },
            }
        };
        let body = render_json(&q.body_json());
        Ok(HttpRequest { url, body })
    }

    /// Decode a response body for the query that produced it, by the
    /// query's kind and, for SQL, its declared result format.
    pub fn decode(q: &Query, body: &str) -> (r: Result<DruidResponse, Error>)
        ensures
            match *q {
                Query::Timeseries(_) => decoded_as(
                    r,
                    body@,
                    |rs: DruidResponse|
                        rs matches DruidResponse::Timeseries(v) && (
                        json_of(body@) matches Some(jv) && ts_array_matches(v@, jv)),
                    |jv: crate::json::JsonV| ts_array_decodable(jv),
                ),
                Query::TopN(_) => decoded_as(
                    r,
                    body@,
                    |rs: DruidResponse|
                        rs matches DruidResponse::TopN(v) && (json_of(body@) matches Some(jv)
                            && topn_array_matches(v@, jv)),
                    |jv: crate::json::JsonV| topn_array_decodable(jv),
                ),
                Query::GroupBy(_) => decoded_as(
                    r,
                    body@,
                    |rs: DruidResponse|
                        rs matches DruidResponse::GroupBy(v) && (
                        json_of(body@) matches Some(jv) && groupby_array_matches(v@, jv)),
                    |jv: crate::json::JsonV| groupby_array_decodable(jv),
                ),
                Query::Scan(_) => decoded_as(
                    r,
                    body@,
                    |rs: DruidResponse|
                        rs matches DruidResponse::Scan(v) && (json_of(body@) matches Some(jv)
                            && scan_array_matches(v@, jv)),
                    |jv: crate::json::JsonV| scan_array_decodable(jv),
                ),
                Query::Search(_) => decoded_as(
                    r,
                    body@,
                    |rs: DruidResponse|
                        rs matches DruidResponse::Search(v) && (
                        json_of(body@) matches Some(jv) && search_array_matches(v@, jv)),
                    |jv: crate::json::JsonV| search_array_decodable(jv),
                ),
                Query::TimeBoundary(_) => decoded_as(
                    r,
                    body@,
                    |rs: DruidResponse|
                        rs matches DruidResponse::TimeBoundary(v) && (
                        json_of(body@) matches Some(jv) && time_boundary_array_matches(
                            v@,
                            jv,
                        )),
                    |jv: crate::json::JsonV| time_boundary_array_decodable(jv),
                ),
                Query::SegmentMetadata(_) => decoded_as(
                    r,
                    body@,
                    |rs: DruidResponse|
                        rs matches DruidResponse::SegmentMetadata(v) && (
                        json_of(body@) matches Some(jv) && segment_array_matches(v@, jv)),
                    |jv: crate::json::JsonV| segment_array_decodable(jv),
                ),
                Query::DataSourceMetadata(_) => decoded_as(
                    r,
                    body@,
                    |rs: DruidResponse|
                        rs matches DruidResponse::DataSourceMetadata(v) && (
                        json_of(body@) matches Some(jv) && dsm_array_matches(v@, jv)),
                    |jv: crate::json::JsonV| dsm_array_decodable(jv),
                ),
                Query::Sql(ref s) => match r {
                    Ok(rs) => rs matches DruidResponse::Sql(v) && sql_body_ok(
                        s.result_format,
                        body@,
                    ) && sql_body_matches(v@, s.result_format, body@),
                    Err(_) => !sql_body_ok(s.result_format, body@),
                },
            },
    {
        match q {
            Query::Timeseries(_) => match timeseries_results(body) {
                Ok(v) => Ok(DruidResponse::Timeseries(v)),
                Err(e) => Err(e),
            },
            Query::TopN(_) => match topn_results(body) {
                Ok(v) => Ok(DruidResponse::TopN(v)),
                Err(e) => Err(e),
            },
            Query::GroupBy(_) => match groupby_results(body) {
                Ok(v) => Ok(DruidResponse::GroupBy(v)),
                Err(e) => Err(e),
            },
            Query::Scan(_) => match scan_results(body) {
                Ok(v) => Ok(DruidResponse::Scan(v)),
                Err(e) => Err(e),
            },
            Query::Search(_) => match search_results(body) {
                Ok(v) => Ok(DruidResponse::Search(v)),
                Err(e) => Err(e),
            },
            Query::TimeBoundary(_) => match time_boundary_results(body) {
                Ok(v) => Ok(DruidResponse::TimeBoundary(v)),
                Err(e) => Err(e),
            },
            Query::SegmentMetadata(_) => match segment_metadata_results(body) {
                Ok(v) => Ok(DruidResponse::SegmentMetadata(v)),
                Err(e) => Err(e),
            },
            Query::DataSourceMetadata(_) => match datasource_metadata_results(body) {
                Ok(v) => Ok(DruidResponse::DataSourceMetadata(v)),
                Err(e) => Err(e),
            },
            Query::Sql(s) => match sql_results(&s.result_format, body) {
                Ok(v) => Ok(DruidResponse::Sql(v)),
                Err(e) => Err(e),
            },
        }
    }
}

/// What a native decode outcome means: the success shape when it fits,
/// else the structured error shape, else a plain decode error.
pub open spec fn decoded_as(
    r: Result<DruidResponse, Error>,
    body: Seq<char>,
    good: spec_fn(DruidResponse) -> bool,
    decodable: spec_fn(crate::json::JsonV) -> bool,
) -> bool {
    match r {
        Ok(rs) => json_of(body) matches Some(jv) && decodable(jv) && good(rs),
        Err(e) => match e {
            Error::QueryError(qe) => json_of(body) matches Some(jv) && !decodable(jv)
                && query_error_decodable(jv) && query_error_matches(qe, jv),
            Error::ResponseDecode(m) => m@ == "response is not valid JSON"@ && (match json_of(
                body,
            ) {
                None => true,
                Some(jv) => !decodable(jv) && !query_error_decodable(jv),
            }),
            _ => false,
        },
    }
}

} // verus!
