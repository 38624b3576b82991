//! A typed client library for building native and SQL queries against an
//! Apache Druid cluster and for decoding the responses it sends back.
//!
//! The library is arranged in two modules, [`components`] and [`queries`].
//! `components` has the native query building blocks such as aggregations
//! and filters; `queries` has the query envelopes, the SQL query, and the
//! response model. The client routes a query to the right endpoint
//! and decodes what comes back; the HTTP exchange itself is left to the
//! caller, who hands the response body to the decoders.

pub mod client;
pub mod components;
pub mod json;
pub mod prelude;
pub mod queries;
pub mod text;
