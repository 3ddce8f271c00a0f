//! A row-oriented connector that serves the Corrently green-energy forecast
//! as a virtual table.
//!
//! The host engine owns the network and the row sink. This crate owns the
//! rest of a scan: it reads the query's predicates, builds the request,
//! checks the answer, validates and flattens the JSON payload into a
//! columnar cache, and serves that cache one row at a time in the column
//! shape the host asked for.
//!
//! A scan runs through [`CorrentlyFdw`]:
//!
//! 1. [`CorrentlyFdw::init`] takes the server's options.
//! 2. [`CorrentlyFdw::begin_scan`] takes the query's predicates and returns
//!    the request. The host sends it.
//! 3. [`CorrentlyFdw::load_response`] takes the status and the body of the
//!    answer and fills the cache.
//! 4. [`CorrentlyFdw::iter_scan`] serves one row per call, in the columns
//!    that the host names, until it returns `None`.
//! 5. [`CorrentlyFdw::re_scan`] starts the same rows over, and
//!    [`CorrentlyFdw::end_scan`] discards them.
//!
//! Every function is verified against a contract over a mathematical model:
//! [`fdw::FdwModel`] for the connector, [`record::RecordModel`] for a row,
//! [`json::Json`] for a decoded document. What is taken on trust from
//! `serde_json` and from `std` stands in [`json`] and in [`text`].

pub mod cache;
pub mod decimal;
pub mod error;
pub mod fdw;
pub mod json;
pub mod laws;
pub mod parser;
pub mod qual;
pub mod record;
pub mod request;
pub mod schema;
pub mod text;

pub use cache::ForecastCache;
pub use decimal::{truncate_double, Decimal};
pub use error::FdwError;
pub use fdw::CorrentlyFdw;
pub use parser::{flatten, read_record};
pub use qual::{extract_qual_i64, extract_qual_string, Qual, QualValue};
pub use record::ForecastRecord;
pub use record::scale_millis;
pub use request::{build_headers, build_url, limit_hours, Request};
pub use schema::{Cell, Column, ColumnKind};
pub use text::{push_decimal, push_numeral};
