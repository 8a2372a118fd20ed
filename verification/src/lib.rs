//! Typed client library for the Hong Kong Observatory open-data API.
//!
//! The crate decodes the response bodies of the API, which arrive either as
//! JSON or as comma-delimited text, into typed records, and builds the request
//! URLs of each dataset. Every function is verified against its contract.
//!
//! Numeric readings with a fractional part (tide heights, temperatures,
//! visibility) are kept as their decimal text, checked against the grammar of
//! a floating-point literal; the caller converts the text to the float type
//! of its choice. Dates and times are kept as the fields of the calendar and
//! the clock, with the offset from UTC in seconds.
//!
//! - [`text`], [`json`], [`table`] and [`time`] hold the primitives: texts,
//!   JSON documents as plain values, delimited rows, and the calendar.
//! - [`deserialize`] and [`fields`] decode single fields.
//! - [`opendata`], [`weather`], [`earthquake`], [`hourly_rainfall`] and
//!   [`lunardate`] hold the datasets.

pub mod common;
pub mod deserialize;
pub mod earthquake;
pub mod error;
pub mod fetch;
pub mod fields;
pub mod hourly_rainfall;
pub mod json;
pub mod lunardate;
pub mod opendata;
pub mod table;
pub mod text;
pub mod time;
pub mod weather;

pub use self::fetch::api_url;
pub use self::fetch::API;
