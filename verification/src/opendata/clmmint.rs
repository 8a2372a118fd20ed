//! Daily minimum temperature.

use crate::error::APIRequestError;
use crate::opendata::clm::url_fault;
use crate::opendata::clm::url_for;
use crate::opendata::clm::url_text;
use crate::opendata::ResponseFormat;
use crate::opendata::TempStation;
use vstd::prelude::*;

pub use crate::opendata::clm::Response;
pub use crate::opendata::clm::ResponseUnit;

verus! {

/// Builds the address of a request for the record of a station, or a year
/// or a month of it.
pub fn url(
    station: TempStation,
    year: Option<u32>,
    month: Option<u32>,
    response_format: Option<ResponseFormat>,
) -> (r: Result<String, APIRequestError>)
    ensures
        match url_fault(station, year) {
            Some(why) => r is Err && r->Err_0.0@ == why,
            None => r is Ok && r->Ok_0@ == url_text(
                "CLMMINT"@,
                station,
                year,
                month,
                response_format,
            ),
        },
{
    url_for("CLMMINT", station, year, month, response_format)
}

} // verus!
