//! Times of rise, transit and set of the moon.

use crate::error::APIRequestError;
use crate::opendata::rs::url_fault;
use crate::opendata::rs::url_for;
use crate::opendata::rs::url_text;
use crate::opendata::ResponseFormat;
use vstd::prelude::*;

pub use crate::opendata::rs::Response;
pub use crate::opendata::rs::ResponseUnit;

verus! {

/// Builds the address of a request for a year, or a month or a day of it.
pub fn url(
    year: i32,
    month: Option<u32>,
    day: Option<u32>,
    response_format: Option<ResponseFormat>,
) -> (r: Result<String, APIRequestError>)
    ensures
        match url_fault(year, month, day) {
            Some(why) => r is Err && r->Err_0.0@ == why,
            None => r is Ok && r->Ok_0@ == url_text("MRS"@, year, month, day, response_format),
        },
{
    url_for("MRS", year, month, day, response_format)
}

} // verus!
