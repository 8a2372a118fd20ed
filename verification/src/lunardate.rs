//! Gregorian-Lunar calendar conversion table.

use crate::error::APIRequestError;
use crate::error::DataError;
use crate::json::json_document;
use crate::json::text_in;
use crate::json::text_member;
use crate::json::Json;
use crate::time::dashed_date;
use crate::time::dashed_date_text;
use crate::time::Date;
use vstd::prelude::*;
use vstd::string::StringExecFns;

verus! {

/// Main response type.
#[derive(Clone, Debug)]
pub struct Response {
    /// Lunar year, Gan-Zhi and Zodiac (in traditional Chinese)
    pub lunar_year: String,
    /// Lunar date (in traditional Chinese)
    pub lunar_date: String,
}

/// The lunar year and the lunar date of a document, where it has both as
/// texts.
pub open spec fn json_lunar(doc: Json) -> Option<(Seq<char>, Seq<char>)> {
    if text_in(doc, "LunarYear"@) is Some && text_in(doc, "LunarDate"@) is Some {
        Some((text_in(doc, "LunarYear"@)->Some_0, text_in(doc, "LunarDate"@)->Some_0))
    } else {
        None
    }
}

/// The lunar year and the lunar date of a response body.
pub open spec fn body_lunar(s: Seq<char>) -> Option<(Seq<char>, Seq<char>)> {
    match json_document(s) {
        Some(doc) => json_lunar(doc),
        None => None,
    }
}

impl Response {
    /// Decodes a JSON document.
    pub fn from_json(doc: &Json) -> (r: Result<Response, DataError>)
        ensures
            r is Ok <==> json_lunar(*doc) is Some,
            r is Ok ==> (r->Ok_0.lunar_year@, r->Ok_0.lunar_date@) == json_lunar(*doc)->Some_0,
            r is Err ==> r->Err_0 is SourceFormat,
    {
        let lunar_year: String = match text_member(doc, "LunarYear") {
            Some(t) => t,
            None => {
                return Err(DataError::SourceFormat(String::from_str("missing field `LunarYear`")));
            },
        };
        let lunar_date: String = match text_member(doc, "LunarDate") {
            Some(t) => t,
            None => {
                return Err(DataError::SourceFormat(String::from_str("missing field `LunarDate`")));
            },
        };
        Ok(Response { lunar_year, lunar_date })
    }

    /// Decodes a response body.
    pub fn from_str(s: &str) -> (r: Result<Response, DataError>)
        ensures
            r is Ok <==> body_lunar(s@) is Some,
            r is Ok ==> (r->Ok_0.lunar_year@, r->Ok_0.lunar_date@) == body_lunar(s@)->Some_0,
            r is Err ==> r->Err_0 is SourceFormat,
    {
        match crate::json::parse(s) {
            Ok(doc) => Response::from_json(&doc),
            Err(e) => Err(e),
        }
    }
}

/// The address of a request for a date that the table holds.
pub open spec fn url_text(date: Date) -> Seq<char> {
    "https://data.weather.gov.hk/weatherAPI/opendata/lunardate.php?date="@ + dashed_date_text(date)
}

/// Builds the address of a request for a date of the calendar. The table
/// holds the years 2023 to 2027.
pub fn url(date: Date) -> (r: Result<String, APIRequestError>)
    requires
        date.wf(),
    ensures
        2023 <= date.year <= 2027 ==> r is Ok && r->Ok_0@ == url_text(date),
        !(2023 <= date.year <= 2027) ==> r is Err && r->Err_0.0@
            == "date must be between 2023-01-01 and 2027-12-31"@,
{
    if date.year < 2023 || date.year > 2027 {
        return Err(
            APIRequestError(String::from_str("date must be between 2023-01-01 and 2027-12-31")),
        );
    }
    let day: String = dashed_date(date);
    Ok(
        String::from_str("https://data.weather.gov.hk/weatherAPI/opendata/lunardate.php?date=").concat(
            day.as_str(),
        ),
    )
}

} // verus!
