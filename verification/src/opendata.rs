//! Open data: climate and weather information.
//!
//! Each dataset has a `Response` that is decoded from the body of a reply,
//! JSON or delimited text alike, and a function `url` that builds the request.

use vstd::prelude::*;
use vstd::string::StringExecFns;

pub mod clm;
pub mod clmmaxt;
pub mod clmmint;
pub mod clmtemp;
pub mod hhot;
pub mod hlt;
pub mod lhl;
pub mod ltmv;
pub mod mrs;
pub mod rs;
pub mod ryes;
pub mod srs;
pub mod station;

pub use self::station::SeaStation;
pub use self::station::TempStation;
pub use self::station::WeatherStation;

verus! {

/// The encoding that a request asks for.
#[derive(Clone, Copy, Debug, PartialEq, Eq, Structural)]
pub enum ResponseFormat {
    JSON,
    CSV,
}

impl ResponseFormat {
    /// The value of the request parameter `rformat`.
    pub open spec fn code_text(self) -> Seq<char> {
        match self {
            ResponseFormat::JSON => "json"@,
            ResponseFormat::CSV => "csv"@,
        }
    }

    /// The value of the request parameter `rformat`.
    pub fn code(&self) -> (r: &'static str)
        ensures
            r@ == self.code_text(),
    {
        match self {
            ResponseFormat::JSON => "json",
            ResponseFormat::CSV => "csv",
        }
    }
}

/// The address that every dataset of the open data is asked from, up to the
/// name of the dataset.
pub open spec fn base_text() -> Seq<char> {
    "https://data.weather.gov.hk/weatherAPI/opendata/opendata.php?dataType="@
}

/// The part of a query that asks for an encoding: empty where none is asked
/// for.
pub open spec fn format_part(format: Option<ResponseFormat>) -> Seq<char> {
    match format {
        Some(f) => "&rformat="@ + f.code_text(),
        None => seq![],
    }
}

/// The part of a query that sets a number: empty where none is given.
pub open spec fn number_part(name: Seq<char>, value: Option<u32>) -> Seq<char> {
    match value {
        Some(n) => name + crate::common::decimal_digits(n as nat),
        None => seq![],
    }
}

/// Starts the address of a request for the dataset `datatype`.
pub fn base_url(datatype: &str) -> (r: String)
    ensures
        r@ == base_text() + datatype@,
{
    String::from_str("https://data.weather.gov.hk/weatherAPI/opendata/opendata.php?dataType=").concat(
        datatype,
    )
}

/// Appends the request for an encoding, where one is asked for.
pub fn push_format(url: &mut String, format: Option<ResponseFormat>)
    ensures
        final(url)@ == old(url)@ + format_part(format),
{
    match format {
        Some(f) => {
            let ghost before = url@;
            url.append("&rformat=");
            url.append(f.code());
            assert(url@ =~= before + format_part(format));
        },
        None => {
            assert(url@ =~= url@ + format_part(format));
        },
    }
}

/// Appends a number under `name`, where one is given.
pub fn push_number(url: &mut String, name: &str, value: Option<u32>)
    ensures
        final(url)@ == old(url)@ + number_part(name@, value),
{
    match value {
        Some(n) => {
            let ghost before = url@;
            url.append(name);
            let digits: String = crate::common::decimal_text(n);
            url.append(digits.as_str());
            assert(url@ =~= before + number_part(name@, value));
        },
        None => {
            assert(url@ =~= url@ + number_part(name@, value));
        },
    }
}

} // verus!
