//! The addresses of the weather and earthquake datasets.

use crate::common::Lang;
use vstd::prelude::*;
use vstd::string::StringExecFns;

verus! {

/// The address of the dataset `datatype` of the service `base` in a
/// language.
pub open spec fn api_url_text(base: Seq<char>, datatype: Seq<char>, lang: Lang) -> Seq<char> {
    "https://data.weather.gov.hk/weatherAPI/opendata/"@ + base + ".php?dataType="@ + datatype
        + "&lang="@ + lang.code_text()
}

/// Builds the address of the dataset `datatype` of the service `base` in a
/// language.
pub fn api_url(base: &str, datatype: &str, lang: Lang) -> (r: String)
    ensures
        r@ == api_url_text(base@, datatype@, lang),
{
    let mut s: String = String::from_str("https://data.weather.gov.hk/weatherAPI/opendata/");
    s.append(base);
    s.append(".php?dataType=");
    s.append(datatype);
    s.append("&lang=");
    s.append(lang.code());
    s
}

/// A dataset that is asked for by service, name and language.
pub trait API {
    /// The service that holds the dataset.
    spec fn base_text() -> Seq<char>;

    /// The name of the dataset.
    spec fn datatype_text() -> Seq<char>;

    /// The service that holds the dataset.
    fn base() -> (r: &'static str)
        ensures
            r@ == Self::base_text(),
    ;

    /// The name of the dataset.
    fn datatype() -> (r: &'static str)
        ensures
            r@ == Self::datatype_text(),
    ;

    /// Generates the address for retrieving the data in a language.
    fn url(lang: Lang) -> (r: String)
        ensures
            r@ == api_url_text(Self::base_text(), Self::datatype_text(), lang),
    {
        api_url(Self::base(), Self::datatype(), lang)
    }
}

} // verus!
