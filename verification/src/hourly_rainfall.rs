//! Rainfall in the past hour from the automatic weather stations.

use crate::common::decimal_digits;
use crate::common::decimal_text;
use crate::common::Lang;
use crate::deserialize::deserialize_to_rainfall_value;
use crate::deserialize::rainfall_of;
use crate::error::DataError;
use crate::json::json_document;
use crate::json::text_in;
use crate::json::text_member;
use crate::json::Json;
use crate::time::decode_rfc3339;
use crate::time::rfc3339_time;
use crate::time::TimePoint;
use vstd::prelude::*;
use vstd::string::StringExecFns;

verus! {

/// The rainfall that a station measured in an hour.
#[derive(Clone, Copy, Debug, PartialEq, Eq, Structural)]
pub enum RainfallValue {
    /// The station is under maintenance.
    UnderMaintenance,
    /// Rainfall amount in millimetres.
    Rainfall(u32),
}

impl RainfallValue {
    /// The text that stands for the value in a response: `M` for a station
    /// under maintenance, the decimal digits of the amount otherwise.
    pub open spec fn text(self) -> Seq<char> {
        match self {
            RainfallValue::UnderMaintenance => "M"@,
            RainfallValue::Rainfall(n) => decimal_digits(n as nat),
        }
    }

    /// Writes the value as a response does.
    pub fn encode(&self) -> (r: String)
        ensures
            r@ == self.text(),
    {
        match self {
            RainfallValue::UnderMaintenance => String::from_str("M"),
            RainfallValue::Rainfall(n) => decimal_text(*n),
        }
    }
}

/// Rainfall amount in the one-hour period.
#[derive(Clone, Debug)]
pub struct HourlyRainfall {
    /// Name of the automatic weather station
    pub automatic_weather_station: String,
    /// Identifier of the automatic weather station in this dataset
    pub automatic_weather_station_id: String,
    /// The total rainfall in the hour that ends at the observation time
    pub value: RainfallValue,
    /// Unit of the rainfall amount
    pub unit: String,
}

/// The address of a request in a language.
pub open spec fn url_text(lang: Lang) -> Seq<char> {
    "https://data.weather.gov.hk/weatherAPI/opendata/hourlyRainfall.php?lang="@ + lang.code_text()
}

/// Builds the address of a request in a language.
pub fn url(lang: &Lang) -> (r: String)
    ensures
        r@ == url_text(*lang),
{
    String::from_str("https://data.weather.gov.hk/weatherAPI/opendata/hourlyRainfall.php?lang=").concat(
        lang.code(),
    )
}


/// What an `HourlyRainfall` holds.
pub struct Gauge {
    pub automatic_weather_station: Seq<char>,
    pub automatic_weather_station_id: Seq<char>,
    pub value: RainfallValue,
    pub unit: Seq<char>,
}

impl View for HourlyRainfall {
    type V = Gauge;

    open spec fn view(&self) -> Gauge {
        Gauge {
            automatic_weather_station: self.automatic_weather_station@,
            automatic_weather_station_id: self.automatic_weather_station_id@,
            value: self.value,
            unit: self.unit@,
        }
    }
}

/// Main response type.
#[derive(Clone, Debug)]
pub struct Response {
    /// Observation time
    pub obs_time: TimePoint,
    /// Rainfall data
    pub hourly_rainfall: Vec<HourlyRainfall>,
}

/// What a list of stations holds.
pub open spec fn gauges(list: Seq<HourlyRainfall>) -> Seq<Gauge> {
    Seq::new(list.len(), |i: int| list[i]@)
}

/// The station that a value of the list describes: nothing where its name,
/// its identifier, its amount or its unit is missing or no text, or where
/// the amount is neither `M` nor a number.
pub open spec fn gauge_of(j: Json) -> Option<Gauge> {
    if text_in(j, "automaticWeatherStation"@) is Some && text_in(j, "automaticWeatherStationID"@)
        is Some && text_in(j, "value"@) is Some && text_in(j, "unit"@) is Some && rainfall_of(
        text_in(j, "value"@)->Some_0,
    ) is Some {
        Some(
            Gauge {
                automatic_weather_station: text_in(j, "automaticWeatherStation"@)->Some_0,
                automatic_weather_station_id: text_in(j, "automaticWeatherStationID"@)->Some_0,
                value: rainfall_of(text_in(j, "value"@)->Some_0)->Some_0,
                unit: text_in(j, "unit"@)->Some_0,
            },
        )
    } else {
        None
    }
}

/// The stations of a list, where every value of the list describes one.
pub open spec fn gauges_of(list: Seq<Json>) -> Option<Seq<Gauge>> {
    if forall|i: int| 0 <= i < list.len() ==> gauge_of(#[trigger] list[i]) is Some {
        Some(Seq::new(list.len(), |i: int| gauge_of(list[i])->Some_0))
    } else {
        None
    }
}

/// The observation time and the stations of a document: nothing where the
/// time is missing or cannot be read, or where the list is missing or one of
/// its values describes no station.
pub open spec fn json_rainfall(doc: Json) -> Option<(TimePoint, Seq<Gauge>)> {
    match (text_in(doc, "obsTime"@), doc.member_spec("hourlyRainfall"@)) {
        (Some(t), Some(Json::Array(list))) => if rfc3339_time(t) is Some && gauges_of(list@)
            is Some {
            Some((rfc3339_time(t)->Some_0, gauges_of(list@)->Some_0))
        } else {
            None
        },
        _ => None,
    }
}

/// The observation time and the stations of a response body.
pub open spec fn body_rainfall(s: Seq<char>) -> Option<(TimePoint, Seq<Gauge>)> {
    match json_document(s) {
        Some(doc) => json_rainfall(doc),
        None => None,
    }
}

impl HourlyRainfall {
    /// Decodes the description of one station.
    pub fn from_json(j: &Json) -> (r: Option<HourlyRainfall>)
        ensures
            r is Some <==> gauge_of(*j) is Some,
            r is Some ==> r->Some_0@ == gauge_of(*j)->Some_0,
    {
        let automatic_weather_station: String = match text_member(j, "automaticWeatherStation") {
            Some(t) => t,
            None => {
                return None;
            },
        };
        let automatic_weather_station_id: String = match text_member(
            j,
            "automaticWeatherStationID",
        ) {
            Some(t) => t,
            None => {
                return None;
            },
        };
        let amount: String = match text_member(j, "value") {
            Some(t) => t,
            None => {
                return None;
            },
        };
        let unit: String = match text_member(j, "unit") {
            Some(t) => t,
            None => {
                return None;
            },
        };
        let value: RainfallValue = match deserialize_to_rainfall_value(amount.as_str()) {
            Ok(v) => v,
            Err(_) => {
                return None;
            },
        };
        Some(
            HourlyRainfall { automatic_weather_station, automatic_weather_station_id, value, unit },
        )
    }
}

fn refuse(why: &str) -> (e: DataError)
    ensures
        e is SourceFormat,
        e->SourceFormat_0@ == why@,
{
    DataError::SourceFormat(String::from_str(why))
}

impl Response {
    /// What the response holds.
    pub open spec fn content(self) -> (TimePoint, Seq<Gauge>) {
        (self.obs_time, gauges(self.hourly_rainfall@))
    }

    /// Decodes a JSON document.
    pub fn from_json(doc: &Json) -> (r: Result<Response, DataError>)
        ensures
            r is Ok <==> json_rainfall(*doc) is Some,
            r is Ok ==> r->Ok_0.content() == json_rainfall(*doc)->Some_0,
            r is Ok ==> r->Ok_0.obs_time.wf(),
            r is Err ==> r->Err_0 is SourceFormat,
    {
        let stamp: String = match text_member(doc, "obsTime") {
            Some(t) => t,
            None => {
                return Err(refuse("missing field `obsTime`"));
            },
        };
        let list: &Vec<Json> = match doc.member("hourlyRainfall") {
            Some(Json::Array(list)) => list,
            _ => {
                return Err(refuse("missing field `hourlyRainfall`"));
            },
        };
        let obs_time: TimePoint = match decode_rfc3339(stamp.as_str()) {
            Some(t) => t,
            None => {
                return Err(refuse("`obsTime` is no RFC 3339 date and time"));
            },
        };
        let mut hourly_rainfall: Vec<HourlyRainfall> = Vec::new();
        let mut i: usize = 0;
        while i < list.len()
            invariant
                i <= list.len(),
                hourly_rainfall.len() == i,
                gauges_of(list@) is None ==> json_rainfall(*doc) is None,
                forall|k: int| 0 <= k < i ==> gauge_of(#[trigger] list@[k]) is Some,
                forall|k: int|
                    0 <= k < i ==> (#[trigger] hourly_rainfall@[k])@ == gauge_of(list@[k])->Some_0,
            decreases list.len() - i,
        {
            match HourlyRainfall::from_json(&list[i]) {
                Some(g) => {
                    hourly_rainfall.push(g);
                },
                None => {
                    assert(gauge_of(list@[i as int]) is None);
                    return Err(refuse("`hourlyRainfall` holds a value that describes no station"));
                },
            }
            i = i + 1;
        }
        assert(gauges(hourly_rainfall@) =~= gauges_of(list@)->Some_0);
        Ok(Response { obs_time, hourly_rainfall })
    }

    /// Decodes a response body.
    pub fn from_str(s: &str) -> (r: Result<Response, DataError>)
        ensures
            r is Ok <==> body_rainfall(s@) is Some,
            r is Ok ==> r->Ok_0.content() == body_rainfall(s@)->Some_0,
            r is Err ==> r->Err_0 is SourceFormat,
    {
        match crate::json::parse(s) {
            Ok(doc) => Response::from_json(&doc),
            Err(e) => Err(e),
        }
    }
}

} // verus!
