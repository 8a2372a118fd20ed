//! 9-day weather forecast of Hong Kong.

use crate::error::DataError;
use crate::fetch::API;
use crate::fields::date_in;
use crate::fields::date_member;
use crate::fields::psr_in;
use crate::fields::psr_member;
use crate::fields::status_in;
use crate::fields::status_member;
use crate::fields::time_in;
use crate::fields::time_member;
use crate::json::json_document;
use crate::json::text_in;
use crate::json::text_member;
use crate::json::Json;
use crate::time::Date;
use crate::time::TimePoint;
use crate::weather::name::Name;
use crate::weather::psr::PSR;
use crate::common::place_val_unit_of;
use crate::common::val_unit_in;
use crate::common::val_unit_member;
use crate::common::PlaceValUnit;
use crate::common::PlaceValUnitView;
use crate::common::ValUnit;
use crate::common::ValUnitView;
use vstd::prelude::*;

verus! {

/// The weather forecast of a date.
#[derive(Clone, Debug)]
pub struct WeatherForcast {
    /// Forecast date
    pub date: Date,
    /// Forecast weather
    pub weather: String,
    /// Forecast maximum temperature
    pub max_temp: ValUnit,
    /// Forecast minimum temperature
    pub min_temp: ValUnit,
    /// Forecast wind
    pub wind: String,
    /// Forecast maximum relative humidity
    pub max_humidity: ValUnit,
    /// Forecast minimum relative humidity
    pub min_humidity: ValUnit,
    /// Forecast weather icon
    pub icon: Name,
    /// Probability of significant rain
    pub psr: PSR,
}

/// What a `WeatherForcast` holds.
pub struct WeatherForcastView {
    pub date: Date,
    pub weather: Seq<char>,
    pub max_temp: ValUnitView,
    pub min_temp: ValUnitView,
    pub wind: Seq<char>,
    pub max_humidity: ValUnitView,
    pub min_humidity: ValUnitView,
    pub icon: Name,
    pub psr: PSR,
}

impl View for WeatherForcast {
    type V = WeatherForcastView;

    open spec fn view(&self) -> WeatherForcastView {
        WeatherForcastView {
            date: self.date,
            weather: self.weather@,
            max_temp: self.max_temp@,
            min_temp: self.min_temp@,
            wind: self.wind@,
            max_humidity: self.max_humidity@,
            min_humidity: self.min_humidity@,
            icon: self.icon,
            psr: self.psr,
        }
    }
}

/// What a value holds as the forecast of a day: nothing where a member is missing or
/// cannot be read as its field.
pub open spec fn weather_forcast_of(j: Json) -> Option<WeatherForcastView> {
    if date_in(j, "forecastDate"@) is Some
        && text_in(j, "forecastWeather"@) is Some
        && val_unit_in(j, "forecastMaxtemp"@) is Some
        && val_unit_in(j, "forecastMintemp"@) is Some
        && text_in(j, "forecastWind"@) is Some
        && val_unit_in(j, "forecastMaxrh"@) is Some
        && val_unit_in(j, "forecastMinrh"@) is Some
        && status_in(j, "ForecastIcon"@) is Some
        && psr_in(j, "PSR"@) is Some {
        Some(
            WeatherForcastView {
                date: date_in(j, "forecastDate"@)->Some_0,
                weather: text_in(j, "forecastWeather"@)->Some_0,
                max_temp: val_unit_in(j, "forecastMaxtemp"@)->Some_0,
                min_temp: val_unit_in(j, "forecastMintemp"@)->Some_0,
                wind: text_in(j, "forecastWind"@)->Some_0,
                max_humidity: val_unit_in(j, "forecastMaxrh"@)->Some_0,
                min_humidity: val_unit_in(j, "forecastMinrh"@)->Some_0,
                icon: status_in(j, "ForecastIcon"@)->Some_0,
                psr: psr_in(j, "PSR"@)->Some_0,
            },
        )
    } else {
        None
    }
}

impl WeatherForcast {
    /// Decodes the forecast of a day.
    pub fn from_json(j: &Json) -> (r: Option<WeatherForcast>)
        ensures
            r is Some <==> weather_forcast_of(*j) is Some,
            r is Some ==> r->Some_0@ == weather_forcast_of(*j)->Some_0,
    {
        let date: Date = match date_member(j, "forecastDate") {
            Some(x) => x,
            None => {
                return None;
            },
        };
        let weather: String = match text_member(j, "forecastWeather") {
            Some(x) => x,
            None => {
                return None;
            },
        };
        let max_temp: ValUnit = match val_unit_member(j, "forecastMaxtemp") {
            Some(x) => x,
            None => {
                return None;
            },
        };
        let min_temp: ValUnit = match val_unit_member(j, "forecastMintemp") {
            Some(x) => x,
            None => {
                return None;
            },
        };
        let wind: String = match text_member(j, "forecastWind") {
            Some(x) => x,
            None => {
                return None;
            },
        };
        let max_humidity: ValUnit = match val_unit_member(j, "forecastMaxrh") {
            Some(x) => x,
            None => {
                return None;
            },
        };
        let min_humidity: ValUnit = match val_unit_member(j, "forecastMinrh") {
            Some(x) => x,
            None => {
                return None;
            },
        };
        let icon: Name = match status_member(j, "ForecastIcon") {
            Some(x) => x,
            None => {
                return None;
            },
        };
        let psr: PSR = match psr_member(j, "PSR") {
            Some(x) => x,
            None => {
                return None;
            },
        };
        Some(WeatherForcast { date, weather, max_temp, min_temp, wind, max_humidity, min_humidity, icon, psr })
    }
}

/// What a list of `WeatherForcast` holds.
pub open spec fn weather_forcast_views(list: Seq<WeatherForcast>) -> Seq<WeatherForcastView> {
    Seq::new(list.len(), |i: int| list[i]@)
}

/// What a value holds as a list of `WeatherForcast`, where it is an array of which
/// every item can be read.
pub open spec fn weather_forcast_list_of(j: Json) -> Option<Seq<WeatherForcastView>> {
    match j {
        Json::Array(list) => if forall|i: int|
            0 <= i < list@.len() ==> weather_forcast_of(#[trigger] list@[i]) is Some {
            Some(Seq::new(list@.len(), |i: int| weather_forcast_of(list@[i])->Some_0))
        } else {
            None
        },
        _ => None,
    }
}

/// Decodes a list of `WeatherForcast`.
pub fn weather_forcast_list(j: &Json) -> (r: Option<Vec<WeatherForcast>>)
    ensures
        r is Some <==> weather_forcast_list_of(*j) is Some,
        r is Some ==> weather_forcast_views(r->Some_0@) == weather_forcast_list_of(*j)->Some_0,
{
    match j {
        Json::Array(list) => {
            let mut out: Vec<WeatherForcast> = Vec::new();
            let mut i: usize = 0;
            while i < list.len()
                invariant
                    i <= list.len(),
                    out.len() == i,
                    *j matches Json::Array(l) && l == *list,
                    forall|k: int| 0 <= k < i ==> weather_forcast_of(#[trigger] list@[k]) is Some,
                    forall|k: int|
                        0 <= k < i ==> (#[trigger] out@[k])@ == weather_forcast_of(list@[k])->Some_0,
                decreases list.len() - i,
            {
                match WeatherForcast::from_json(&list[i]) {
                    Some(x) => {
                        out.push(x);
                    },
                    None => {
                        assert(weather_forcast_of(list@[i as int]) is None);
                        return None;
                    },
                }
                i = i + 1;
            }
            assert(weather_forcast_views(out@) =~= weather_forcast_list_of(*j)->Some_0);
            Some(out)
        },
        _ => None,
    }
}

/// What the member under a key holds as a list of `WeatherForcast`.
pub open spec fn weather_forcast_list_in(doc: Json, key: Seq<char>) -> Option<Seq<WeatherForcastView>> {
    match doc.member_spec(key) {
        Some(j) => weather_forcast_list_of(j),
        None => None,
    }
}

/// Decodes the member under a key as a list of `WeatherForcast`.
pub fn weather_forcast_list_member(doc: &Json, key: &str) -> (r: Option<Vec<WeatherForcast>>)
    ensures
        r is Some <==> weather_forcast_list_in(*doc, key@) is Some,
        r is Some ==> weather_forcast_views(r->Some_0@) == weather_forcast_list_in(*doc, key@)->Some_0,
{
    match doc.member(key) {
        Some(j) => weather_forcast_list(j),
        None => None,
    }
}

/// Sea temperature measured in a place at a time.
#[derive(Clone, Debug)]
pub struct SeaTemp {
    pub temp: PlaceValUnit,
    pub record_time: TimePoint,
}

/// What a `SeaTemp` holds.
pub struct SeaTempView {
    pub temp: PlaceValUnitView,
    pub record_time: TimePoint,
}

impl View for SeaTemp {
    type V = SeaTempView;

    open spec fn view(&self) -> SeaTempView {
        SeaTempView {
            temp: self.temp@,
            record_time: self.record_time,
        }
    }
}

/// What a value holds as a sea temperature: nothing where a member is missing or
/// cannot be read as its field.
pub open spec fn sea_temp_of(j: Json) -> Option<SeaTempView> {
    if place_val_unit_of(j) is Some
        && time_in(j, "recordTime"@) is Some {
        Some(
            SeaTempView {
                temp: place_val_unit_of(j)->Some_0,
                record_time: time_in(j, "recordTime"@)->Some_0,
            },
        )
    } else {
        None
    }
}

impl SeaTemp {
    /// Decodes a sea temperature.
    pub fn from_json(j: &Json) -> (r: Option<SeaTemp>)
        ensures
            r is Some <==> sea_temp_of(*j) is Some,
            r is Some ==> r->Some_0@ == sea_temp_of(*j)->Some_0,
    {
        let temp: PlaceValUnit = match PlaceValUnit::from_json(j) {
            Some(x) => x,
            None => {
                return None;
            },
        };
        let record_time: TimePoint = match time_member(j, "recordTime") {
            Some(x) => x,
            None => {
                return None;
            },
        };
        Some(SeaTemp { temp, record_time })
    }
}

/// What the member under a key holds as a sea temperature.
pub open spec fn sea_temp_in(doc: Json, key: Seq<char>) -> Option<SeaTempView> {
    match doc.member_spec(key) {
        Some(j) => sea_temp_of(j),
        None => None,
    }
}

/// Decodes the member under a key as a sea temperature.
pub fn sea_temp_member(doc: &Json, key: &str) -> (r: Option<SeaTemp>)
    ensures
        r is Some <==> sea_temp_in(*doc, key@) is Some,
        r is Some ==> r->Some_0@ == sea_temp_in(*doc, key@)->Some_0,
{
    match doc.member(key) {
        Some(j) => SeaTemp::from_json(j),
        None => None,
    }
}

/// Soil temperature measured in a place, at a depth, at a time.
#[derive(Clone, Debug)]
pub struct SoilTemp {
    pub temp: PlaceValUnit,
    pub depth: ValUnit,
    pub record_time: TimePoint,
}

/// What a `SoilTemp` holds.
pub struct SoilTempView {
    pub temp: PlaceValUnitView,
    pub depth: ValUnitView,
    pub record_time: TimePoint,
}

impl View for SoilTemp {
    type V = SoilTempView;

    open spec fn view(&self) -> SoilTempView {
        SoilTempView {
            temp: self.temp@,
            depth: self.depth@,
            record_time: self.record_time,
        }
    }
}

/// What a value holds as a soil temperature: nothing where a member is missing or
/// cannot be read as its field.
pub open spec fn soil_temp_of(j: Json) -> Option<SoilTempView> {
    if place_val_unit_of(j) is Some
        && val_unit_in(j, "depth"@) is Some
        && time_in(j, "recordTime"@) is Some {
        Some(
            SoilTempView {
                temp: place_val_unit_of(j)->Some_0,
                depth: val_unit_in(j, "depth"@)->Some_0,
                record_time: time_in(j, "recordTime"@)->Some_0,
            },
        )
    } else {
        None
    }
}

impl SoilTemp {
    /// Decodes a soil temperature.
    pub fn from_json(j: &Json) -> (r: Option<SoilTemp>)
        ensures
            r is Some <==> soil_temp_of(*j) is Some,
            r is Some ==> r->Some_0@ == soil_temp_of(*j)->Some_0,
    {
        let temp: PlaceValUnit = match PlaceValUnit::from_json(j) {
            Some(x) => x,
            None => {
                return None;
            },
        };
        let depth: ValUnit = match val_unit_member(j, "depth") {
            Some(x) => x,
            None => {
                return None;
            },
        };
        let record_time: TimePoint = match time_member(j, "recordTime") {
            Some(x) => x,
            None => {
                return None;
            },
        };
        Some(SoilTemp { temp, depth, record_time })
    }
}

/// What a list of `SoilTemp` holds.
pub open spec fn soil_temp_views(list: Seq<SoilTemp>) -> Seq<SoilTempView> {
    Seq::new(list.len(), |i: int| list[i]@)
}

/// What a value holds as a list of `SoilTemp`, where it is an array of which
/// every item can be read.
pub open spec fn soil_temp_list_of(j: Json) -> Option<Seq<SoilTempView>> {
    match j {
        Json::Array(list) => if forall|i: int|
            0 <= i < list@.len() ==> soil_temp_of(#[trigger] list@[i]) is Some {
            Some(Seq::new(list@.len(), |i: int| soil_temp_of(list@[i])->Some_0))
        } else {
            None
        },
        _ => None,
    }
}

/// Decodes a list of `SoilTemp`.
pub fn soil_temp_list(j: &Json) -> (r: Option<Vec<SoilTemp>>)
    ensures
        r is Some <==> soil_temp_list_of(*j) is Some,
        r is Some ==> soil_temp_views(r->Some_0@) == soil_temp_list_of(*j)->Some_0,
{
    match j {
        Json::Array(list) => {
            let mut out: Vec<SoilTemp> = Vec::new();
            let mut i: usize = 0;
            while i < list.len()
                invariant
                    i <= list.len(),
                    out.len() == i,
                    *j matches Json::Array(l) && l == *list,
                    forall|k: int| 0 <= k < i ==> soil_temp_of(#[trigger] list@[k]) is Some,
                    forall|k: int|
                        0 <= k < i ==> (#[trigger] out@[k])@ == soil_temp_of(list@[k])->Some_0,
                decreases list.len() - i,
            {
                match SoilTemp::from_json(&list[i]) {
                    Some(x) => {
                        out.push(x);
                    },
                    None => {
                        assert(soil_temp_of(list@[i as int]) is None);
                        return None;
                    },
                }
                i = i + 1;
            }
            assert(soil_temp_views(out@) =~= soil_temp_list_of(*j)->Some_0);
            Some(out)
        },
        _ => None,
    }
}

/// What the member under a key holds as a list of `SoilTemp`.
pub open spec fn soil_temp_list_in(doc: Json, key: Seq<char>) -> Option<Seq<SoilTempView>> {
    match doc.member_spec(key) {
        Some(j) => soil_temp_list_of(j),
        None => None,
    }
}

/// Decodes the member under a key as a list of `SoilTemp`.
pub fn soil_temp_list_member(doc: &Json, key: &str) -> (r: Option<Vec<SoilTemp>>)
    ensures
        r is Some <==> soil_temp_list_in(*doc, key@) is Some,
        r is Some ==> soil_temp_views(r->Some_0@) == soil_temp_list_in(*doc, key@)->Some_0,
{
    match doc.member(key) {
        Some(j) => soil_temp_list(j),
        None => None,
    }
}

/// 9-day weather forecast of Hong Kong.
#[derive(Clone, Debug)]
pub struct NineDay {
    /// General situation
    pub general_situation: String,
    /// A list of weather forecasts
    pub weather_forecast: Vec<WeatherForcast>,
    /// Sea surface temperature
    pub sea_temp: SeaTemp,
    /// Soil temperature
    pub soil_temp: Vec<SoilTemp>,
    /// Update time
    pub update_time: TimePoint,
}

/// What a `NineDay` holds.
pub struct NineDayView {
    pub general_situation: Seq<char>,
    pub weather_forecast: Seq<WeatherForcastView>,
    pub sea_temp: SeaTempView,
    pub soil_temp: Seq<SoilTempView>,
    pub update_time: TimePoint,
}

impl View for NineDay {
    type V = NineDayView;

    open spec fn view(&self) -> NineDayView {
        NineDayView {
            general_situation: self.general_situation@,
            weather_forecast: weather_forcast_views(self.weather_forecast@),
            sea_temp: self.sea_temp@,
            soil_temp: soil_temp_views(self.soil_temp@),
            update_time: self.update_time,
        }
    }
}

/// What a value holds as the 9-day weather forecast: nothing where a member is missing or
/// cannot be read as its field.
pub open spec fn nine_day_of(j: Json) -> Option<NineDayView> {
    if text_in(j, "generalSituation"@) is Some
        && weather_forcast_list_in(j, "weatherForecast"@) is Some
        && sea_temp_in(j, "seaTemp"@) is Some
        && soil_temp_list_in(j, "soilTemp"@) is Some
        && time_in(j, "updateTime"@) is Some {
        Some(
            NineDayView {
                general_situation: text_in(j, "generalSituation"@)->Some_0,
                weather_forecast: weather_forcast_list_in(j, "weatherForecast"@)->Some_0,
                sea_temp: sea_temp_in(j, "seaTemp"@)->Some_0,
                soil_temp: soil_temp_list_in(j, "soilTemp"@)->Some_0,
                update_time: time_in(j, "updateTime"@)->Some_0,
            },
        )
    } else {
        None
    }
}

impl NineDay {
    /// Decodes the 9-day weather forecast.
    pub fn from_json(j: &Json) -> (r: Option<NineDay>)
        ensures
            r is Some <==> nine_day_of(*j) is Some,
            r is Some ==> r->Some_0@ == nine_day_of(*j)->Some_0,
    {
        let general_situation: String = match text_member(j, "generalSituation") {
            Some(x) => x,
            None => {
                return None;
            },
        };
        let weather_forecast: Vec<WeatherForcast> = match weather_forcast_list_member(j, "weatherForecast") {
            Some(x) => x,
            None => {
                return None;
            },
        };
        let sea_temp: SeaTemp = match sea_temp_member(j, "seaTemp") {
            Some(x) => x,
            None => {
                return None;
            },
        };
        let soil_temp: Vec<SoilTemp> = match soil_temp_list_member(j, "soilTemp") {
            Some(x) => x,
            None => {
                return None;
            },
        };
        let update_time: TimePoint = match time_member(j, "updateTime") {
            Some(x) => x,
            None => {
                return None;
            },
        };
        Some(NineDay { general_situation, weather_forecast, sea_temp, soil_temp, update_time })
    }
}

/// What a response body holds as the 9-day weather forecast.
pub open spec fn nine_day_of_body(s: Seq<char>) -> Option<NineDayView> {
    match json_document(s) {
        Some(doc) => nine_day_of(doc),
        None => None,
    }
}

impl NineDay {
    /// Decodes a response body.
    pub fn from_str(s: &str) -> (r: Result<NineDay, DataError>)
        ensures
            r is Ok <==> nine_day_of_body(s@) is Some,
            r is Ok ==> r->Ok_0@ == nine_day_of_body(s@)->Some_0,
            r is Err ==> r->Err_0 is SourceFormat,
    {
        match crate::json::parse(s) {
            Ok(doc) => match NineDay::from_json(&doc) {
                Some(x) => Ok(x),
                None => Err(
                    DataError::SourceFormat("a member is missing or cannot be read".to_owned()),
                ),
            },
            Err(e) => Err(e),
        }
    }
}

impl API for NineDay {
    open spec fn base_text() -> Seq<char> {
        "weather"@
    }

    open spec fn datatype_text() -> Seq<char> {
        "fnd"@
    }

    fn base() -> &'static str {
        "weather"
    }

    fn datatype() -> &'static str {
        "fnd"
    }
}

} // verus!
