//! Local weather forecast.

use crate::error::DataError;
use crate::fetch::API;
use crate::fields::time_in;
use crate::fields::time_member;
use crate::json::json_document;
use crate::json::text_in;
use crate::json::text_member;
use crate::json::Json;
use crate::time::TimePoint;
use vstd::prelude::*;

verus! {

/// Local weather forecast for today and/or tomorrow.
#[derive(Clone, Debug)]
pub struct Local {
    /// General situation
    pub general_situation: String,
    /// Tropical cyclone information
    pub tc_info: String,
    /// Fire danger warning message
    pub fire_danger_warning: String,
    /// Forecast period
    pub forecast_period: String,
    /// Forecast description
    pub forecast_desc: String,
    /// Outlook
    pub outlook: String,
    /// Update time
    pub update_time: TimePoint,
}

/// What a `Local` holds.
pub struct LocalView {
    pub general_situation: Seq<char>,
    pub tc_info: Seq<char>,
    pub fire_danger_warning: Seq<char>,
    pub forecast_period: Seq<char>,
    pub forecast_desc: Seq<char>,
    pub outlook: Seq<char>,
    pub update_time: TimePoint,
}

impl View for Local {
    type V = LocalView;

    open spec fn view(&self) -> LocalView {
        LocalView {
            general_situation: self.general_situation@,
            tc_info: self.tc_info@,
            fire_danger_warning: self.fire_danger_warning@,
            forecast_period: self.forecast_period@,
            forecast_desc: self.forecast_desc@,
            outlook: self.outlook@,
            update_time: self.update_time,
        }
    }
}

/// What a value holds as the local weather forecast: nothing where a member is missing or
/// cannot be read as its field.
pub open spec fn local_of(j: Json) -> Option<LocalView> {
    if text_in(j, "generalSituation"@) is Some
        && text_in(j, "tcInfo"@) is Some
        && text_in(j, "fireDangerWarning"@) is Some
        && text_in(j, "forecastPeriod"@) is Some
        && text_in(j, "forecastDesc"@) is Some
        && text_in(j, "outlook"@) is Some
        && time_in(j, "updateTime"@) is Some {
        Some(
            LocalView {
                general_situation: text_in(j, "generalSituation"@)->Some_0,
                tc_info: text_in(j, "tcInfo"@)->Some_0,
                fire_danger_warning: text_in(j, "fireDangerWarning"@)->Some_0,
                forecast_period: text_in(j, "forecastPeriod"@)->Some_0,
                forecast_desc: text_in(j, "forecastDesc"@)->Some_0,
                outlook: text_in(j, "outlook"@)->Some_0,
                update_time: time_in(j, "updateTime"@)->Some_0,
            },
        )
    } else {
        None
    }
}

impl Local {
    /// Decodes the local weather forecast.
    pub fn from_json(j: &Json) -> (r: Option<Local>)
        ensures
            r is Some <==> local_of(*j) is Some,
            r is Some ==> r->Some_0@ == local_of(*j)->Some_0,
    {
        let general_situation: String = match text_member(j, "generalSituation") {
            Some(x) => x,
            None => {
                return None;
            },
        };
        let tc_info: String = match text_member(j, "tcInfo") {
            Some(x) => x,
            None => {
                return None;
            },
        };
        let fire_danger_warning: String = match text_member(j, "fireDangerWarning") {
            Some(x) => x,
            None => {
                return None;
            },
        };
        let forecast_period: String = match text_member(j, "forecastPeriod") {
            Some(x) => x,
            None => {
                return None;
            },
        };
        let forecast_desc: String = match text_member(j, "forecastDesc") {
            Some(x) => x,
            None => {
                return None;
            },
        };
        let outlook: String = match text_member(j, "outlook") {
            Some(x) => x,
            None => {
                return None;
            },
        };
        let update_time: TimePoint = match time_member(j, "updateTime") {
            Some(x) => x,
            None => {
                return None;
            },
        };
        Some(Local { general_situation, tc_info, fire_danger_warning, forecast_period, forecast_desc, outlook, update_time })
    }
}

/// What a response body holds as the local weather forecast.
pub open spec fn local_of_body(s: Seq<char>) -> Option<LocalView> {
    match json_document(s) {
        Some(doc) => local_of(doc),
        None => None,
    }
}

impl Local {
    /// Decodes a response body.
    pub fn from_str(s: &str) -> (r: Result<Local, DataError>)
        ensures
            r is Ok <==> local_of_body(s@) is Some,
            r is Ok ==> r->Ok_0@ == local_of_body(s@)->Some_0,
            r is Err ==> r->Err_0 is SourceFormat,
    {
        match crate::json::parse(s) {
            Ok(doc) => match Local::from_json(&doc) {
                Some(x) => Ok(x),
                None => Err(
                    DataError::SourceFormat("a member is missing or cannot be read".to_owned()),
                ),
            },
            Err(e) => Err(e),
        }
    }
}

impl API for Local {
    open spec fn base_text() -> Seq<char> {
        "weather"@
    }

    open spec fn datatype_text() -> Seq<char> {
        "flw"@
    }

    fn base() -> &'static str {
        "weather"
    }

    fn datatype() -> &'static str {
        "flw"
    }
}

} // verus!
