//! Earthquake information.

use crate::error::DataError;
use crate::fetch::API;
use crate::fields::number_in;
use crate::fields::number_member;
use crate::fields::optional_number_in;
use crate::fields::optional_number_member;
use crate::fields::optional_text_in;
use crate::fields::optional_text_member;
use crate::fields::optional_texts_in;
use crate::fields::optional_texts_member;
use crate::fields::optional_time_in;
use crate::fields::optional_time_member;
use crate::fields::text_view;
use crate::fields::texts_view;
use crate::fields::time_in;
use crate::fields::time_member;
use crate::json::json_document;
use crate::json::text_in;
use crate::json::text_member;
use crate::json::Json;
use crate::time::TimePoint;
use vstd::prelude::*;

verus! {

/// A quick earthquake message. Latitude, longitude and magnitude are the
/// decimal texts of numbers.
#[derive(Clone, Debug)]
pub struct Message {
    pub latitude: String,
    pub longitude: String,
    pub magnitude: String,
    pub region: String,
    pub occur_time: TimePoint,
    pub update_time: TimePoint,
}

/// What a `Message` holds.
pub struct MessageView {
    pub latitude: Seq<char>,
    pub longitude: Seq<char>,
    pub magnitude: Seq<char>,
    pub region: Seq<char>,
    pub occur_time: TimePoint,
    pub update_time: TimePoint,
}

impl View for Message {
    type V = MessageView;

    open spec fn view(&self) -> MessageView {
        MessageView {
            latitude: self.latitude@,
            longitude: self.longitude@,
            magnitude: self.magnitude@,
            region: self.region@,
            occur_time: self.occur_time,
            update_time: self.update_time,
        }
    }
}

/// What a value holds as a quick earthquake message: nothing where a member is missing or
/// cannot be read as its field.
pub open spec fn message_of(j: Json) -> Option<MessageView> {
    if number_in(j, "lat"@) is Some
        && number_in(j, "lon"@) is Some
        && number_in(j, "mag"@) is Some
        && text_in(j, "region"@) is Some
        && time_in(j, "ptime"@) is Some
        && time_in(j, "updateTime"@) is Some {
        Some(
            MessageView {
                latitude: number_in(j, "lat"@)->Some_0,
                longitude: number_in(j, "lon"@)->Some_0,
                magnitude: number_in(j, "mag"@)->Some_0,
                region: text_in(j, "region"@)->Some_0,
                occur_time: time_in(j, "ptime"@)->Some_0,
                update_time: time_in(j, "updateTime"@)->Some_0,
            },
        )
    } else {
        None
    }
}

impl Message {
    /// Decodes a quick earthquake message.
    pub fn from_json(j: &Json) -> (r: Option<Message>)
        ensures
            r is Some <==> message_of(*j) is Some,
            r is Some ==> r->Some_0@ == message_of(*j)->Some_0,
    {
        let latitude: String = match number_member(j, "lat") {
            Some(x) => x,
            None => {
                return None;
            },
        };
        let longitude: String = match number_member(j, "lon") {
            Some(x) => x,
            None => {
                return None;
            },
        };
        let magnitude: String = match number_member(j, "mag") {
            Some(x) => x,
            None => {
                return None;
            },
        };
        let region: String = match text_member(j, "region") {
            Some(x) => x,
            None => {
                return None;
            },
        };
        let occur_time: TimePoint = match time_member(j, "ptime") {
            Some(x) => x,
            None => {
                return None;
            },
        };
        let update_time: TimePoint = match time_member(j, "updateTime") {
            Some(x) => x,
            None => {
                return None;
            },
        };
        Some(Message { latitude, longitude, magnitude, region, occur_time, update_time })
    }
}

/// What a response body holds as a quick earthquake message.
pub open spec fn message_of_body(s: Seq<char>) -> Option<MessageView> {
    match json_document(s) {
        Some(doc) => message_of(doc),
        None => None,
    }
}

impl Message {
    /// Decodes a response body.
    pub fn from_str(s: &str) -> (r: Result<Message, DataError>)
        ensures
            r is Ok <==> message_of_body(s@) is Some,
            r is Ok ==> r->Ok_0@ == message_of_body(s@)->Some_0,
            r is Err ==> r->Err_0 is SourceFormat,
    {
        match crate::json::parse(s) {
            Ok(doc) => match Message::from_json(&doc) {
                Some(x) => Ok(x),
                None => Err(
                    DataError::SourceFormat("a member is missing or cannot be read".to_owned()),
                ),
            },
            Err(e) => Err(e),
        }
    }
}

impl API for Message {
    open spec fn base_text() -> Seq<char> {
        "earthquake"@
    }

    open spec fn datatype_text() -> Seq<char> {
        "qem"@
    }

    fn base() -> &'static str {
        "earthquake"
    }

    fn datatype() -> &'static str {
        "qem"
    }
}

/// A report of a locally felt earth tremor; every field may be missing.
/// Latitude, longitude, magnitude and intensity are the decimal texts of
/// numbers.
#[derive(Clone, Debug)]
pub struct FeltReport {
    pub latitude: Option<String>,
    pub longitude: Option<String>,
    pub magnitude: Option<String>,
    pub intensity: Option<String>,
    pub region: Option<String>,
    pub details: Option<Vec<String>>,
    pub occur_time: Option<TimePoint>,
    pub update_time: Option<TimePoint>,
}

/// What a `FeltReport` holds.
pub struct FeltReportView {
    pub latitude: Option<Seq<char>>,
    pub longitude: Option<Seq<char>>,
    pub magnitude: Option<Seq<char>>,
    pub intensity: Option<Seq<char>>,
    pub region: Option<Seq<char>>,
    pub details: Option<Seq<Seq<char>>>,
    pub occur_time: Option<TimePoint>,
    pub update_time: Option<TimePoint>,
}

impl View for FeltReport {
    type V = FeltReportView;

    open spec fn view(&self) -> FeltReportView {
        FeltReportView {
            latitude: text_view(self.latitude),
            longitude: text_view(self.longitude),
            magnitude: text_view(self.magnitude),
            intensity: text_view(self.intensity),
            region: text_view(self.region),
            details: texts_view(self.details),
            occur_time: self.occur_time,
            update_time: self.update_time,
        }
    }
}

/// What a value holds as a report of a felt earth tremor: nothing where a member is missing or
/// cannot be read as its field.
pub open spec fn felt_report_of(j: Json) -> Option<FeltReportView> {
    if optional_number_in(j, "lat"@) is Some
        && optional_number_in(j, "lon"@) is Some
        && optional_number_in(j, "mag"@) is Some
        && optional_number_in(j, "intensity"@) is Some
        && optional_text_in(j, "region"@) is Some
        && optional_texts_in(j, "details"@) is Some
        && optional_time_in(j, "ptime"@) is Some
        && optional_time_in(j, "updateTime"@) is Some {
        Some(
            FeltReportView {
                latitude: optional_number_in(j, "lat"@)->Some_0,
                longitude: optional_number_in(j, "lon"@)->Some_0,
                magnitude: optional_number_in(j, "mag"@)->Some_0,
                intensity: optional_number_in(j, "intensity"@)->Some_0,
                region: optional_text_in(j, "region"@)->Some_0,
                details: optional_texts_in(j, "details"@)->Some_0,
                occur_time: optional_time_in(j, "ptime"@)->Some_0,
                update_time: optional_time_in(j, "updateTime"@)->Some_0,
            },
        )
    } else {
        None
    }
}

impl FeltReport {
    /// Decodes a report of a felt earth tremor.
    pub fn from_json(j: &Json) -> (r: Option<FeltReport>)
        ensures
            r is Some <==> felt_report_of(*j) is Some,
            r is Some ==> r->Some_0@ == felt_report_of(*j)->Some_0,
    {
        let latitude: Option<String> = match optional_number_member(j, "lat") {
            Some(x) => x,
            None => {
                return None;
            },
        };
        let longitude: Option<String> = match optional_number_member(j, "lon") {
            Some(x) => x,
            None => {
                return None;
            },
        };
        let magnitude: Option<String> = match optional_number_member(j, "mag") {
            Some(x) => x,
            None => {
                return None;
            },
        };
        let intensity: Option<String> = match optional_number_member(j, "intensity") {
            Some(x) => x,
            None => {
                return None;
            },
        };
        let region: Option<String> = match optional_text_member(j, "region") {
            Some(x) => x,
            None => {
                return None;
            },
        };
        let details: Option<Vec<String>> = match optional_texts_member(j, "details") {
            Some(x) => x,
            None => {
                return None;
            },
        };
        let occur_time: Option<TimePoint> = match optional_time_member(j, "ptime") {
            Some(x) => x,
            None => {
                return None;
            },
        };
        let update_time: Option<TimePoint> = match optional_time_member(j, "updateTime") {
            Some(x) => x,
            None => {
                return None;
            },
        };
        Some(FeltReport { latitude, longitude, magnitude, intensity, region, details, occur_time, update_time })
    }
}

/// What a response body holds as a report of a felt earth tremor.
pub open spec fn felt_report_of_body(s: Seq<char>) -> Option<FeltReportView> {
    match json_document(s) {
        Some(doc) => felt_report_of(doc),
        None => None,
    }
}

impl FeltReport {
    /// Decodes a response body.
    pub fn from_str(s: &str) -> (r: Result<FeltReport, DataError>)
        ensures
            r is Ok <==> felt_report_of_body(s@) is Some,
            r is Ok ==> r->Ok_0@ == felt_report_of_body(s@)->Some_0,
            r is Err ==> r->Err_0 is SourceFormat,
    {
        match crate::json::parse(s) {
            Ok(doc) => match FeltReport::from_json(&doc) {
                Some(x) => Ok(x),
                None => Err(
                    DataError::SourceFormat("a member is missing or cannot be read".to_owned()),
                ),
            },
            Err(e) => Err(e),
        }
    }
}

impl API for FeltReport {
    open spec fn base_text() -> Seq<char> {
        "earthquake"@
    }

    open spec fn datatype_text() -> Seq<char> {
        "feltearthquake"@
    }

    fn base() -> &'static str {
        "earthquake"
    }

    fn datatype() -> &'static str {
        "feltearthquake"
    }
}

} // verus!
