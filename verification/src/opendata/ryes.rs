//! Weather and radiation level report.

use crate::common::Lang;
use crate::error::DataError;
use crate::json::json_document;
use crate::json::text_in;
use crate::json::text_member;
use crate::json::Json;
use crate::opendata::base_text;
use crate::opendata::base_url;
use crate::opendata::WeatherStation;
use crate::text::chars_of;
use crate::text::ends_with;
use crate::text::has_suffix;
use crate::text::is_float;
use crate::text::is_float_text;
use crate::text::same_text;
use crate::time::date_of;
use crate::time::decode_date;
use crate::time::decode_minute;
use crate::time::minute_of;
use crate::time::Date;
use crate::time::TimePoint;
use vstd::prelude::*;
use vstd::string::StringExecFns;

verus! {

/// What a station reports. The order of the variants is the order in which
/// the end of a key is tried against their names: a name that ends in
/// another one stands before it.
#[derive(Clone, Copy, Debug, PartialEq, Eq, Structural)]
pub enum Attribute {
    LocationName,
    Microsieverts,
    ReadingsMaxTemp,
    ReadingsMinTemp,
    ReadingsMinGrassTemp,
    ReadingsMaxRH,
    ReadingsMinRH,
    ReadingsRainfall,
    ReadingsAvgRainfall,
    ReadingsAccumRainfall,
    ReadingsMaxUVIndex,
    ReadingsMeanUVIndex,
    ReadingsSunShine,
    MaxTemp,
    MinTemp,
}

/// The number of attributes.
pub const ATTRIBUTE_COUNT: usize = 15;

impl Attribute {
    /// The name that ends the keys of the attribute.
    pub open spec fn suffix_text(self) -> Seq<char> {
        match self {
            Attribute::LocationName => "LocationName"@,
            Attribute::Microsieverts => "Microsieverts"@,
            Attribute::ReadingsMaxTemp => "ReadingsMaxTemp"@,
            Attribute::ReadingsMinTemp => "ReadingsMinTemp"@,
            Attribute::ReadingsMinGrassTemp => "ReadingsMinGrassTemp"@,
            Attribute::ReadingsMaxRH => "ReadingsMaxRH"@,
            Attribute::ReadingsMinRH => "ReadingsMinRH"@,
            Attribute::ReadingsRainfall => "ReadingsRainfall"@,
            Attribute::ReadingsAvgRainfall => "ReadingsAvgRainfall"@,
            Attribute::ReadingsAccumRainfall => "ReadingsAccumRainfall"@,
            Attribute::ReadingsMaxUVIndex => "ReadingsMaxUVIndex"@,
            Attribute::ReadingsMeanUVIndex => "ReadingsMeanUVIndex"@,
            Attribute::ReadingsSunShine => "ReadingsSunShine"@,
            Attribute::MaxTemp => "MaxTemp"@,
            Attribute::MinTemp => "MinTemp"@,
        }
    }

    /// The name that ends the keys of the attribute.
    pub fn suffix(&self) -> (r: &'static str)
        ensures
            r@ == self.suffix_text(),
    {
        match self {
            Attribute::LocationName => "LocationName",
            Attribute::Microsieverts => "Microsieverts",
            Attribute::ReadingsMaxTemp => "ReadingsMaxTemp",
            Attribute::ReadingsMinTemp => "ReadingsMinTemp",
            Attribute::ReadingsMinGrassTemp => "ReadingsMinGrassTemp",
            Attribute::ReadingsMaxRH => "ReadingsMaxRH",
            Attribute::ReadingsMinRH => "ReadingsMinRH",
            Attribute::ReadingsRainfall => "ReadingsRainfall",
            Attribute::ReadingsAvgRainfall => "ReadingsAvgRainfall",
            Attribute::ReadingsAccumRainfall => "ReadingsAccumRainfall",
            Attribute::ReadingsMaxUVIndex => "ReadingsMaxUVIndex",
            Attribute::ReadingsMeanUVIndex => "ReadingsMeanUVIndex",
            Attribute::ReadingsSunShine => "ReadingsSunShine",
            Attribute::MaxTemp => "MaxTemp",
            Attribute::MinTemp => "MinTemp",
        }
    }

    /// The attribute at a place of the order.
    pub open spec fn at_spec(i: int) -> Attribute {
        if i == 0 {
            Attribute::LocationName
        } else if i == 1 {
            Attribute::Microsieverts
        } else if i == 2 {
            Attribute::ReadingsMaxTemp
        } else if i == 3 {
            Attribute::ReadingsMinTemp
        } else if i == 4 {
            Attribute::ReadingsMinGrassTemp
        } else if i == 5 {
            Attribute::ReadingsMaxRH
        } else if i == 6 {
            Attribute::ReadingsMinRH
        } else if i == 7 {
            Attribute::ReadingsRainfall
        } else if i == 8 {
            Attribute::ReadingsAvgRainfall
        } else if i == 9 {
            Attribute::ReadingsAccumRainfall
        } else if i == 10 {
            Attribute::ReadingsMaxUVIndex
        } else if i == 11 {
            Attribute::ReadingsMeanUVIndex
        } else if i == 12 {
            Attribute::ReadingsSunShine
        } else if i == 13 {
            Attribute::MaxTemp
        } else {
            Attribute::MinTemp
        }
    }

    /// The attribute at a place of the order.
    pub fn at(i: usize) -> (r: Attribute)
        requires
            i < ATTRIBUTE_COUNT,
        ensures
            r == Attribute::at_spec(i as int),
    {
        if i == 0 {
            Attribute::LocationName
        } else if i == 1 {
            Attribute::Microsieverts
        } else if i == 2 {
            Attribute::ReadingsMaxTemp
        } else if i == 3 {
            Attribute::ReadingsMinTemp
        } else if i == 4 {
            Attribute::ReadingsMinGrassTemp
        } else if i == 5 {
            Attribute::ReadingsMaxRH
        } else if i == 6 {
            Attribute::ReadingsMinRH
        } else if i == 7 {
            Attribute::ReadingsRainfall
        } else if i == 8 {
            Attribute::ReadingsAvgRainfall
        } else if i == 9 {
            Attribute::ReadingsAccumRainfall
        } else if i == 10 {
            Attribute::ReadingsMaxUVIndex
        } else if i == 11 {
            Attribute::ReadingsMeanUVIndex
        } else if i == 12 {
            Attribute::ReadingsSunShine
        } else if i == 13 {
            Attribute::MaxTemp
        } else {
            Attribute::MinTemp
        }
    }
}

/// The first attribute, from the place `i` of the order on, whose name ends
/// the key.
pub open spec fn first_match(key: Seq<char>, i: int) -> Option<Attribute>
    decreases ATTRIBUTE_COUNT - i,
{
    if i < 0 || i >= ATTRIBUTE_COUNT {
        None
    } else if ends_with(key, Attribute::at_spec(i).suffix_text()) {
        Some(Attribute::at_spec(i))
    } else {
        first_match(key, i + 1)
    }
}

/// The station and the attribute that a key names: the first attribute of
/// the order whose name ends the key, and what stands before that name.
pub open spec fn attribute_of(key: Seq<char>) -> Option<(Seq<char>, Attribute)> {
    match first_match(key, 0) {
        Some(a) => Some((key.subrange(0, key.len() - a.suffix_text().len()), a)),
        None => None,
    }
}

/// Takes a key apart into its station and its attribute.
pub fn match_attribute(key: &str) -> (r: Option<(String, Attribute)>)
    ensures
        r is Some <==> attribute_of(key@) is Some,
        r is Some ==> r->Some_0.0@ == attribute_of(key@)->Some_0.0 && r->Some_0.1 == attribute_of(
            key@,
        )->Some_0.1,
{
    let v: Vec<char> = chars_of(key);
    let mut i: usize = 0;
    while i < ATTRIBUTE_COUNT
        invariant
            i <= ATTRIBUTE_COUNT,
            v@ == key@,
            first_match(key@, i as int) == first_match(key@, 0),
        decreases ATTRIBUTE_COUNT - i,
    {
        let a: Attribute = Attribute::at(i);
        let suffix: Vec<char> = chars_of(a.suffix());
        if has_suffix(&v, &suffix) {
            let station: &str = key.substring_char(0, v.len() - suffix.len());
            return Some((String::from_str(station), a));
        }
        i = i + 1;
    }
    None
}

/// Data retrieved from a station. Each reading is the decimal text of a
/// number, or nothing where the report has none.
#[derive(Clone, Debug)]
pub struct AreaData {
    /// The station as the keys of the report write it
    pub station: String,
    /// Station name
    pub name: String,
    /// Average ambient gamma radiation dose rate (microsievert per hour)
    pub microsieverts: Option<String>,
    /// Maximum air temperature (degree Celsius)
    pub max_temp: Option<String>,
    /// Minimum air temperature (degree Celsius)
    pub min_temp: Option<String>,
    /// Maximum air temperature (degree Celsius)
    pub readings_max_temp: Option<String>,
    /// Minimum air temperature (degree Celsius)
    pub readings_min_temp: Option<String>,
    /// Minimum grass temperature (degree Celsius)
    pub readings_min_grass_temp: Option<String>,
    /// Maximum relative humidity (percentage)
    pub readings_max_rh: Option<String>,
    /// Minimum relative humidity (percentage)
    pub readings_min_rh: Option<String>,
    /// Rainfall (millimetre)
    pub readings_rainfall: Option<String>,
    /// Average rainfall (millimetre)
    pub readings_average_rainfall: Option<String>,
    /// Accumulated rainfall (millimetre)
    pub readings_accumulated_rainfall: Option<String>,
    /// Maximum UV index
    pub readings_max_uv_index: Option<String>,
    /// Mean UV index
    pub readings_mean_uv_index: Option<String>,
    /// Duration of sunshine (hour)
    pub readings_sunshine: Option<String>,
}

/// What an `AreaData` holds.
pub struct Area {
    pub station: Seq<char>,
    pub name: Seq<char>,
    pub microsieverts: Option<Seq<char>>,
    pub max_temp: Option<Seq<char>>,
    pub min_temp: Option<Seq<char>>,
    pub readings_max_temp: Option<Seq<char>>,
    pub readings_min_temp: Option<Seq<char>>,
    pub readings_min_grass_temp: Option<Seq<char>>,
    pub readings_max_rh: Option<Seq<char>>,
    pub readings_min_rh: Option<Seq<char>>,
    pub readings_rainfall: Option<Seq<char>>,
    pub readings_average_rainfall: Option<Seq<char>>,
    pub readings_accumulated_rainfall: Option<Seq<char>>,
    pub readings_max_uv_index: Option<Seq<char>>,
    pub readings_mean_uv_index: Option<Seq<char>>,
    pub readings_sunshine: Option<Seq<char>>,
}

/// What a reading holds.
pub open spec fn reading_view(r: Option<String>) -> Option<Seq<char>> {
    match r {
        Some(t) => Some(t@),
        None => None,
    }
}

impl View for AreaData {
    type V = Area;

    open spec fn view(&self) -> Area {
        Area {
            station: self.station@,
            name: self.name@,
            microsieverts: reading_view(self.microsieverts),
            max_temp: reading_view(self.max_temp),
            min_temp: reading_view(self.min_temp),
            readings_max_temp: reading_view(self.readings_max_temp),
            readings_min_temp: reading_view(self.readings_min_temp),
            readings_min_grass_temp: reading_view(self.readings_min_grass_temp),
            readings_max_rh: reading_view(self.readings_max_rh),
            readings_min_rh: reading_view(self.readings_min_rh),
            readings_rainfall: reading_view(self.readings_rainfall),
            readings_average_rainfall: reading_view(self.readings_average_rainfall),
            readings_accumulated_rainfall: reading_view(self.readings_accumulated_rainfall),
            readings_max_uv_index: reading_view(self.readings_max_uv_index),
            readings_mean_uv_index: reading_view(self.readings_mean_uv_index),
            readings_sunshine: reading_view(self.readings_sunshine),
        }
    }
}

/// The data of a station of which nothing is known yet.
pub open spec fn blank(station: Seq<char>) -> Area {
    Area {
        station,
        name: seq![],
        microsieverts: None,
        max_temp: None,
        min_temp: None,
        readings_max_temp: None,
        readings_min_temp: None,
        readings_min_grass_temp: None,
        readings_max_rh: None,
        readings_min_rh: None,
        readings_rainfall: None,
        readings_average_rainfall: None,
        readings_accumulated_rainfall: None,
        readings_max_uv_index: None,
        readings_mean_uv_index: None,
        readings_sunshine: None,
    }
}

/// The reading that a value of the report gives: its text where it is a text
/// that denotes a number, nothing otherwise.
pub open spec fn reading_of(v: Json) -> Option<Seq<char>> {
    match v {
        Json::Text(t) => if is_float_text(t@) {
            Some(t@)
        } else {
            None
        },
        _ => None,
    }
}

/// The data of a station once the value of an attribute is noted. A name
/// that is no text leaves the name as it is.
pub open spec fn noted(area: Area, attribute: Attribute, v: Json) -> Area {
    match attribute {
        Attribute::LocationName => match v {
            Json::Text(t) => Area { name: t@, ..area },
            _ => area,
        },
        Attribute::Microsieverts => Area { microsieverts: reading_of(v), ..area },
        Attribute::ReadingsMaxTemp => Area { readings_max_temp: reading_of(v), ..area },
        Attribute::ReadingsMinTemp => Area { readings_min_temp: reading_of(v), ..area },
        Attribute::ReadingsMinGrassTemp => Area { readings_min_grass_temp: reading_of(v), ..area },
        Attribute::ReadingsMaxRH => Area { readings_max_rh: reading_of(v), ..area },
        Attribute::ReadingsMinRH => Area { readings_min_rh: reading_of(v), ..area },
        Attribute::ReadingsRainfall => Area { readings_rainfall: reading_of(v), ..area },
        Attribute::ReadingsAvgRainfall => Area { readings_average_rainfall: reading_of(v), ..area },
        Attribute::ReadingsAccumRainfall => Area { readings_accumulated_rainfall: reading_of(v), ..area },
        Attribute::ReadingsMaxUVIndex => Area { readings_max_uv_index: reading_of(v), ..area },
        Attribute::ReadingsMeanUVIndex => Area { readings_mean_uv_index: reading_of(v), ..area },
        Attribute::ReadingsSunShine => Area { readings_sunshine: reading_of(v), ..area },
        Attribute::MaxTemp => Area { max_temp: reading_of(v), ..area },
        Attribute::MinTemp => Area { min_temp: reading_of(v), ..area },
    }
}

impl AreaData {
    /// The data of a station of which nothing is known yet, not even its
    /// key.
    pub fn new() -> (r: AreaData)
        ensures
            r@ == blank(seq![]),
    {
        AreaData {
            station: String::new(),
            name: String::new(),
            microsieverts: None,
            max_temp: None,
            min_temp: None,
            readings_max_temp: None,
            readings_min_temp: None,
            readings_min_grass_temp: None,
            readings_max_rh: None,
            readings_min_rh: None,
            readings_rainfall: None,
            readings_average_rainfall: None,
            readings_accumulated_rainfall: None,
            readings_max_uv_index: None,
            readings_mean_uv_index: None,
            readings_sunshine: None,
        }
    }

    /// The data of a station of which only the key is known.
    pub fn of_station(station: String) -> (r: AreaData)
        ensures
            r@ == blank(station@),
    {
        AreaData {
            station,
            name: String::new(),
            microsieverts: None,
            max_temp: None,
            min_temp: None,
            readings_max_temp: None,
            readings_min_temp: None,
            readings_min_grass_temp: None,
            readings_max_rh: None,
            readings_min_rh: None,
            readings_rainfall: None,
            readings_average_rainfall: None,
            readings_accumulated_rainfall: None,
            readings_max_uv_index: None,
            readings_mean_uv_index: None,
            readings_sunshine: None,
        }
    }

    /// Notes the value of an attribute.
    pub fn note(&mut self, attribute: Attribute, v: &Json)
        ensures
            final(self)@ == noted(old(self)@, attribute, *v),
    {
        match attribute {
            Attribute::LocationName => match v {
                Json::Text(t) => {
                    self.name = t.clone();
                },
                _ => {},
            },
            Attribute::Microsieverts => {
                self.microsieverts = read_number(v);
            },
            Attribute::ReadingsMaxTemp => {
                self.readings_max_temp = read_number(v);
            },
            Attribute::ReadingsMinTemp => {
                self.readings_min_temp = read_number(v);
            },
            Attribute::ReadingsMinGrassTemp => {
                self.readings_min_grass_temp = read_number(v);
            },
            Attribute::ReadingsMaxRH => {
                self.readings_max_rh = read_number(v);
            },
            Attribute::ReadingsMinRH => {
                self.readings_min_rh = read_number(v);
            },
            Attribute::ReadingsRainfall => {
                self.readings_rainfall = read_number(v);
            },
            Attribute::ReadingsAvgRainfall => {
                self.readings_average_rainfall = read_number(v);
            },
            Attribute::ReadingsAccumRainfall => {
                self.readings_accumulated_rainfall = read_number(v);
            },
            Attribute::ReadingsMaxUVIndex => {
                self.readings_max_uv_index = read_number(v);
            },
            Attribute::ReadingsMeanUVIndex => {
                self.readings_mean_uv_index = read_number(v);
            },
            Attribute::ReadingsSunShine => {
                self.readings_sunshine = read_number(v);
            },
            Attribute::MaxTemp => {
                self.max_temp = read_number(v);
            },
            Attribute::MinTemp => {
                self.min_temp = read_number(v);
            },
        }
    }
}

impl Default for AreaData {
    fn default() -> (r: AreaData)
        ensures
            r@ == blank(seq![]),
    {
        AreaData::new()
    }
}

fn read_number(v: &Json) -> (r: Option<String>)
    ensures
        reading_view(r) == reading_of(*v),
{
    match v {
        Json::Text(t) => if is_float(t.as_str()) {
            Some(t.clone())
        } else {
            None
        },
        _ => None,
    }
}

/// What a list of station data holds.
pub open spec fn areas(list: Seq<AreaData>) -> Seq<Area> {
    Seq::new(list.len(), |i: int| list[i]@)
}

/// The place of the first station, at or after `from`, with the given key;
/// the length of the list or more where there is none.
pub open spec fn place_of(list: Seq<Area>, station: Seq<char>, from: int) -> int
    decreases list.len() - from,
{
    if 0 <= from < list.len() && list[from].station != station {
        place_of(list, station, from + 1)
    } else {
        from
    }
}

/// The list once the value of an attribute of a station is noted: in the
/// data of the station where the list has it, else in new data at the end.
pub open spec fn merged(list: Seq<Area>, station: Seq<char>, attribute: Attribute, v: Json) -> Seq<
    Area,
> {
    let i = place_of(list, station, 0);
    if i < list.len() {
        list.update(i, noted(list[i], attribute, v))
    } else {
        list.push(noted(blank(station), attribute, v))
    }
}

/// The station data that the first `n` members of a report give. A member
/// whose key names no attribute is passed over.
pub open spec fn unpacked(entries: Seq<(String, Json)>, n: int) -> Seq<Area>
    decreases n,
{
    if n <= 0 || n > entries.len() {
        seq![]
    } else {
        let before = unpacked(entries, n - 1);
        match attribute_of(entries[n - 1].0@) {
            Some((station, attribute)) => merged(before, station, attribute, entries[n - 1].1),
            None => before,
        }
    }
}

fn merge(list: &mut Vec<AreaData>, station: String, attribute: Attribute, v: &Json)
    ensures
        areas(final(list)@) == merged(areas(old(list)@), station@, attribute, *v),
{
    let ghost before = areas(list@);
    let mut i: usize = 0;
    while i < list.len() && !same_text(list[i].station.as_str(), station.as_str())
        invariant
            i <= list.len(),
            before == areas(list@),
            place_of(before, station@, i as int) == place_of(before, station@, 0),
        decreases list.len() - i,
    {
        assert(before[i as int].station == list@[i as int].station@);
        i = i + 1;
    }
    if i < list.len() {
        assert(before[i as int].station == list@[i as int].station@);
        let mut area: AreaData = list.remove(i);
        area.note(attribute, v);
        list.insert(i, area);
        assert(areas(list@) =~= before.update(i as int, noted(before[i as int], attribute, *v)));
    } else {
        let mut area: AreaData = AreaData::of_station(station);
        area.note(attribute, v);
        list.push(area);
        assert(areas(list@) =~= before.push(noted(blank(station@), attribute, *v)));
    }
}

/// Groups the members of a report by station. No station occurs twice in
/// the result.
pub fn unpack(entries: &Vec<(String, Json)>) -> (r: Vec<AreaData>)
    ensures
        areas(r@) == unpacked(entries@, entries@.len() as int),
        distinct_stations(areas(r@)),
{
    proof {
        lemma_unpacked_distinct(entries@, entries@.len() as int);
    }
    let mut list: Vec<AreaData> = Vec::new();
    let mut n: usize = 0;
    assert(areas(list@) =~= seq![]);
    while n < entries.len()
        invariant
            n <= entries.len(),
            areas(list@) == unpacked(entries@, n as int),
        decreases entries.len() - n,
    {
        match match_attribute(entries[n].0.as_str()) {
            Some((station, attribute)) => {
                merge(&mut list, station, attribute, &entries[n].1);
            },
            None => {},
        }
        n = n + 1;
    }
    list
}

/// Main response type.
#[derive(Clone, Debug)]
pub struct Response {
    /// Description of the average ambient gamma radiation dose rate taken
    /// outdoors in Hong Kong
    pub hong_kong_desc: String,
    /// Notes
    pub note_desc: Vec<String>,
    /// Information date
    pub report_time_info_date: Date,
    /// Bulletin date and time
    pub bulletin_date_time: TimePoint,
    /// Area data, each station once, in the order in which the stations
    /// first occur among the members of the report
    pub area_data: Vec<AreaData>,
}

/// What a `Response` holds.
pub struct Report {
    pub hong_kong_desc: Seq<char>,
    pub note_desc: Seq<Seq<char>>,
    pub report_time_info_date: Date,
    pub bulletin_date_time: TimePoint,
    pub area_data: Seq<Area>,
}

impl View for Response {
    type V = Report;

    open spec fn view(&self) -> Report {
        Report {
            hong_kong_desc: self.hong_kong_desc@,
            note_desc: crate::json::texts(self.note_desc@),
            report_time_info_date: self.report_time_info_date,
            bulletin_date_time: self.bulletin_date_time,
            area_data: areas(self.area_data@),
        }
    }
}

/// A note, unless it is empty.
pub open spec fn kept(note: Seq<char>) -> Seq<Seq<char>> {
    if note.len() == 0 {
        seq![]
    } else {
        seq![note]
    }
}

/// The members of a document.
pub open spec fn members(doc: Json) -> Seq<(String, Json)> {
    match doc {
        Json::Object(entries) => entries@,
        _ => seq![],
    }
}

/// What a document decodes to: nothing where a description, a note, a date
/// or the time is missing or no text, or where a date or the time cannot be
/// read.
pub open spec fn json_report(doc: Json) -> Option<Report> {
    if text_in(doc, "HongKongDesc"@) is Some && text_in(doc, "NoteDesc"@) is Some && text_in(
        doc,
        "NoteDesc1"@,
    ) is Some && text_in(doc, "NoteDesc2"@) is Some && text_in(doc, "NoteDesc3"@) is Some
        && text_in(doc, "ReportTimeInfoDate"@) is Some && text_in(doc, "BulletinDate"@) is Some
        && text_in(doc, "BulletinTime"@) is Some && date_of(
        text_in(doc, "ReportTimeInfoDate"@)->Some_0,
    ) is Some && minute_of(
        text_in(doc, "BulletinDate"@)->Some_0 + text_in(doc, "BulletinTime"@)->Some_0,
    ) is Some {
        Some(
            Report {
                hong_kong_desc: text_in(doc, "HongKongDesc"@)->Some_0,
                note_desc: kept(text_in(doc, "NoteDesc"@)->Some_0) + kept(
                    text_in(doc, "NoteDesc1"@)->Some_0,
                ) + kept(text_in(doc, "NoteDesc2"@)->Some_0) + kept(
                    text_in(doc, "NoteDesc3"@)->Some_0,
                ),
                report_time_info_date: date_of(text_in(doc, "ReportTimeInfoDate"@)->Some_0)->Some_0,
                bulletin_date_time: minute_of(
                    text_in(doc, "BulletinDate"@)->Some_0 + text_in(doc, "BulletinTime"@)->Some_0,
                )->Some_0,
                area_data: unpacked(members(doc), members(doc).len() as int),
            },
        )
    } else {
        None
    }
}

/// What a response body decodes to.
pub open spec fn body_report(s: Seq<char>) -> Option<Report> {
    match json_document(s) {
        Some(doc) => json_report(doc),
        None => None,
    }
}

fn keep_note(notes: &mut Vec<String>, note: String)
    ensures
        crate::json::texts(final(notes)@) == crate::json::texts(old(notes)@) + kept(note@),
{
    let ghost before = crate::json::texts(notes@);
    if note.as_str().unicode_len() != 0 {
        notes.push(note);
        assert(crate::json::texts(notes@) =~= before + kept(note@));
    } else {
        assert(crate::json::texts(notes@) =~= before + kept(note@));
    }
}

fn missing(key: &str) -> (e: DataError)
    ensures
        e is SourceFormat,
        e->SourceFormat_0@ == "missing or invalid field `"@ + key@ + "`"@,
{
    let mut why: String = String::from_str("missing or invalid field `");
    why.append(key);
    why.append("`");
    DataError::SourceFormat(why)
}

/// The address of a request.
pub open spec fn url_text(date: Date, lang: Option<Lang>, station: Option<WeatherStation>) -> Seq<
    char,
> {
    base_text() + "RYES"@ + "&date="@ + crate::time::compact_date_text(date) + (match lang {
        Some(l) => "&lang="@ + l.code_text(),
        None => seq![],
    }) + (match station {
        Some(s) => "&station="@ + s.code_text(),
        None => seq![],
    })
}

/// Builds the address of a request for the report of a day of the
/// calendar.
pub fn url(date: Date, lang: Option<Lang>, station: Option<WeatherStation>) -> (r: String)
    requires
        date.wf(),
    ensures
        r@ == url_text(date, lang, station),
{
    let mut s: String = base_url("RYES");
    s.append("&date=");
    let day: String = crate::time::compact_date(date);
    s.append(day.as_str());
    let ghost stem = s@;
    match lang {
        Some(l) => {
            s.append("&lang=");
            s.append(l.code());
        },
        None => {},
    }
    let ghost middle = s@;
    assert(middle =~= stem + (match lang {
        Some(l) => "&lang="@ + l.code_text(),
        None => seq![],
    }));
    match station {
        Some(w) => {
            s.append("&station=");
            s.append(w.code());
        },
        None => {},
    }
    assert(s@ =~= middle + (match station {
        Some(w) => "&station="@ + w.code_text(),
        None => seq![],
    }));
    s
}

impl Response {
    /// Decodes a JSON document.
    pub fn from_json(doc: &Json) -> (r: Result<Response, DataError>)
        ensures
            r is Ok <==> json_report(*doc) is Some,
            r is Ok ==> r->Ok_0@ == json_report(*doc)->Some_0,
            r is Ok ==> r->Ok_0.report_time_info_date.wf() && r->Ok_0.bulletin_date_time.wf(),
            r is Ok ==> distinct_stations(areas(r->Ok_0.area_data@)),
            r is Err ==> r->Err_0 is SourceFormat,
    {
        let hong_kong_desc: String = match text_member(doc, "HongKongDesc") {
            Some(t) => t,
            None => {
                return Err(missing("HongKongDesc"));
            },
        };
        let note0: String = match text_member(doc, "NoteDesc") {
            Some(t) => t,
            None => {
                return Err(missing("NoteDesc"));
            },
        };
        let note1: String = match text_member(doc, "NoteDesc1") {
            Some(t) => t,
            None => {
                return Err(missing("NoteDesc1"));
            },
        };
        let note2: String = match text_member(doc, "NoteDesc2") {
            Some(t) => t,
            None => {
                return Err(missing("NoteDesc2"));
            },
        };
        let note3: String = match text_member(doc, "NoteDesc3") {
            Some(t) => t,
            None => {
                return Err(missing("NoteDesc3"));
            },
        };
        let report_date: String = match text_member(doc, "ReportTimeInfoDate") {
            Some(t) => t,
            None => {
                return Err(missing("ReportTimeInfoDate"));
            },
        };
        let bulletin_date: String = match text_member(doc, "BulletinDate") {
            Some(t) => t,
            None => {
                return Err(missing("BulletinDate"));
            },
        };
        let bulletin_time: String = match text_member(doc, "BulletinTime") {
            Some(t) => t,
            None => {
                return Err(missing("BulletinTime"));
            },
        };
        let report_time_info_date: Date = match decode_date(report_date.as_str()) {
            Some(d) => d,
            None => {
                return Err(missing("ReportTimeInfoDate"));
            },
        };
        let stamp: String = bulletin_date.concat(bulletin_time.as_str());
        let bulletin_date_time: TimePoint = match decode_minute(stamp.as_str()) {
            Some(t) => t,
            None => {
                return Err(DataError::SourceFormat(String::from_str("Invalid time")));
            },
        };
        let mut note_desc: Vec<String> = Vec::new();
        assert(crate::json::texts(note_desc@) =~= seq![]);
        keep_note(&mut note_desc, note0);
        keep_note(&mut note_desc, note1);
        keep_note(&mut note_desc, note2);
        keep_note(&mut note_desc, note3);
        let area_data: Vec<AreaData> = match doc {
            Json::Object(entries) => unpack(entries),
            _ => {
                let none: Vec<AreaData> = Vec::new();
                assert(areas(none@) =~= seq![]);
                none
            },
        };
        Ok(
            Response {
                hong_kong_desc,
                note_desc,
                report_time_info_date,
                bulletin_date_time,
                area_data,
            },
        )
    }

    /// Decodes a response body.
    pub fn from_str(s: &str) -> (r: Result<Response, DataError>)
        ensures
            r is Ok <==> body_report(s@) is Some,
            r is Ok ==> r->Ok_0@ == body_report(s@)->Some_0,
            r is Ok ==> distinct_stations(areas(r->Ok_0.area_data@)),
            r is Err ==> r->Err_0 is SourceFormat,
    {
        match crate::json::parse(s) {
            Ok(doc) => Response::from_json(&doc),
            Err(e) => Err(e),
        }
    }
}


/// The first attribute from a place of the order on, where there is one,
/// has a name that ends the key.
pub proof fn lemma_first_match_ends_key(key: Seq<char>, i: int)
    requires
        0 <= i,
    ensures
        first_match(key, i) is Some ==> ends_with(key, first_match(key, i)->Some_0.suffix_text()),
    decreases ATTRIBUTE_COUNT - i,
{
    if i < ATTRIBUTE_COUNT && !ends_with(key, Attribute::at_spec(i).suffix_text()) {
        lemma_first_match_ends_key(key, i + 1);
    }
}

/// A key that names an attribute is the station followed by the name of the
/// attribute.
pub proof fn lemma_key_is_station_and_attribute(key: Seq<char>)
    requires
        attribute_of(key) is Some,
    ensures
        attribute_of(key)->Some_0.0 + attribute_of(key)->Some_0.1.suffix_text() == key,
{
    lemma_first_match_ends_key(key, 0);
    let a = first_match(key, 0)->Some_0;
    let n = key.len() - a.suffix_text().len();
    assert(key.subrange(0, n) + key.subrange(n, key.len() as int) =~= key);
}

/// A key that ends in `ReadingsMaxTemp` names the reading of the maximum
/// temperature of the station that stands before that name, and never the
/// attribute `MaxTemp` of a station whose key would end in `Readings`.
pub proof fn lemma_readings_max_temp_first(station: Seq<char>)
    ensures
        attribute_of(station + "ReadingsMaxTemp"@) == Some(
            (station, Attribute::ReadingsMaxTemp),
        ),
{
    reveal_strlit("ReadingsMaxTemp");
    reveal_strlit("LocationName");
    reveal_strlit("Microsieverts");
    let key = station + "ReadingsMaxTemp"@;
    let n = key.len() as int;
    assert(key[n - 1] == 'p');
    assert(!ends_with(key, "LocationName"@)) by {
        if ends_with(key, "LocationName"@) {
            assert(key.subrange(n - 12, n)[11] == key[n - 1]);
        }
    }
    assert(!ends_with(key, "Microsieverts"@)) by {
        if ends_with(key, "Microsieverts"@) {
            assert(key.subrange(n - 13, n)[12] == key[n - 1]);
        }
    }
    assert(key.subrange(n - 15, n) =~= "ReadingsMaxTemp"@);
    assert(key.subrange(0, n - 15) =~= station);
    assert(first_match(key, 2) == Some(Attribute::ReadingsMaxTemp));
    assert(first_match(key, 1) == first_match(key, 2));
    assert(first_match(key, 0) == first_match(key, 1));
}

/// A key that ends in `ReadingsMinTemp` names the reading of the minimum
/// temperature of the station that stands before that name, and never the
/// attribute `MinTemp` of a station whose key would end in `Readings`.
pub proof fn lemma_readings_min_temp_first(station: Seq<char>)
    ensures
        attribute_of(station + "ReadingsMinTemp"@) == Some(
            (station, Attribute::ReadingsMinTemp),
        ),
{
    reveal_strlit("ReadingsMinTemp");
    reveal_strlit("ReadingsMaxTemp");
    reveal_strlit("LocationName");
    reveal_strlit("Microsieverts");
    let key = station + "ReadingsMinTemp"@;
    let n = key.len() as int;
    assert(key[n - 1] == 'p');
    assert(key[n - 6] == 'i');
    assert(!ends_with(key, "LocationName"@)) by {
        if ends_with(key, "LocationName"@) {
            assert(key.subrange(n - 12, n)[11] == key[n - 1]);
        }
    }
    assert(!ends_with(key, "Microsieverts"@)) by {
        if ends_with(key, "Microsieverts"@) {
            assert(key.subrange(n - 13, n)[12] == key[n - 1]);
        }
    }
    assert(!ends_with(key, "ReadingsMaxTemp"@)) by {
        if ends_with(key, "ReadingsMaxTemp"@) {
            assert(key.subrange(n - 15, n)[9] == key[n - 6]);
        }
    }
    assert(key.subrange(n - 15, n) =~= "ReadingsMinTemp"@);
    assert(key.subrange(0, n - 15) =~= station);
    assert(first_match(key, 3) == Some(Attribute::ReadingsMinTemp));
    assert(first_match(key, 2) == first_match(key, 3));
    assert(first_match(key, 1) == first_match(key, 2));
    assert(first_match(key, 0) == first_match(key, 1));
}

/// The value of a key that ends in `ReadingsMaxTemp` is noted as the reading
/// of the maximum temperature of its station, and the attribute `MaxTemp` of
/// that station stays as it was.
pub proof fn lemma_readings_max_temp_noted(list: Seq<Area>, station: Seq<char>, v: Json)
    ensures
        ({
            let after = merged(list, station, Attribute::ReadingsMaxTemp, v);
            let i = place_of(list, station, 0);
            &&& 0 <= i < after.len()
            &&& after[i].station == station
            &&& after[i].readings_max_temp == reading_of(v)
            &&& after[i].max_temp == (if i < list.len() {
                list[i].max_temp
            } else {
                None
            })
        }),
{
    lemma_place_of(list, station, 0);
}

/// The place of a station is within the list or at its end, and within the
/// list the station there has the key that was asked for.
pub proof fn lemma_place_of(list: Seq<Area>, station: Seq<char>, from: int)
    requires
        0 <= from <= list.len(),
    ensures
        from <= place_of(list, station, from) <= list.len(),
        place_of(list, station, from) < list.len() ==> list[place_of(
            list,
            station,
            from,
        )].station == station,
    decreases list.len() - from,
{
    if from < list.len() && list[from].station != station {
        lemma_place_of(list, station, from + 1);
    }
}

/// Whether no two stations of a list have the same key.
pub open spec fn distinct_stations(list: Seq<Area>) -> bool {
    forall|i: int, j: int|
        0 <= i < j < list.len() ==> (#[trigger] list[i]).station != (#[trigger] list[j]).station
}

/// Where the place of a station is the end of the list, no station from
/// `from` on has its key.
pub proof fn lemma_no_place(list: Seq<Area>, station: Seq<char>, from: int)
    requires
        0 <= from <= list.len(),
        place_of(list, station, from) >= list.len(),
    ensures
        forall|k: int| from <= k < list.len() ==> (#[trigger] list[k]).station != station,
    decreases list.len() - from,
{
    if from < list.len() {
        lemma_no_place(list, station, from + 1);
    }
}

/// Noting the value of an attribute of a station keeps the stations of a
/// list distinct.
pub proof fn lemma_merged_distinct(
    list: Seq<Area>,
    station: Seq<char>,
    attribute: Attribute,
    v: Json,
)
    requires
        distinct_stations(list),
    ensures
        distinct_stations(merged(list, station, attribute, v)),
{
    let i = place_of(list, station, 0);
    let after = merged(list, station, attribute, v);
    lemma_place_of(list, station, 0);
    if i < list.len() {
        assert(noted(list[i], attribute, v).station == list[i].station);
        assert forall|a: int, b: int| 0 <= a < b < after.len() implies (#[trigger] after[a]).station
            != (#[trigger] after[b]).station by {
            assert(after[a].station == list[a].station);
            assert(after[b].station == list[b].station);
        }
    } else {
        lemma_no_place(list, station, 0);
        assert(noted(blank(station), attribute, v).station == station);
        assert forall|a: int, b: int| 0 <= a < b < after.len() implies (#[trigger] after[a]).station
            != (#[trigger] after[b]).station by {
            assert(after[a] == list[a]);
            if b < list.len() {
                assert(after[b] == list[b]);
            }
        }
    }
}

/// No station occurs twice among the station data that the members of a
/// report give.
pub proof fn lemma_unpacked_distinct(entries: Seq<(String, Json)>, n: int)
    ensures
        distinct_stations(unpacked(entries, n)),
    decreases n,
{
    if 0 < n <= entries.len() {
        lemma_unpacked_distinct(entries, n - 1);
        match attribute_of(entries[n - 1].0@) {
            Some((station, attribute)) => {
                lemma_merged_distinct(
                    unpacked(entries, n - 1),
                    station,
                    attribute,
                    entries[n - 1].1,
                );
            },
            None => {},
        }
    }
}

} // verus!
