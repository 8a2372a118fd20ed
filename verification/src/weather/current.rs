//! Current weather report.

use crate::common::message_texts;
use crate::common::Message;
use crate::error::DataError;
use crate::fetch::API;
use crate::fields::flag_in;
use crate::fields::flag_member;
use crate::fields::message_in;
use crate::fields::message_member;
use crate::fields::message_view;
use crate::fields::number_in;
use crate::fields::number_member;
use crate::fields::optional_message_in;
use crate::fields::optional_message_member;
use crate::fields::optional_number_in;
use crate::fields::optional_number_member;
use crate::fields::optional_text_in;
use crate::fields::optional_text_member;
use crate::fields::present;
use crate::fields::present_member;
use crate::fields::statuses_in;
use crate::fields::statuses_member;
use crate::fields::text_view;
use crate::fields::time_in;
use crate::fields::time_member;
use crate::json::json_document;
use crate::json::text_in;
use crate::json::text_member;
use crate::json::Json;
use crate::time::TimePoint;
use crate::weather::name::Name;
use crate::common::place_val_unit_list_in;
use crate::common::place_val_unit_list_member;
use crate::common::place_val_unit_views;
use crate::common::PlaceValUnit;
use crate::common::PlaceValUnitView;
use vstd::prelude::*;

verus! {

/// Whether lightning occurs in a place.
#[derive(Clone, Debug)]
pub struct LightningData {
    pub place: String,
    pub occur: bool,
}

/// What a `LightningData` holds.
pub struct LightningDataView {
    pub place: Seq<char>,
    pub occur: bool,
}

impl View for LightningData {
    type V = LightningDataView;

    open spec fn view(&self) -> LightningDataView {
        LightningDataView {
            place: self.place@,
            occur: self.occur,
        }
    }
}

/// What a value holds as a lightning record: nothing where a member is missing or
/// cannot be read as its field.
pub open spec fn lightning_data_of(j: Json) -> Option<LightningDataView> {
    if text_in(j, "place"@) is Some
        && flag_in(j, "occur"@) is Some {
        Some(
            LightningDataView {
                place: text_in(j, "place"@)->Some_0,
                occur: flag_in(j, "occur"@)->Some_0,
            },
        )
    } else {
        None
    }
}

impl LightningData {
    /// Decodes a lightning record.
    pub fn from_json(j: &Json) -> (r: Option<LightningData>)
        ensures
            r is Some <==> lightning_data_of(*j) is Some,
            r is Some ==> r->Some_0@ == lightning_data_of(*j)->Some_0,
    {
        let place: String = match text_member(j, "place") {
            Some(x) => x,
            None => {
                return None;
            },
        };
        let occur: bool = match flag_member(j, "occur") {
            Some(x) => x,
            None => {
                return None;
            },
        };
        Some(LightningData { place, occur })
    }
}

/// What a list of `LightningData` holds.
pub open spec fn lightning_data_views(list: Seq<LightningData>) -> Seq<LightningDataView> {
    Seq::new(list.len(), |i: int| list[i]@)
}

/// What a value holds as a list of `LightningData`, where it is an array of which
/// every item can be read.
pub open spec fn lightning_data_list_of(j: Json) -> Option<Seq<LightningDataView>> {
    match j {
        Json::Array(list) => if forall|i: int|
            0 <= i < list@.len() ==> lightning_data_of(#[trigger] list@[i]) is Some {
            Some(Seq::new(list@.len(), |i: int| lightning_data_of(list@[i])->Some_0))
        } else {
            None
        },
        _ => None,
    }
}

/// Decodes a list of `LightningData`.
pub fn lightning_data_list(j: &Json) -> (r: Option<Vec<LightningData>>)
    ensures
        r is Some <==> lightning_data_list_of(*j) is Some,
        r is Some ==> lightning_data_views(r->Some_0@) == lightning_data_list_of(*j)->Some_0,
{
    match j {
        Json::Array(list) => {
            let mut out: Vec<LightningData> = Vec::new();
            let mut i: usize = 0;
            while i < list.len()
                invariant
                    i <= list.len(),
                    out.len() == i,
                    *j matches Json::Array(l) && l == *list,
                    forall|k: int| 0 <= k < i ==> lightning_data_of(#[trigger] list@[k]) is Some,
                    forall|k: int|
                        0 <= k < i ==> (#[trigger] out@[k])@ == lightning_data_of(list@[k])->Some_0,
                decreases list.len() - i,
            {
                match LightningData::from_json(&list[i]) {
                    Some(x) => {
                        out.push(x);
                    },
                    None => {
                        assert(lightning_data_of(list@[i as int]) is None);
                        return None;
                    },
                }
                i = i + 1;
            }
            assert(lightning_data_views(out@) =~= lightning_data_list_of(*j)->Some_0);
            Some(out)
        },
        _ => None,
    }
}

/// What the member under a key holds as a list of `LightningData`.
pub open spec fn lightning_data_list_in(doc: Json, key: Seq<char>) -> Option<Seq<LightningDataView>> {
    match doc.member_spec(key) {
        Some(j) => lightning_data_list_of(j),
        None => None,
    }
}

/// Decodes the member under a key as a list of `LightningData`.
pub fn lightning_data_list_member(doc: &Json, key: &str) -> (r: Option<Vec<LightningData>>)
    ensures
        r is Some <==> lightning_data_list_in(*doc, key@) is Some,
        r is Some ==> lightning_data_views(r->Some_0@) == lightning_data_list_in(*doc, key@)->Some_0,
{
    match doc.member(key) {
        Some(j) => lightning_data_list(j),
        None => None,
    }
}

/// Lightning records between two times.
#[derive(Clone, Debug)]
pub struct Lightning {
    pub data: Vec<LightningData>,
    pub start_time: TimePoint,
    pub end_time: TimePoint,
}

/// What a `Lightning` holds.
pub struct LightningView {
    pub data: Seq<LightningDataView>,
    pub start_time: TimePoint,
    pub end_time: TimePoint,
}

impl View for Lightning {
    type V = LightningView;

    open spec fn view(&self) -> LightningView {
        LightningView {
            data: lightning_data_views(self.data@),
            start_time: self.start_time,
            end_time: self.end_time,
        }
    }
}

/// What a value holds as the lightning records: nothing where a member is missing or
/// cannot be read as its field.
pub open spec fn lightning_of(j: Json) -> Option<LightningView> {
    if lightning_data_list_in(j, "data"@) is Some
        && time_in(j, "startTime"@) is Some
        && time_in(j, "endTime"@) is Some {
        Some(
            LightningView {
                data: lightning_data_list_in(j, "data"@)->Some_0,
                start_time: time_in(j, "startTime"@)->Some_0,
                end_time: time_in(j, "endTime"@)->Some_0,
            },
        )
    } else {
        None
    }
}

impl Lightning {
    /// Decodes the lightning records.
    pub fn from_json(j: &Json) -> (r: Option<Lightning>)
        ensures
            r is Some <==> lightning_of(*j) is Some,
            r is Some ==> r->Some_0@ == lightning_of(*j)->Some_0,
    {
        let data: Vec<LightningData> = match lightning_data_list_member(j, "data") {
            Some(x) => x,
            None => {
                return None;
            },
        };
        let start_time: TimePoint = match time_member(j, "startTime") {
            Some(x) => x,
            None => {
                return None;
            },
        };
        let end_time: TimePoint = match time_member(j, "endTime") {
            Some(x) => x,
            None => {
                return None;
            },
        };
        Some(Lightning { data, start_time, end_time })
    }
}

/// What the lightning records that may be absent holds.
pub open spec fn optional_lightning_view(x: Option<Lightning>) -> Option<LightningView> {
    match x {
        Some(v) => Some(v@),
        None => None,
    }
}

/// What the member under a key holds as the lightning records, where the member may be
/// absent or null.
pub open spec fn optional_lightning_in(doc: Json, key: Seq<char>) -> Option<Option<LightningView>> {
    match present(doc, key) {
        None => Some(None),
        Some(j) => match lightning_of(j) {
            Some(v) => Some(Some(v)),
            None => None,
        },
    }
}

/// Decodes the member under a key, which may be absent or null, as
/// the lightning records.
pub fn optional_lightning_member(doc: &Json, key: &str) -> (r: Option<Option<Lightning>>)
    ensures
        r is Some <==> optional_lightning_in(*doc, key@) is Some,
        r is Some ==> optional_lightning_view(r->Some_0) == optional_lightning_in(*doc, key@)->Some_0,
{
    match present_member(doc, key) {
        None => Some(None),
        Some(j) => match Lightning::from_json(j) {
            Some(v) => Some(Some(v)),
            None => None,
        },
    }
}

/// The largest and the smallest rainfall measured in a place; either may be
/// missing. The amounts are the decimal texts of numbers.
#[derive(Clone, Debug)]
pub struct RainfallData {
    pub place: String,
    pub max: Option<String>,
    pub min: Option<String>,
    pub unit: String,
    /// Maintenance flag
    pub maintenance: bool,
}

/// What a `RainfallData` holds.
pub struct RainfallDataView {
    pub place: Seq<char>,
    pub max: Option<Seq<char>>,
    pub min: Option<Seq<char>>,
    pub unit: Seq<char>,
    pub maintenance: bool,
}

impl View for RainfallData {
    type V = RainfallDataView;

    open spec fn view(&self) -> RainfallDataView {
        RainfallDataView {
            place: self.place@,
            max: text_view(self.max),
            min: text_view(self.min),
            unit: self.unit@,
            maintenance: self.maintenance,
        }
    }
}

/// What a value holds as a rainfall record: nothing where a member is missing or
/// cannot be read as its field.
pub open spec fn rainfall_data_of(j: Json) -> Option<RainfallDataView> {
    if text_in(j, "place"@) is Some
        && optional_number_in(j, "max"@) is Some
        && optional_number_in(j, "min"@) is Some
        && text_in(j, "unit"@) is Some
        && flag_in(j, "main"@) is Some {
        Some(
            RainfallDataView {
                place: text_in(j, "place"@)->Some_0,
                max: optional_number_in(j, "max"@)->Some_0,
                min: optional_number_in(j, "min"@)->Some_0,
                unit: text_in(j, "unit"@)->Some_0,
                maintenance: flag_in(j, "main"@)->Some_0,
            },
        )
    } else {
        None
    }
}

impl RainfallData {
    /// Decodes a rainfall record.
    pub fn from_json(j: &Json) -> (r: Option<RainfallData>)
        ensures
            r is Some <==> rainfall_data_of(*j) is Some,
            r is Some ==> r->Some_0@ == rainfall_data_of(*j)->Some_0,
    {
        let place: String = match text_member(j, "place") {
            Some(x) => x,
            None => {
                return None;
            },
        };
        let max: Option<String> = match optional_number_member(j, "max") {
            Some(x) => x,
            None => {
                return None;
            },
        };
        let min: Option<String> = match optional_number_member(j, "min") {
            Some(x) => x,
            None => {
                return None;
            },
        };
        let unit: String = match text_member(j, "unit") {
            Some(x) => x,
            None => {
                return None;
            },
        };
        let maintenance: bool = match flag_member(j, "main") {
            Some(x) => x,
            None => {
                return None;
            },
        };
        Some(RainfallData { place, max, min, unit, maintenance })
    }
}

/// What a list of `RainfallData` holds.
pub open spec fn rainfall_data_views(list: Seq<RainfallData>) -> Seq<RainfallDataView> {
    Seq::new(list.len(), |i: int| list[i]@)
}

/// What a value holds as a list of `RainfallData`, where it is an array of which
/// every item can be read.
pub open spec fn rainfall_data_list_of(j: Json) -> Option<Seq<RainfallDataView>> {
    match j {
        Json::Array(list) => if forall|i: int|
            0 <= i < list@.len() ==> rainfall_data_of(#[trigger] list@[i]) is Some {
            Some(Seq::new(list@.len(), |i: int| rainfall_data_of(list@[i])->Some_0))
        } else {
            None
        },
        _ => None,
    }
}

/// Decodes a list of `RainfallData`.
pub fn rainfall_data_list(j: &Json) -> (r: Option<Vec<RainfallData>>)
    ensures
        r is Some <==> rainfall_data_list_of(*j) is Some,
        r is Some ==> rainfall_data_views(r->Some_0@) == rainfall_data_list_of(*j)->Some_0,
{
    match j {
        Json::Array(list) => {
            let mut out: Vec<RainfallData> = Vec::new();
            let mut i: usize = 0;
            while i < list.len()
                invariant
                    i <= list.len(),
                    out.len() == i,
                    *j matches Json::Array(l) && l == *list,
                    forall|k: int| 0 <= k < i ==> rainfall_data_of(#[trigger] list@[k]) is Some,
                    forall|k: int|
                        0 <= k < i ==> (#[trigger] out@[k])@ == rainfall_data_of(list@[k])->Some_0,
                decreases list.len() - i,
            {
                match RainfallData::from_json(&list[i]) {
                    Some(x) => {
                        out.push(x);
                    },
                    None => {
                        assert(rainfall_data_of(list@[i as int]) is None);
                        return None;
                    },
                }
                i = i + 1;
            }
            assert(rainfall_data_views(out@) =~= rainfall_data_list_of(*j)->Some_0);
            Some(out)
        },
        _ => None,
    }
}

/// What the member under a key holds as a list of `RainfallData`.
pub open spec fn rainfall_data_list_in(doc: Json, key: Seq<char>) -> Option<Seq<RainfallDataView>> {
    match doc.member_spec(key) {
        Some(j) => rainfall_data_list_of(j),
        None => None,
    }
}

/// Decodes the member under a key as a list of `RainfallData`.
pub fn rainfall_data_list_member(doc: &Json, key: &str) -> (r: Option<Vec<RainfallData>>)
    ensures
        r is Some <==> rainfall_data_list_in(*doc, key@) is Some,
        r is Some ==> rainfall_data_views(r->Some_0@) == rainfall_data_list_in(*doc, key@)->Some_0,
{
    match doc.member(key) {
        Some(j) => rainfall_data_list(j),
        None => None,
    }
}

/// Rainfall records between two times.
#[derive(Clone, Debug)]
pub struct Rainfall {
    pub data: Vec<RainfallData>,
    pub start_time: TimePoint,
    pub end_time: TimePoint,
}

/// What a `Rainfall` holds.
pub struct RainfallView {
    pub data: Seq<RainfallDataView>,
    pub start_time: TimePoint,
    pub end_time: TimePoint,
}

impl View for Rainfall {
    type V = RainfallView;

    open spec fn view(&self) -> RainfallView {
        RainfallView {
            data: rainfall_data_views(self.data@),
            start_time: self.start_time,
            end_time: self.end_time,
        }
    }
}

/// What a value holds as the rainfall records: nothing where a member is missing or
/// cannot be read as its field.
pub open spec fn rainfall_of(j: Json) -> Option<RainfallView> {
    if rainfall_data_list_in(j, "data"@) is Some
        && time_in(j, "startTime"@) is Some
        && time_in(j, "endTime"@) is Some {
        Some(
            RainfallView {
                data: rainfall_data_list_in(j, "data"@)->Some_0,
                start_time: time_in(j, "startTime"@)->Some_0,
                end_time: time_in(j, "endTime"@)->Some_0,
            },
        )
    } else {
        None
    }
}

impl Rainfall {
    /// Decodes the rainfall records.
    pub fn from_json(j: &Json) -> (r: Option<Rainfall>)
        ensures
            r is Some <==> rainfall_of(*j) is Some,
            r is Some ==> r->Some_0@ == rainfall_of(*j)->Some_0,
    {
        let data: Vec<RainfallData> = match rainfall_data_list_member(j, "data") {
            Some(x) => x,
            None => {
                return None;
            },
        };
        let start_time: TimePoint = match time_member(j, "startTime") {
            Some(x) => x,
            None => {
                return None;
            },
        };
        let end_time: TimePoint = match time_member(j, "endTime") {
            Some(x) => x,
            None => {
                return None;
            },
        };
        Some(Rainfall { data, start_time, end_time })
    }
}

/// What the member under a key holds as the rainfall records.
pub open spec fn rainfall_in(doc: Json, key: Seq<char>) -> Option<RainfallView> {
    match doc.member_spec(key) {
        Some(j) => rainfall_of(j),
        None => None,
    }
}

/// Decodes the member under a key as the rainfall records.
pub fn rainfall_member(doc: &Json, key: &str) -> (r: Option<Rainfall>)
    ensures
        r is Some <==> rainfall_in(*doc, key@) is Some,
        r is Some ==> r->Some_0@ == rainfall_in(*doc, key@)->Some_0,
{
    match doc.member(key) {
        Some(j) => Rainfall::from_json(j),
        None => None,
    }
}

/// A list of weather icons with the time of their update.
#[derive(Clone, Debug)]
pub struct Icon {
    pub icon: Vec<Name>,
    pub update_time: TimePoint,
}

/// What a `Icon` holds.
pub struct IconView {
    pub icon: Seq<Name>,
    pub update_time: TimePoint,
}

impl View for Icon {
    type V = IconView;

    open spec fn view(&self) -> IconView {
        IconView {
            icon: self.icon@,
            update_time: self.update_time,
        }
    }
}

/// What a value holds as the weather icons: nothing where a member is missing or
/// cannot be read as its field.
pub open spec fn icon_of(j: Json) -> Option<IconView> {
    if statuses_in(j, "icon"@) is Some
        && time_in(j, "iconUpdateTime"@) is Some {
        Some(
            IconView {
                icon: statuses_in(j, "icon"@)->Some_0,
                update_time: time_in(j, "iconUpdateTime"@)->Some_0,
            },
        )
    } else {
        None
    }
}

impl Icon {
    /// Decodes the weather icons.
    pub fn from_json(j: &Json) -> (r: Option<Icon>)
        ensures
            r is Some <==> icon_of(*j) is Some,
            r is Some ==> r->Some_0@ == icon_of(*j)->Some_0,
    {
        let icon: Vec<Name> = match statuses_member(j, "icon") {
            Some(x) => x,
            None => {
                return None;
            },
        };
        let update_time: TimePoint = match time_member(j, "iconUpdateTime") {
            Some(x) => x,
            None => {
                return None;
            },
        };
        Some(Icon { icon, update_time })
    }
}

/// The UV index observed in a place, with a description and, where there
/// is one, a message. The value is the decimal text of a number.
#[derive(Clone, Debug)]
pub struct UVIndexData {
    pub place: String,
    pub value: String,
    pub desc: String,
    pub message: Option<String>,
}

/// What a `UVIndexData` holds.
pub struct UVIndexDataView {
    pub place: Seq<char>,
    pub value: Seq<char>,
    pub desc: Seq<char>,
    pub message: Option<Seq<char>>,
}

impl View for UVIndexData {
    type V = UVIndexDataView;

    open spec fn view(&self) -> UVIndexDataView {
        UVIndexDataView {
            place: self.place@,
            value: self.value@,
            desc: self.desc@,
            message: text_view(self.message),
        }
    }
}

/// What a value holds as a UV index record: nothing where a member is missing or
/// cannot be read as its field.
pub open spec fn uv_index_data_of(j: Json) -> Option<UVIndexDataView> {
    if text_in(j, "place"@) is Some
        && number_in(j, "value"@) is Some
        && text_in(j, "desc"@) is Some
        && optional_text_in(j, "message"@) is Some {
        Some(
            UVIndexDataView {
                place: text_in(j, "place"@)->Some_0,
                value: number_in(j, "value"@)->Some_0,
                desc: text_in(j, "desc"@)->Some_0,
                message: optional_text_in(j, "message"@)->Some_0,
            },
        )
    } else {
        None
    }
}

impl UVIndexData {
    /// Decodes a UV index record.
    pub fn from_json(j: &Json) -> (r: Option<UVIndexData>)
        ensures
            r is Some <==> uv_index_data_of(*j) is Some,
            r is Some ==> r->Some_0@ == uv_index_data_of(*j)->Some_0,
    {
        let place: String = match text_member(j, "place") {
            Some(x) => x,
            None => {
                return None;
            },
        };
        let value: String = match number_member(j, "value") {
            Some(x) => x,
            None => {
                return None;
            },
        };
        let desc: String = match text_member(j, "desc") {
            Some(x) => x,
            None => {
                return None;
            },
        };
        let message: Option<String> = match optional_text_member(j, "message") {
            Some(x) => x,
            None => {
                return None;
            },
        };
        Some(UVIndexData { place, value, desc, message })
    }
}

/// What a list of `UVIndexData` holds.
pub open spec fn uv_index_data_views(list: Seq<UVIndexData>) -> Seq<UVIndexDataView> {
    Seq::new(list.len(), |i: int| list[i]@)
}

/// What a value holds as a list of `UVIndexData`, where it is an array of which
/// every item can be read.
pub open spec fn uv_index_data_list_of(j: Json) -> Option<Seq<UVIndexDataView>> {
    match j {
        Json::Array(list) => if forall|i: int|
            0 <= i < list@.len() ==> uv_index_data_of(#[trigger] list@[i]) is Some {
            Some(Seq::new(list@.len(), |i: int| uv_index_data_of(list@[i])->Some_0))
        } else {
            None
        },
        _ => None,
    }
}

/// Decodes a list of `UVIndexData`.
pub fn uv_index_data_list(j: &Json) -> (r: Option<Vec<UVIndexData>>)
    ensures
        r is Some <==> uv_index_data_list_of(*j) is Some,
        r is Some ==> uv_index_data_views(r->Some_0@) == uv_index_data_list_of(*j)->Some_0,
{
    match j {
        Json::Array(list) => {
            let mut out: Vec<UVIndexData> = Vec::new();
            let mut i: usize = 0;
            while i < list.len()
                invariant
                    i <= list.len(),
                    out.len() == i,
                    *j matches Json::Array(l) && l == *list,
                    forall|k: int| 0 <= k < i ==> uv_index_data_of(#[trigger] list@[k]) is Some,
                    forall|k: int|
                        0 <= k < i ==> (#[trigger] out@[k])@ == uv_index_data_of(list@[k])->Some_0,
                decreases list.len() - i,
            {
                match UVIndexData::from_json(&list[i]) {
                    Some(x) => {
                        out.push(x);
                    },
                    None => {
                        assert(uv_index_data_of(list@[i as int]) is None);
                        return None;
                    },
                }
                i = i + 1;
            }
            assert(uv_index_data_views(out@) =~= uv_index_data_list_of(*j)->Some_0);
            Some(out)
        },
        _ => None,
    }
}

/// What the member under a key holds as a list of `UVIndexData`.
pub open spec fn uv_index_data_list_in(doc: Json, key: Seq<char>) -> Option<Seq<UVIndexDataView>> {
    match doc.member_spec(key) {
        Some(j) => uv_index_data_list_of(j),
        None => None,
    }
}

/// Decodes the member under a key as a list of `UVIndexData`.
pub fn uv_index_data_list_member(doc: &Json, key: &str) -> (r: Option<Vec<UVIndexData>>)
    ensures
        r is Some <==> uv_index_data_list_in(*doc, key@) is Some,
        r is Some ==> uv_index_data_views(r->Some_0@) == uv_index_data_list_in(*doc, key@)->Some_0,
{
    match doc.member(key) {
        Some(j) => uv_index_data_list(j),
        None => None,
    }
}

/// UV index records with the description of their time.
#[derive(Clone, Debug)]
pub struct UVIndex {
    pub data: Vec<UVIndexData>,
    pub record_desc: String,
}

/// What a `UVIndex` holds.
pub struct UVIndexView {
    pub data: Seq<UVIndexDataView>,
    pub record_desc: Seq<char>,
}

impl View for UVIndex {
    type V = UVIndexView;

    open spec fn view(&self) -> UVIndexView {
        UVIndexView {
            data: uv_index_data_views(self.data@),
            record_desc: self.record_desc@,
        }
    }
}

/// What a value holds as the UV index records: nothing where a member is missing or
/// cannot be read as its field.
pub open spec fn uv_index_of(j: Json) -> Option<UVIndexView> {
    if uv_index_data_list_in(j, "data"@) is Some
        && text_in(j, "recordDesc"@) is Some {
        Some(
            UVIndexView {
                data: uv_index_data_list_in(j, "data"@)->Some_0,
                record_desc: text_in(j, "recordDesc"@)->Some_0,
            },
        )
    } else {
        None
    }
}

impl UVIndex {
    /// Decodes the UV index records.
    pub fn from_json(j: &Json) -> (r: Option<UVIndex>)
        ensures
            r is Some <==> uv_index_of(*j) is Some,
            r is Some ==> r->Some_0@ == uv_index_of(*j)->Some_0,
    {
        let data: Vec<UVIndexData> = match uv_index_data_list_member(j, "data") {
            Some(x) => x,
            None => {
                return None;
            },
        };
        let record_desc: String = match text_member(j, "recordDesc") {
            Some(x) => x,
            None => {
                return None;
            },
        };
        Some(UVIndex { data, record_desc })
    }
}

/// The UV index, or an empty text where none applies.
#[derive(Clone, Debug)]
pub enum UVIndexOrEmpty {
    UVIndex(UVIndex),
    Empty(String),
}

/// What a `UVIndexOrEmpty` holds.
pub enum UVIndexOrEmptyView {
    UVIndex(UVIndexView),
    Empty(Seq<char>),
}

impl View for UVIndexOrEmpty {
    type V = UVIndexOrEmptyView;

    open spec fn view(&self) -> UVIndexOrEmptyView {
        match *self {
            UVIndexOrEmpty::UVIndex(u) => UVIndexOrEmptyView::UVIndex(u@),
            UVIndexOrEmpty::Empty(t) => UVIndexOrEmptyView::Empty(t@),
        }
    }
}

/// What a value holds as a UV index: the records where it has them, else
/// its text where it is one.
pub open spec fn uv_index_or_empty_of(j: Json) -> Option<UVIndexOrEmptyView> {
    match uv_index_of(j) {
        Some(u) => Some(UVIndexOrEmptyView::UVIndex(u)),
        None => match j {
            Json::Text(t) => Some(UVIndexOrEmptyView::Empty(t@)),
            _ => None,
        },
    }
}

/// What the member under a key holds as a UV index.
pub open spec fn uv_index_or_empty_in(doc: Json, key: Seq<char>) -> Option<UVIndexOrEmptyView> {
    match doc.member_spec(key) {
        Some(j) => uv_index_or_empty_of(j),
        None => None,
    }
}

impl UVIndexOrEmpty {
    /// Returns true where no UV index applies.
    pub fn is_empty(&self) -> (r: bool)
        ensures
            r == (*self is Empty),
    {
        match self {
            UVIndexOrEmpty::Empty(_) => true,
            UVIndexOrEmpty::UVIndex(_) => false,
        }
    }

    /// The UV index, where one applies.
    pub fn uv_index(self) -> (r: Option<UVIndex>)
        ensures
            r == (match self {
                UVIndexOrEmpty::Empty(_) => None,
                UVIndexOrEmpty::UVIndex(x) => Some(x),
            }),
    {
        match self {
            UVIndexOrEmpty::Empty(_) => None,
            UVIndexOrEmpty::UVIndex(x) => Some(x),
        }
    }

    /// Decodes a UV index or the empty text in its place.
    pub fn from_json(j: &Json) -> (r: Option<UVIndexOrEmpty>)
        ensures
            r is Some <==> uv_index_or_empty_of(*j) is Some,
            r is Some ==> r->Some_0@ == uv_index_or_empty_of(*j)->Some_0,
    {
        match UVIndex::from_json(j) {
            Some(u) => Some(UVIndexOrEmpty::UVIndex(u)),
            None => match j {
                Json::Text(t) => Some(UVIndexOrEmpty::Empty(t.clone())),
                _ => None,
            },
        }
    }
}

/// Decodes the member under a key as a UV index.
pub fn uv_index_or_empty_member(doc: &Json, key: &str) -> (r: Option<UVIndexOrEmpty>)
    ensures
        r is Some <==> uv_index_or_empty_in(*doc, key@) is Some,
        r is Some ==> r->Some_0@ == uv_index_or_empty_in(*doc, key@)->Some_0,
{
    match doc.member(key) {
        Some(j) => UVIndexOrEmpty::from_json(j),
        None => None,
    }
}

/// The temperature observed in places at a time.
#[derive(Clone, Debug)]
pub struct Temperature {
    pub data: Vec<PlaceValUnit>,
    pub record_time: TimePoint,
}

/// What a `Temperature` holds.
pub struct TemperatureView {
    pub data: Seq<PlaceValUnitView>,
    pub record_time: TimePoint,
}

impl View for Temperature {
    type V = TemperatureView;

    open spec fn view(&self) -> TemperatureView {
        TemperatureView {
            data: place_val_unit_views(self.data@),
            record_time: self.record_time,
        }
    }
}

/// What a value holds as the temperatures: nothing where a member is missing or
/// cannot be read as its field.
pub open spec fn temperature_of(j: Json) -> Option<TemperatureView> {
    if place_val_unit_list_in(j, "data"@) is Some
        && time_in(j, "recordTime"@) is Some {
        Some(
            TemperatureView {
                data: place_val_unit_list_in(j, "data"@)->Some_0,
                record_time: time_in(j, "recordTime"@)->Some_0,
            },
        )
    } else {
        None
    }
}

impl Temperature {
    /// Decodes the temperatures.
    pub fn from_json(j: &Json) -> (r: Option<Temperature>)
        ensures
            r is Some <==> temperature_of(*j) is Some,
            r is Some ==> r->Some_0@ == temperature_of(*j)->Some_0,
    {
        let data: Vec<PlaceValUnit> = match place_val_unit_list_member(j, "data") {
            Some(x) => x,
            None => {
                return None;
            },
        };
        let record_time: TimePoint = match time_member(j, "recordTime") {
            Some(x) => x,
            None => {
                return None;
            },
        };
        Some(Temperature { data, record_time })
    }
}

/// What the member under a key holds as the temperatures.
pub open spec fn temperature_in(doc: Json, key: Seq<char>) -> Option<TemperatureView> {
    match doc.member_spec(key) {
        Some(j) => temperature_of(j),
        None => None,
    }
}

/// Decodes the member under a key as the temperatures.
pub fn temperature_member(doc: &Json, key: &str) -> (r: Option<Temperature>)
    ensures
        r is Some <==> temperature_in(*doc, key@) is Some,
        r is Some ==> r->Some_0@ == temperature_in(*doc, key@)->Some_0,
{
    match doc.member(key) {
        Some(j) => Temperature::from_json(j),
        None => None,
    }
}

/// The relative humidity observed in places at a time.
#[derive(Clone, Debug)]
pub struct Humidity {
    pub data: Vec<PlaceValUnit>,
    pub record_time: TimePoint,
}

/// What a `Humidity` holds.
pub struct HumidityView {
    pub data: Seq<PlaceValUnitView>,
    pub record_time: TimePoint,
}

impl View for Humidity {
    type V = HumidityView;

    open spec fn view(&self) -> HumidityView {
        HumidityView {
            data: place_val_unit_views(self.data@),
            record_time: self.record_time,
        }
    }
}

/// What a value holds as the humidities: nothing where a member is missing or
/// cannot be read as its field.
pub open spec fn humidity_of(j: Json) -> Option<HumidityView> {
    if place_val_unit_list_in(j, "data"@) is Some
        && time_in(j, "recordTime"@) is Some {
        Some(
            HumidityView {
                data: place_val_unit_list_in(j, "data"@)->Some_0,
                record_time: time_in(j, "recordTime"@)->Some_0,
            },
        )
    } else {
        None
    }
}

impl Humidity {
    /// Decodes the humidities.
    pub fn from_json(j: &Json) -> (r: Option<Humidity>)
        ensures
            r is Some <==> humidity_of(*j) is Some,
            r is Some ==> r->Some_0@ == humidity_of(*j)->Some_0,
    {
        let data: Vec<PlaceValUnit> = match place_val_unit_list_member(j, "data") {
            Some(x) => x,
            None => {
                return None;
            },
        };
        let record_time: TimePoint = match time_member(j, "recordTime") {
            Some(x) => x,
            None => {
                return None;
            },
        };
        Some(Humidity { data, record_time })
    }
}

/// What the member under a key holds as the humidities.
pub open spec fn humidity_in(doc: Json, key: Seq<char>) -> Option<HumidityView> {
    match doc.member_spec(key) {
        Some(j) => humidity_of(j),
        None => None,
    }
}

/// Decodes the member under a key as the humidities.
pub fn humidity_member(doc: &Json, key: &str) -> (r: Option<Humidity>)
    ensures
        r is Some <==> humidity_in(*doc, key@) is Some,
        r is Some ==> r->Some_0@ == humidity_in(*doc, key@)->Some_0,
{
    match doc.member(key) {
        Some(j) => Humidity::from_json(j),
        None => None,
    }
}

/// Current weather report of Hong Kong.
#[derive(Clone, Debug)]
pub struct Current {
    pub lightning: Option<Lightning>,
    pub rainfall: Rainfall,
    pub icon: Icon,
    pub uv_index: UVIndexOrEmpty,
    pub update_time: TimePoint,
    pub warning_message: Message,
    pub rainstorm_reminder: Option<String>,
    /// Special weather tips
    pub special_tips: Option<Message>,
    /// Message of tropical cyclone position
    pub tcmessage: Option<Message>,
    /// Minimum temperature from midnight to 9 am
    pub mintemp_from00_to09: Option<String>,
    /// Accumulated rainfall at HKO from midnight to noon
    pub rainfall_from00_to12: Option<String>,
    /// Rainfall in last month
    pub rainfall_last_month: Option<String>,
    /// Accumulated rainfall from January to last month
    pub rainfall_january_to_last_month: Option<String>,
    pub temperature: Temperature,
    pub humidity: Humidity,
}

/// What a `Current` holds.
pub struct CurrentView {
    pub lightning: Option<LightningView>,
    pub rainfall: RainfallView,
    pub icon: IconView,
    pub uv_index: UVIndexOrEmptyView,
    pub update_time: TimePoint,
    pub warning_message: Seq<Seq<char>>,
    pub rainstorm_reminder: Option<Seq<char>>,
    pub special_tips: Option<Seq<Seq<char>>>,
    pub tcmessage: Option<Seq<Seq<char>>>,
    pub mintemp_from00_to09: Option<Seq<char>>,
    pub rainfall_from00_to12: Option<Seq<char>>,
    pub rainfall_last_month: Option<Seq<char>>,
    pub rainfall_january_to_last_month: Option<Seq<char>>,
    pub temperature: TemperatureView,
    pub humidity: HumidityView,
}

impl View for Current {
    type V = CurrentView;

    open spec fn view(&self) -> CurrentView {
        CurrentView {
            lightning: optional_lightning_view(self.lightning),
            rainfall: self.rainfall@,
            icon: self.icon@,
            uv_index: self.uv_index@,
            update_time: self.update_time,
            warning_message: message_texts(self.warning_message),
            rainstorm_reminder: text_view(self.rainstorm_reminder),
            special_tips: message_view(self.special_tips),
            tcmessage: message_view(self.tcmessage),
            mintemp_from00_to09: text_view(self.mintemp_from00_to09),
            rainfall_from00_to12: text_view(self.rainfall_from00_to12),
            rainfall_last_month: text_view(self.rainfall_last_month),
            rainfall_january_to_last_month: text_view(self.rainfall_january_to_last_month),
            temperature: self.temperature@,
            humidity: self.humidity@,
        }
    }
}

/// What a value holds as the current weather report: nothing where a member is missing or
/// cannot be read as its field.
pub open spec fn current_of(j: Json) -> Option<CurrentView> {
    if optional_lightning_in(j, "lightning"@) is Some
        && rainfall_in(j, "rainfall"@) is Some
        && icon_of(j) is Some
        && uv_index_or_empty_in(j, "uvindex"@) is Some
        && time_in(j, "updateTime"@) is Some
        && message_in(j, "warningMessage"@) is Some
        && optional_text_in(j, "rainstormReminder"@) is Some
        && optional_message_in(j, "specialWxTips"@) is Some
        && optional_message_in(j, "tcmessage"@) is Some
        && optional_text_in(j, "mintempFrom00To09"@) is Some
        && optional_text_in(j, "rainfallFrom00To12"@) is Some
        && optional_text_in(j, "rainfallLastMonth"@) is Some
        && optional_text_in(j, "rainfallJanuaryToLastMonth"@) is Some
        && temperature_in(j, "temperature"@) is Some
        && humidity_in(j, "humidity"@) is Some {
        Some(
            CurrentView {
                lightning: optional_lightning_in(j, "lightning"@)->Some_0,
                rainfall: rainfall_in(j, "rainfall"@)->Some_0,
                icon: icon_of(j)->Some_0,
                uv_index: uv_index_or_empty_in(j, "uvindex"@)->Some_0,
                update_time: time_in(j, "updateTime"@)->Some_0,
                warning_message: message_in(j, "warningMessage"@)->Some_0,
                rainstorm_reminder: optional_text_in(j, "rainstormReminder"@)->Some_0,
                special_tips: optional_message_in(j, "specialWxTips"@)->Some_0,
                tcmessage: optional_message_in(j, "tcmessage"@)->Some_0,
                mintemp_from00_to09: optional_text_in(j, "mintempFrom00To09"@)->Some_0,
                rainfall_from00_to12: optional_text_in(j, "rainfallFrom00To12"@)->Some_0,
                rainfall_last_month: optional_text_in(j, "rainfallLastMonth"@)->Some_0,
                rainfall_january_to_last_month: optional_text_in(j, "rainfallJanuaryToLastMonth"@)->Some_0,
                temperature: temperature_in(j, "temperature"@)->Some_0,
                humidity: humidity_in(j, "humidity"@)->Some_0,
            },
        )
    } else {
        None
    }
}

impl Current {
    /// Decodes the current weather report.
    pub fn from_json(j: &Json) -> (r: Option<Current>)
        ensures
            r is Some <==> current_of(*j) is Some,
            r is Some ==> r->Some_0@ == current_of(*j)->Some_0,
    {
        let lightning: Option<Lightning> = match optional_lightning_member(j, "lightning") {
            Some(x) => x,
            None => {
                return None;
            },
        };
        let rainfall: Rainfall = match rainfall_member(j, "rainfall") {
            Some(x) => x,
            None => {
                return None;
            },
        };
        let icon: Icon = match Icon::from_json(j) {
            Some(x) => x,
            None => {
                return None;
            },
        };
        let uv_index: UVIndexOrEmpty = match uv_index_or_empty_member(j, "uvindex") {
            Some(x) => x,
            None => {
                return None;
            },
        };
        let update_time: TimePoint = match time_member(j, "updateTime") {
            Some(x) => x,
            None => {
                return None;
            },
        };
        let warning_message: Message = match message_member(j, "warningMessage") {
            Some(x) => x,
            None => {
                return None;
            },
        };
        let rainstorm_reminder: Option<String> = match optional_text_member(j, "rainstormReminder") {
            Some(x) => x,
            None => {
                return None;
            },
        };
        let special_tips: Option<Message> = match optional_message_member(j, "specialWxTips") {
            Some(x) => x,
            None => {
                return None;
            },
        };
        let tcmessage: Option<Message> = match optional_message_member(j, "tcmessage") {
            Some(x) => x,
            None => {
                return None;
            },
        };
        let mintemp_from00_to09: Option<String> = match optional_text_member(j, "mintempFrom00To09") {
            Some(x) => x,
            None => {
                return None;
            },
        };
        let rainfall_from00_to12: Option<String> = match optional_text_member(j, "rainfallFrom00To12") {
            Some(x) => x,
            None => {
                return None;
            },
        };
        let rainfall_last_month: Option<String> = match optional_text_member(j, "rainfallLastMonth") {
            Some(x) => x,
            None => {
                return None;
            },
        };
        let rainfall_january_to_last_month: Option<String> = match optional_text_member(j, "rainfallJanuaryToLastMonth") {
            Some(x) => x,
            None => {
                return None;
            },
        };
        let temperature: Temperature = match temperature_member(j, "temperature") {
            Some(x) => x,
            None => {
                return None;
            },
        };
        let humidity: Humidity = match humidity_member(j, "humidity") {
            Some(x) => x,
            None => {
                return None;
            },
        };
        Some(Current { lightning, rainfall, icon, uv_index, update_time, warning_message, rainstorm_reminder, special_tips, tcmessage, mintemp_from00_to09, rainfall_from00_to12, rainfall_last_month, rainfall_january_to_last_month, temperature, humidity })
    }
}

/// What a response body holds as the current weather report.
pub open spec fn current_of_body(s: Seq<char>) -> Option<CurrentView> {
    match json_document(s) {
        Some(doc) => current_of(doc),
        None => None,
    }
}

impl Current {
    /// Decodes a response body.
    pub fn from_str(s: &str) -> (r: Result<Current, DataError>)
        ensures
            r is Ok <==> current_of_body(s@) is Some,
            r is Ok ==> r->Ok_0@ == current_of_body(s@)->Some_0,
            r is Err ==> r->Err_0 is SourceFormat,
    {
        match crate::json::parse(s) {
            Ok(doc) => match Current::from_json(&doc) {
                Some(x) => Ok(x),
                None => Err(
                    DataError::SourceFormat("a member is missing or cannot be read".to_owned()),
                ),
            },
            Err(e) => Err(e),
        }
    }
}

impl API for Current {
    open spec fn base_text() -> Seq<char> {
        "weather"@
    }

    open spec fn datatype_text() -> Seq<char> {
        "rhrread"@
    }

    fn base() -> &'static str {
        "weather"
    }

    fn datatype() -> &'static str {
        "rhrread"
    }
}

} // verus!
