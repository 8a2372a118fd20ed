//! Weather warning information.

use crate::common::Message;
use crate::error::DataError;
use crate::fetch::API;
use crate::fields::message_view;
use crate::fields::optional_message_in;
use crate::fields::optional_message_member;
use crate::fields::optional_subtype_in;
use crate::fields::optional_subtype_member;
use crate::fields::optional_time_in;
use crate::fields::optional_time_member;
use crate::fields::present;
use crate::fields::present_member;
use crate::fields::statement_in;
use crate::fields::statement_member;
use crate::json::json_document;
use crate::json::Json;
use crate::time::TimePoint;
use crate::weather::warning::WarningStatementCode;
use crate::weather::warning::WarningSubtypeCode;
use vstd::prelude::*;

verus! {

/// Detailed information of a weather warning in force.
#[derive(Clone, Debug)]
pub struct InfoDetail {
    pub contents: Option<Message>,
    /// Warning statement code
    pub code: WarningStatementCode,
    /// Warning subtype code
    pub subtype: Option<WarningSubtypeCode>,
    pub update_time: Option<TimePoint>,
}

/// What a `InfoDetail` holds.
pub struct InfoDetailView {
    pub contents: Option<Seq<Seq<char>>>,
    pub code: WarningStatementCode,
    pub subtype: Option<WarningSubtypeCode>,
    pub update_time: Option<TimePoint>,
}

impl View for InfoDetail {
    type V = InfoDetailView;

    open spec fn view(&self) -> InfoDetailView {
        InfoDetailView {
            contents: message_view(self.contents),
            code: self.code,
            subtype: self.subtype,
            update_time: self.update_time,
        }
    }
}

/// What a value holds as the details of a warning: nothing where a member is missing or
/// cannot be read as its field.
pub open spec fn info_detail_of(j: Json) -> Option<InfoDetailView> {
    if optional_message_in(j, "contents"@) is Some
        && statement_in(j, "warningStatementCode"@) is Some
        && optional_subtype_in(j, "subtype"@) is Some
        && optional_time_in(j, "updateTime"@) is Some {
        Some(
            InfoDetailView {
                contents: optional_message_in(j, "contents"@)->Some_0,
                code: statement_in(j, "warningStatementCode"@)->Some_0,
                subtype: optional_subtype_in(j, "subtype"@)->Some_0,
                update_time: optional_time_in(j, "updateTime"@)->Some_0,
            },
        )
    } else {
        None
    }
}

impl InfoDetail {
    /// Decodes the details of a warning.
    pub fn from_json(j: &Json) -> (r: Option<InfoDetail>)
        ensures
            r is Some <==> info_detail_of(*j) is Some,
            r is Some ==> r->Some_0@ == info_detail_of(*j)->Some_0,
    {
        let contents: Option<Message> = match optional_message_member(j, "contents") {
            Some(x) => x,
            None => {
                return None;
            },
        };
        let code: WarningStatementCode = match statement_member(j, "warningStatementCode") {
            Some(x) => x,
            None => {
                return None;
            },
        };
        let subtype: Option<WarningSubtypeCode> = match optional_subtype_member(j, "subtype") {
            Some(x) => x,
            None => {
                return None;
            },
        };
        let update_time: Option<TimePoint> = match optional_time_member(j, "updateTime") {
            Some(x) => x,
            None => {
                return None;
            },
        };
        Some(InfoDetail { contents, code, subtype, update_time })
    }
}

/// What a list of `InfoDetail` holds.
pub open spec fn info_detail_views(list: Seq<InfoDetail>) -> Seq<InfoDetailView> {
    Seq::new(list.len(), |i: int| list[i]@)
}

/// What a value holds as a list of `InfoDetail`, where it is an array of which
/// every item can be read.
pub open spec fn info_detail_list_of(j: Json) -> Option<Seq<InfoDetailView>> {
    match j {
        Json::Array(list) => if forall|i: int|
            0 <= i < list@.len() ==> info_detail_of(#[trigger] list@[i]) is Some {
            Some(Seq::new(list@.len(), |i: int| info_detail_of(list@[i])->Some_0))
        } else {
            None
        },
        _ => None,
    }
}

/// Decodes a list of `InfoDetail`.
pub fn info_detail_list(j: &Json) -> (r: Option<Vec<InfoDetail>>)
    ensures
        r is Some <==> info_detail_list_of(*j) is Some,
        r is Some ==> info_detail_views(r->Some_0@) == info_detail_list_of(*j)->Some_0,
{
    match j {
        Json::Array(list) => {
            let mut out: Vec<InfoDetail> = Vec::new();
            let mut i: usize = 0;
            while i < list.len()
                invariant
                    i <= list.len(),
                    out.len() == i,
                    *j matches Json::Array(l) && l == *list,
                    forall|k: int| 0 <= k < i ==> info_detail_of(#[trigger] list@[k]) is Some,
                    forall|k: int|
                        0 <= k < i ==> (#[trigger] out@[k])@ == info_detail_of(list@[k])->Some_0,
                decreases list.len() - i,
            {
                match InfoDetail::from_json(&list[i]) {
                    Some(x) => {
                        out.push(x);
                    },
                    None => {
                        assert(info_detail_of(list@[i as int]) is None);
                        return None;
                    },
                }
                i = i + 1;
            }
            assert(info_detail_views(out@) =~= info_detail_list_of(*j)->Some_0);
            Some(out)
        },
        _ => None,
    }
}

/// What a list of `InfoDetail` that may be absent holds.
pub open spec fn optional_info_detail_views(x: Option<Vec<InfoDetail>>) -> Option<Seq<InfoDetailView>> {
    match x {
        Some(v) => Some(info_detail_views(v@)),
        None => None,
    }
}

/// What the member under a key holds as a list of `InfoDetail`, where the member
/// may be absent or null.
pub open spec fn optional_info_detail_list_in(doc: Json, key: Seq<char>) -> Option<Option<Seq<InfoDetailView>>> {
    match present(doc, key) {
        None => Some(None),
        Some(j) => match info_detail_list_of(j) {
            Some(v) => Some(Some(v)),
            None => None,
        },
    }
}

/// Decodes the member under a key, which may be absent or null, as a list
/// of `InfoDetail`.
pub fn optional_info_detail_list_member(doc: &Json, key: &str) -> (r: Option<Option<Vec<InfoDetail>>>)
    ensures
        r is Some <==> optional_info_detail_list_in(*doc, key@) is Some,
        r is Some ==> optional_info_detail_views(r->Some_0) == optional_info_detail_list_in(*doc, key@)->Some_0,
{
    match present_member(doc, key) {
        None => Some(None),
        Some(j) => match info_detail_list(j) {
            Some(v) => Some(Some(v)),
            None => None,
        },
    }
}

/// The details of every warning now in force.
#[derive(Clone, Debug)]
pub struct Info {
    pub details: Option<Vec<InfoDetail>>,
}

/// What a `Info` holds.
pub struct InfoView {
    pub details: Option<Seq<InfoDetailView>>,
}

impl View for Info {
    type V = InfoView;

    open spec fn view(&self) -> InfoView {
        InfoView {
            details: optional_info_detail_views(self.details),
        }
    }
}

/// What a value holds as the warning information: nothing where a member is missing or
/// cannot be read as its field.
pub open spec fn info_of(j: Json) -> Option<InfoView> {
    if optional_info_detail_list_in(j, "details"@) is Some {
        Some(
            InfoView {
                details: optional_info_detail_list_in(j, "details"@)->Some_0,
            },
        )
    } else {
        None
    }
}

impl Info {
    /// Decodes the warning information.
    pub fn from_json(j: &Json) -> (r: Option<Info>)
        ensures
            r is Some <==> info_of(*j) is Some,
            r is Some ==> r->Some_0@ == info_of(*j)->Some_0,
    {
        let details: Option<Vec<InfoDetail>> = match optional_info_detail_list_member(j, "details") {
            Some(x) => x,
            None => {
                return None;
            },
        };
        Some(Info { details })
    }
}

/// What a response body holds as the warning information.
pub open spec fn info_of_body(s: Seq<char>) -> Option<InfoView> {
    match json_document(s) {
        Some(doc) => info_of(doc),
        None => None,
    }
}

impl Info {
    /// Decodes a response body.
    pub fn from_str(s: &str) -> (r: Result<Info, DataError>)
        ensures
            r is Ok <==> info_of_body(s@) is Some,
            r is Ok ==> r->Ok_0@ == info_of_body(s@)->Some_0,
            r is Err ==> r->Err_0 is SourceFormat,
    {
        match crate::json::parse(s) {
            Ok(doc) => match Info::from_json(&doc) {
                Some(x) => Ok(x),
                None => Err(
                    DataError::SourceFormat("a member is missing or cannot be read".to_owned()),
                ),
            },
            Err(e) => Err(e),
        }
    }
}

impl API for Info {
    open spec fn base_text() -> Seq<char> {
        "weather"@
    }

    open spec fn datatype_text() -> Seq<char> {
        "warningInfo"@
    }

    fn base() -> &'static str {
        "weather"
    }

    fn datatype() -> &'static str {
        "warningInfo"
    }
}

} // verus!
