//! Special weather tips.

use crate::error::DataError;
use crate::fetch::API;
use crate::fields::optional_text_in;
use crate::fields::optional_text_member;
use crate::fields::optional_time_in;
use crate::fields::optional_time_member;
use crate::fields::text_view;
use crate::json::json_document;
use crate::json::Json;
use crate::time::TimePoint;
use vstd::prelude::*;

verus! {

/// A tip with its description and the time of its update; either may be
/// missing.
#[derive(Clone, Debug)]
pub struct Tip {
    pub desc: Option<String>,
    pub update_time: Option<TimePoint>,
}

/// What a `Tip` holds.
pub struct TipView {
    pub desc: Option<Seq<char>>,
    pub update_time: Option<TimePoint>,
}

impl View for Tip {
    type V = TipView;

    open spec fn view(&self) -> TipView {
        TipView {
            desc: text_view(self.desc),
            update_time: self.update_time,
        }
    }
}

/// What a value holds as a tip: nothing where a member is missing or
/// cannot be read as its field.
pub open spec fn tip_of(j: Json) -> Option<TipView> {
    if optional_text_in(j, "desc"@) is Some
        && optional_time_in(j, "updateTime"@) is Some {
        Some(
            TipView {
                desc: optional_text_in(j, "desc"@)->Some_0,
                update_time: optional_time_in(j, "updateTime"@)->Some_0,
            },
        )
    } else {
        None
    }
}

impl Tip {
    /// Decodes a tip.
    pub fn from_json(j: &Json) -> (r: Option<Tip>)
        ensures
            r is Some <==> tip_of(*j) is Some,
            r is Some ==> r->Some_0@ == tip_of(*j)->Some_0,
    {
        let desc: Option<String> = match optional_text_member(j, "desc") {
            Some(x) => x,
            None => {
                return None;
            },
        };
        let update_time: Option<TimePoint> = match optional_time_member(j, "updateTime") {
            Some(x) => x,
            None => {
                return None;
            },
        };
        Some(Tip { desc, update_time })
    }
}

/// What a list of `Tip` holds.
pub open spec fn tip_views(list: Seq<Tip>) -> Seq<TipView> {
    Seq::new(list.len(), |i: int| list[i]@)
}

/// What a value holds as a list of `Tip`, where it is an array of which
/// every item can be read.
pub open spec fn tip_list_of(j: Json) -> Option<Seq<TipView>> {
    match j {
        Json::Array(list) => if forall|i: int|
            0 <= i < list@.len() ==> tip_of(#[trigger] list@[i]) is Some {
            Some(Seq::new(list@.len(), |i: int| tip_of(list@[i])->Some_0))
        } else {
            None
        },
        _ => None,
    }
}

/// Decodes a list of `Tip`.
pub fn tip_list(j: &Json) -> (r: Option<Vec<Tip>>)
    ensures
        r is Some <==> tip_list_of(*j) is Some,
        r is Some ==> tip_views(r->Some_0@) == tip_list_of(*j)->Some_0,
{
    match j {
        Json::Array(list) => {
            let mut out: Vec<Tip> = Vec::new();
            let mut i: usize = 0;
            while i < list.len()
                invariant
                    i <= list.len(),
                    out.len() == i,
                    *j matches Json::Array(l) && l == *list,
                    forall|k: int| 0 <= k < i ==> tip_of(#[trigger] list@[k]) is Some,
                    forall|k: int|
                        0 <= k < i ==> (#[trigger] out@[k])@ == tip_of(list@[k])->Some_0,
                decreases list.len() - i,
            {
                match Tip::from_json(&list[i]) {
                    Some(x) => {
                        out.push(x);
                    },
                    None => {
                        assert(tip_of(list@[i as int]) is None);
                        return None;
                    },
                }
                i = i + 1;
            }
            assert(tip_views(out@) =~= tip_list_of(*j)->Some_0);
            Some(out)
        },
        _ => None,
    }
}

/// What the member under a key holds as a list of `Tip`.
pub open spec fn tip_list_in(doc: Json, key: Seq<char>) -> Option<Seq<TipView>> {
    match doc.member_spec(key) {
        Some(j) => tip_list_of(j),
        None => None,
    }
}

/// Decodes the member under a key as a list of `Tip`.
pub fn tip_list_member(doc: &Json, key: &str) -> (r: Option<Vec<Tip>>)
    ensures
        r is Some <==> tip_list_in(*doc, key@) is Some,
        r is Some ==> tip_views(r->Some_0@) == tip_list_in(*doc, key@)->Some_0,
{
    match doc.member(key) {
        Some(j) => tip_list(j),
        None => None,
    }
}

/// Special weather tips in force in Hong Kong: none or more.
#[derive(Clone, Debug)]
pub struct Tips {
    pub tips: Vec<Tip>,
}

/// What a `Tips` holds.
pub struct TipsView {
    pub tips: Seq<TipView>,
}

impl View for Tips {
    type V = TipsView;

    open spec fn view(&self) -> TipsView {
        TipsView {
            tips: tip_views(self.tips@),
        }
    }
}

/// What a value holds as the special weather tips: nothing where a member is missing or
/// cannot be read as its field.
pub open spec fn tips_of(j: Json) -> Option<TipsView> {
    if tip_list_in(j, "swt"@) is Some {
        Some(
            TipsView {
                tips: tip_list_in(j, "swt"@)->Some_0,
            },
        )
    } else {
        None
    }
}

impl Tips {
    /// Decodes the special weather tips.
    pub fn from_json(j: &Json) -> (r: Option<Tips>)
        ensures
            r is Some <==> tips_of(*j) is Some,
            r is Some ==> r->Some_0@ == tips_of(*j)->Some_0,
    {
        let tips: Vec<Tip> = match tip_list_member(j, "swt") {
            Some(x) => x,
            None => {
                return None;
            },
        };
        Some(Tips { tips })
    }
}

/// What a response body holds as the special weather tips.
pub open spec fn tips_of_body(s: Seq<char>) -> Option<TipsView> {
    match json_document(s) {
        Some(doc) => tips_of(doc),
        None => None,
    }
}

impl Tips {
    /// Decodes a response body.
    pub fn from_str(s: &str) -> (r: Result<Tips, DataError>)
        ensures
            r is Ok <==> tips_of_body(s@) is Some,
            r is Ok ==> r->Ok_0@ == tips_of_body(s@)->Some_0,
            r is Err ==> r->Err_0 is SourceFormat,
    {
        match crate::json::parse(s) {
            Ok(doc) => match Tips::from_json(&doc) {
                Some(x) => Ok(x),
                None => Err(
                    DataError::SourceFormat("a member is missing or cannot be read".to_owned()),
                ),
            },
            Err(e) => Err(e),
        }
    }
}

impl API for Tips {
    open spec fn base_text() -> Seq<char> {
        "weather"@
    }

    open spec fn datatype_text() -> Seq<char> {
        "swt"@
    }

    fn base() -> &'static str {
        "weather"
    }

    fn datatype() -> &'static str {
        "swt"
    }
}

} // verus!
