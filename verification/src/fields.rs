//! The members of a JSON object, read as the fields of a record.

use crate::common::message_of;
use crate::common::message_texts;
use crate::common::Message;
use crate::deserialize::bool_of;
use crate::deserialize::deserialize_to_bool;
use crate::json::list_of;
use crate::json::text_in;
use crate::json::text_member;
use crate::json::texts;
use crate::json::Json;
use crate::text::parse_unsigned;
use crate::text::unsigned_of;
use crate::time::date_of;
use crate::time::decode_date;
use crate::time::decode_rfc3339;
use crate::time::rfc3339_time;
use crate::time::Date;
use crate::time::TimePoint;
use crate::weather::name::Name;
use crate::weather::psr::psr_of;
use crate::weather::psr::PSR;
use crate::weather::warning::WarningStatementCode;
use crate::weather::warning::WarningSubtypeCode;
use vstd::prelude::*;

verus! {

/// What a text that may be absent holds.
pub open spec fn text_view(t: Option<String>) -> Option<Seq<char>> {
    match t {
        Some(x) => Some(x@),
        None => None,
    }
}

/// What a message that may be absent holds.
pub open spec fn message_view(m: Option<Message>) -> Option<Seq<Seq<char>>> {
    match m {
        Some(x) => Some(message_texts(x)),
        None => None,
    }
}

/// What a list of texts that may be absent holds.
pub open spec fn texts_view(l: Option<Vec<String>>) -> Option<Seq<Seq<char>>> {
    match l {
        Some(x) => Some(texts(x@)),
        None => None,
    }
}

/// The member under a key, unless it is absent or null.
pub open spec fn present(doc: Json, key: Seq<char>) -> Option<Json> {
    match doc.member_spec(key) {
        Some(Json::Null) => None,
        other => other,
    }
}

/// Looks up a member that may be absent or null.
pub fn present_member<'a>(doc: &'a Json, key: &str) -> (r: Option<&'a Json>)
    ensures
        r is Some <==> present(*doc, key@) is Some,
        r is Some ==> *r->Some_0 == present(*doc, key@)->Some_0,
{
    match doc.member(key) {
        Some(Json::Null) => None,
        other => other,
    }
}

/// The text under a key that may be absent or null: `Some(None)` where it
/// is, nothing where the member is anything but a text.
pub open spec fn optional_text_in(doc: Json, key: Seq<char>) -> Option<Option<Seq<char>>> {
    match present(doc, key) {
        None => Some(None),
        Some(Json::Text(t)) => Some(Some(t@)),
        Some(_) => None,
    }
}

/// Takes the text under a key that may be absent or null.
pub fn optional_text_member(doc: &Json, key: &str) -> (r: Option<Option<String>>)
    ensures
        r is Some <==> optional_text_in(*doc, key@) is Some,
        r is Some ==> text_view(r->Some_0) == optional_text_in(*doc, key@)->Some_0,
{
    match present_member(doc, key) {
        None => Some(None),
        Some(Json::Text(t)) => Some(Some(t.clone())),
        Some(_) => None,
    }
}

/// The number under a key of a document, as its text, where the member is
/// a number.
pub open spec fn number_in(doc: Json, key: Seq<char>) -> Option<Seq<char>> {
    match doc.member_spec(key) {
        Some(Json::Number(n)) => Some(n@),
        _ => None,
    }
}

/// Takes the number under a key, as its text.
pub fn number_member(doc: &Json, key: &str) -> (r: Option<String>)
    ensures
        r is Some <==> number_in(*doc, key@) is Some,
        r is Some ==> r->Some_0@ == number_in(*doc, key@)->Some_0,
{
    match doc.member(key) {
        Some(Json::Number(n)) => Some(n.clone()),
        _ => None,
    }
}

/// The number under a key that may be absent or null.
pub open spec fn optional_number_in(doc: Json, key: Seq<char>) -> Option<Option<Seq<char>>> {
    match present(doc, key) {
        None => Some(None),
        Some(Json::Number(n)) => Some(Some(n@)),
        Some(_) => None,
    }
}

/// Takes the number under a key that may be absent or null, as its text.
pub fn optional_number_member(doc: &Json, key: &str) -> (r: Option<Option<String>>)
    ensures
        r is Some <==> optional_number_in(*doc, key@) is Some,
        r is Some ==> text_view(r->Some_0) == optional_number_in(*doc, key@)->Some_0,
{
    match present_member(doc, key) {
        None => Some(None),
        Some(Json::Number(n)) => Some(Some(n.clone())),
        Some(_) => None,
    }
}

/// The flag under a key: a text that is `TRUE` or `FALSE` in any case, or
/// empty.
pub open spec fn flag_in(doc: Json, key: Seq<char>) -> Option<bool> {
    match text_in(doc, key) {
        Some(t) => bool_of(t),
        None => None,
    }
}

/// Decodes the flag under a key.
pub fn flag_member(doc: &Json, key: &str) -> (r: Option<bool>)
    ensures
        r == flag_in(*doc, key@),
{
    match text_member(doc, key) {
        Some(t) => match deserialize_to_bool(t.as_str()) {
            Ok(b) => Some(b),
            Err(_) => None,
        },
        None => None,
    }
}

/// The time under a key of a document, where the member is a text that is
/// an RFC 3339 date and time.
pub open spec fn time_in(doc: Json, key: Seq<char>) -> Option<TimePoint> {
    match text_in(doc, key) {
        Some(t) => rfc3339_time(t),
        None => None,
    }
}

/// Decodes the time under a key.
pub fn time_member(doc: &Json, key: &str) -> (r: Option<TimePoint>)
    ensures
        r == time_in(*doc, key@),
        r is Some ==> r->Some_0.wf(),
{
    match text_member(doc, key) {
        Some(t) => decode_rfc3339(t.as_str()),
        None => None,
    }
}

/// The time under a key that may be absent or null: `Some(None)` where it
/// is, nothing where the member is anything but a time.
pub open spec fn optional_time_in(doc: Json, key: Seq<char>) -> Option<Option<TimePoint>> {
    match present(doc, key) {
        None => Some(None),
        Some(_) => match time_in(doc, key) {
            Some(t) => Some(Some(t)),
            None => None,
        },
    }
}

/// Decodes the time under a key that may be absent or null.
pub fn optional_time_member(doc: &Json, key: &str) -> (r: Option<Option<TimePoint>>)
    ensures
        r == optional_time_in(*doc, key@),
{
    match present_member(doc, key) {
        None => Some(None),
        Some(_) => match time_member(doc, key) {
            Some(t) => Some(Some(t)),
            None => None,
        },
    }
}

/// The date under a key: a text `YYYYMMDD`.
pub open spec fn date_in(doc: Json, key: Seq<char>) -> Option<Date> {
    match text_in(doc, key) {
        Some(t) => date_of(t),
        None => None,
    }
}

/// Decodes the date under a key.
pub fn date_member(doc: &Json, key: &str) -> (r: Option<Date>)
    ensures
        r == date_in(*doc, key@),
        r is Some ==> r->Some_0.wf(),
{
    match text_member(doc, key) {
        Some(t) => decode_date(t.as_str()),
        None => None,
    }
}

/// The probability of significant rain under a key.
pub open spec fn psr_in(doc: Json, key: Seq<char>) -> Option<PSR> {
    match text_in(doc, key) {
        Some(t) => psr_of(t),
        None => None,
    }
}

/// Decodes the probability of significant rain under a key.
pub fn psr_member(doc: &Json, key: &str) -> (r: Option<PSR>)
    ensures
        r == psr_in(*doc, key@),
{
    match text_member(doc, key) {
        Some(t) => match PSR::from_str(t.as_str()) {
            Ok(p) => Some(p),
            Err(_) => None,
        },
        None => None,
    }
}

/// The weather status that a value denotes: a number that is the number
/// of a weather icon.
pub open spec fn status_of(j: Json) -> Option<Name> {
    match j {
        Json::Number(n) => match unsigned_of(n@) {
            Some(k) => Name::of_number(k),
            None => None,
        },
        _ => None,
    }
}

/// Decodes the number of a weather status.
pub fn decode_status(j: &Json) -> (r: Option<Name>)
    ensures
        r == status_of(*j),
{
    match j {
        Json::Number(n) => match parse_unsigned(n.as_str()) {
            Some(k) => Name::from_number(k),
            None => None,
        },
        _ => None,
    }
}

/// The weather status under a key.
pub open spec fn status_in(doc: Json, key: Seq<char>) -> Option<Name> {
    match doc.member_spec(key) {
        Some(j) => status_of(j),
        None => None,
    }
}

/// Decodes the weather status under a key.
pub fn status_member(doc: &Json, key: &str) -> (r: Option<Name>)
    ensures
        r == status_in(*doc, key@),
{
    match doc.member(key) {
        Some(j) => decode_status(j),
        None => None,
    }
}

/// The weather statuses of a list of numbers, where each is one.
pub open spec fn statuses_of(j: Json) -> Option<Seq<Name>> {
    match j {
        Json::Array(list) => if forall|i: int|
            0 <= i < list@.len() ==> status_of(#[trigger] list@[i]) is Some {
            Some(Seq::new(list@.len(), |i: int| status_of(list@[i])->Some_0))
        } else {
            None
        },
        _ => None,
    }
}

/// The list of weather statuses under a key.
pub open spec fn statuses_in(doc: Json, key: Seq<char>) -> Option<Seq<Name>> {
    match doc.member_spec(key) {
        Some(j) => statuses_of(j),
        None => None,
    }
}

/// Decodes the list of weather statuses under a key.
pub fn statuses_member(doc: &Json, key: &str) -> (r: Option<Vec<Name>>)
    ensures
        r is Some <==> statuses_in(*doc, key@) is Some,
        r is Some ==> r->Some_0@ == statuses_in(*doc, key@)->Some_0,
{
    match doc.member(key) {
        Some(Json::Array(list)) => {
            let mut out: Vec<Name> = Vec::new();
            let mut i: usize = 0;
            while i < list.len()
                invariant
                    i <= list.len(),
                    out.len() == i,
                    statuses_in(*doc, key@) == statuses_of(Json::Array(*list)),
                    forall|k: int| 0 <= k < i ==> status_of(#[trigger] list@[k]) is Some,
                    forall|k: int| 0 <= k < i ==> #[trigger] out@[k] == status_of(list@[k])->Some_0,
                decreases list.len() - i,
            {
                match decode_status(&list[i]) {
                    Some(name) => {
                        out.push(name);
                    },
                    None => {
                        assert(status_of(list@[i as int]) is None);
                        return None;
                    },
                }
                i = i + 1;
            }
            assert(out@ =~= statuses_of(Json::Array(*list))->Some_0);
            Some(out)
        },
        _ => None,
    }
}

/// The message under a key.
pub open spec fn message_in(doc: Json, key: Seq<char>) -> Option<Seq<Seq<char>>> {
    match doc.member_spec(key) {
        Some(j) => message_of(j),
        None => None,
    }
}

/// Decodes the message under a key.
pub fn message_member(doc: &Json, key: &str) -> (r: Option<Message>)
    ensures
        r is Some <==> message_in(*doc, key@) is Some,
        r is Some ==> message_texts(r->Some_0) == message_in(*doc, key@)->Some_0,
{
    match doc.member(key) {
        Some(j) => Message::from_json(j),
        None => None,
    }
}

/// The message under a key that may be absent or null.
pub open spec fn optional_message_in(doc: Json, key: Seq<char>) -> Option<Option<Seq<Seq<char>>>> {
    match present(doc, key) {
        None => Some(None),
        Some(j) => match message_of(j) {
            Some(m) => Some(Some(m)),
            None => None,
        },
    }
}

/// Decodes the message under a key that may be absent or null.
pub fn optional_message_member(doc: &Json, key: &str) -> (r: Option<Option<Message>>)
    ensures
        r is Some <==> optional_message_in(*doc, key@) is Some,
        r is Some ==> message_view(r->Some_0) == optional_message_in(*doc, key@)->Some_0,
{
    match present_member(doc, key) {
        None => Some(None),
        Some(j) => match Message::from_json(j) {
            Some(m) => Some(Some(m)),
            None => None,
        },
    }
}

/// The list of texts under a key that may be absent or null.
pub open spec fn optional_texts_in(doc: Json, key: Seq<char>) -> Option<Option<Seq<Seq<char>>>> {
    match present(doc, key) {
        None => Some(None),
        Some(j) => match list_of(j) {
            Some(l) => Some(Some(l)),
            None => None,
        },
    }
}

/// Takes the list of texts under a key that may be absent or null.
pub fn optional_texts_member(doc: &Json, key: &str) -> (r: Option<Option<Vec<String>>>)
    ensures
        r is Some <==> optional_texts_in(*doc, key@) is Some,
        r is Some ==> texts_view(r->Some_0) == optional_texts_in(*doc, key@)->Some_0,
{
    match present_member(doc, key) {
        None => Some(None),
        Some(j) => match j.to_list() {
            Some(l) => Some(Some(l)),
            None => None,
        },
    }
}

/// The warning statement code under a key.
pub open spec fn statement_in(doc: Json, key: Seq<char>) -> Option<WarningStatementCode> {
    match text_in(doc, key) {
        Some(t) => WarningStatementCode::of_text(t),
        None => None,
    }
}

/// Decodes the warning statement code under a key.
pub fn statement_member(doc: &Json, key: &str) -> (r: Option<WarningStatementCode>)
    ensures
        r == statement_in(*doc, key@),
{
    match text_member(doc, key) {
        Some(t) => WarningStatementCode::from_str(t.as_str()),
        None => None,
    }
}

/// The warning subtype code under a key that may be absent or null.
pub open spec fn optional_subtype_in(doc: Json, key: Seq<char>) -> Option<
    Option<WarningSubtypeCode>,
> {
    match present(doc, key) {
        None => Some(None),
        Some(Json::Text(t)) => match WarningSubtypeCode::of_text(t@) {
            Some(c) => Some(Some(c)),
            None => None,
        },
        Some(_) => None,
    }
}

/// Decodes the warning subtype code under a key that may be absent or null.
pub fn optional_subtype_member(doc: &Json, key: &str) -> (r: Option<Option<WarningSubtypeCode>>)
    ensures
        r == optional_subtype_in(*doc, key@),
{
    match present_member(doc, key) {
        None => Some(None),
        Some(Json::Text(t)) => match WarningSubtypeCode::from_str(t.as_str()) {
            Some(c) => Some(Some(c)),
            None => None,
        },
        Some(_) => None,
    }
}

} // verus!
