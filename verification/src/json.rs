//! JSON documents as plain values.

use crate::error::DataError;
use crate::text::same_text;
use vstd::prelude::*;
use vstd::string::StringExecFns;

verus! {

/// A JSON value. The members of an object stand in the order in which the
/// parser hands them out; a number is kept as its text.
#[derive(Debug)]
pub enum Json {
    Null,
    Bool(bool),
    Number(String),
    Text(String),
    Array(Vec<Json>),
    Object(Vec<(String, Json)>),
}

/// `serde_json::Value`, carried through as it is.
#[verifier::external_type_specification]
#[verifier::external_body]
pub struct ExJsonValue(serde_json::Value);

/// `serde_json::Error`, carried through as it is.
#[verifier::external_type_specification]
#[verifier::external_body]
pub struct ExJsonError(serde_json::Error);

/// The document that a text denotes, where it is well-formed JSON.
pub uninterp spec fn json_document(text: Seq<char>) -> Option<Json>;

/// What a parsed value holds.
pub uninterp spec fn value_content(value: serde_json::Value) -> Json;

/// Calls `serde_json::from_str` for a `serde_json::Value`. The call succeeds
/// exactly on the texts that denote a document, and the value then holds that
/// document.
#[verifier::external_body]
fn value_from_text(s: &str) -> (r: Result<serde_json::Value, serde_json::Error>)
    ensures
        r is Ok <==> json_document(s@) is Some,
        r is Ok ==> value_content(r->Ok_0) == json_document(s@)->Some_0,
{
    serde_json::from_str::<serde_json::Value>(s)
}

/// Takes a `serde_json::Value` apart, variant by variant, into the value of
/// this crate that holds the same content. A number is written with
/// `serde_json::Number`'s `to_string`.
#[verifier::external_body]
fn json_of_value(v: serde_json::Value) -> (r: Json)
    ensures
        r == value_content(v),
{
    match v {
        serde_json::Value::Null => Json::Null,
        serde_json::Value::Bool(b) => Json::Bool(b),
        serde_json::Value::Number(n) => Json::Number(n.to_string()),
        serde_json::Value::String(s) => Json::Text(s),
        serde_json::Value::Array(a) => Json::Array(a.into_iter().map(json_of_value).collect()),
        serde_json::Value::Object(m) => Json::Object(
            m.into_iter().map(|(k, x)| (k, json_of_value(x))).collect(),
        ),
    }
}

/// The message of a `serde_json::Error`, from its `to_string`.
#[verifier::external_body]
fn error_text(e: &serde_json::Error) -> String {
    e.to_string()
}

/// Whether decoding a text as JSON gives `r`.
pub open spec fn parsed_as(text: Seq<char>, r: Result<Json, DataError>) -> bool {
    match json_document(text) {
        Some(doc) => r == Ok::<Json, DataError>(doc),
        None => r is Err && r->Err_0 is SourceFormat,
    }
}

/// Decodes a text as a JSON document.
pub fn parse(s: &str) -> (r: Result<Json, DataError>)
    ensures
        parsed_as(s@, r),
{
    match value_from_text(s) {
        Ok(v) => Ok(json_of_value(v)),
        Err(e) => Err(DataError::SourceFormat(error_text(&e))),
    }
}

/// The views of a list of texts.
pub open spec fn texts(v: Seq<String>) -> Seq<Seq<char>> {
    Seq::new(v.len(), |i: int| v[i]@)
}

/// The views of the rows of a table.
pub open spec fn table(v: Seq<Vec<String>>) -> Seq<Seq<Seq<char>>> {
    Seq::new(v.len(), |i: int| texts(v[i]@))
}

/// The value of the first member named `key`.
pub open spec fn member_of(entries: Seq<(String, Json)>, key: Seq<char>) -> Option<Json>
    decreases entries.len(),
{
    if entries.len() == 0 {
        None
    } else if entries[0].0@ == key {
        Some(entries[0].1)
    } else {
        member_of(entries.drop_first(), key)
    }
}

/// The texts of an array whose items are all texts.
pub open spec fn list_of(j: Json) -> Option<Seq<Seq<char>>> {
    match j {
        Json::Array(a) => if forall|i: int| 0 <= i < a@.len() ==> #[trigger] a@[i] is Text {
            Some(Seq::new(a@.len(), |i: int| a@[i]->Text_0@))
        } else {
            None
        },
        _ => None,
    }
}

/// The rows of an array whose items are all arrays of texts.
pub open spec fn table_of(j: Json) -> Option<Seq<Seq<Seq<char>>>> {
    match j {
        Json::Array(a) => if forall|i: int| 0 <= i < a@.len() ==> list_of(#[trigger] a@[i]) is Some {
            Some(Seq::new(a@.len(), |i: int| list_of(a@[i])->Some_0))
        } else {
            None
        },
        _ => None,
    }
}

impl Json {
    /// The member `key` of an object; `None` for any other value.
    pub open spec fn member_spec(self, key: Seq<char>) -> Option<Json> {
        match self {
            Json::Object(entries) => member_of(entries@, key),
            _ => None,
        }
    }

    /// Looks a member of an object up by its key.
    pub fn member(&self, key: &str) -> (r: Option<&Json>)
        ensures
            r is Some <==> self.member_spec(key@) is Some,
            r is Some ==> *r->Some_0 == self.member_spec(key@)->Some_0,
    {
        match self {
            Json::Object(entries) => {
                let mut i: usize = 0;
                assert(entries@.subrange(0, entries@.len() as int) =~= entries@);
                while i < entries.len()
                    invariant
                        *self matches Json::Object(e) && e == *entries,
                        i <= entries.len(),
                        member_of(entries@, key@) == member_of(
                            entries@.subrange(i as int, entries@.len() as int),
                            key@,
                        ),
                    decreases entries.len() - i,
                {
                    let ghost rest = entries@.subrange(i as int, entries@.len() as int);
                    assert(rest[0] == entries@[i as int]);
                    assert(rest.drop_first() =~= entries@.subrange(
                        i + 1,
                        entries@.len() as int,
                    ));
                    if same_text(entries[i].0.as_str(), key) {
                        assert(member_of(rest, key@) == Some(rest[0].1));
                        return Some(&entries[i].1);
                    }
                    assert(member_of(rest, key@) == member_of(rest.drop_first(), key@));
                    i = i + 1;
                }
                None
            },
            _ => None,
        }
    }

    /// The texts of an array of texts.
    pub fn to_list(&self) -> (r: Option<Vec<String>>)
        ensures
            r is Some <==> list_of(*self) is Some,
            r is Some ==> texts(r->Some_0@) == list_of(*self)->Some_0,
    {
        match self {
            Json::Array(a) => {
                let mut out: Vec<String> = Vec::new();
                let mut i: usize = 0;
                while i < a.len()
                    invariant
                        *self matches Json::Array(x) && x == *a,
                        i <= a.len(),
                        out.len() == i,
                        forall|k: int| 0 <= k < i ==> #[trigger] a@[k] is Text,
                        forall|k: int| 0 <= k < i ==> (#[trigger] out@[k])@ == a@[k]->Text_0@,
                    decreases a.len() - i,
                {
                    match &a[i] {
                        Json::Text(s) => {
                            out.push(s.clone());
                        },
                        _ => {
                            assert(!(a@[i as int] is Text));
                            return None;
                        },
                    }
                    i = i + 1;
                }
                assert(texts(out@) =~= list_of(*self)->Some_0);
                Some(out)
            },
            _ => None,
        }
    }

    /// The rows of an array of arrays of texts.
    pub fn to_table(&self) -> (r: Option<Vec<Vec<String>>>)
        ensures
            r is Some <==> table_of(*self) is Some,
            r is Some ==> table(r->Some_0@) == table_of(*self)->Some_0,
    {
        match self {
            Json::Array(a) => {
                let mut out: Vec<Vec<String>> = Vec::new();
                let mut i: usize = 0;
                while i < a.len()
                    invariant
                        *self matches Json::Array(x) && x == *a,
                        i <= a.len(),
                        out.len() == i,
                        forall|k: int| 0 <= k < i ==> list_of(#[trigger] a@[k]) is Some,
                        forall|k: int|
                            0 <= k < i ==> texts((#[trigger] out@[k])@) == list_of(a@[k])->Some_0,
                    decreases a.len() - i,
                {
                    match a[i].to_list() {
                        Some(row) => {
                            out.push(row);
                        },
                        None => {
                            assert(list_of(a@[i as int]) is None);
                            return None;
                        },
                    }
                    i = i + 1;
                }
                assert(table(out@) =~= table_of(*self)->Some_0);
                Some(out)
            },
            _ => None,
        }
    }
}


/// The rows under the member `data` of a document, where it has them.
pub open spec fn rows_in(doc: Json) -> Option<Seq<Seq<Seq<char>>>> {
    match doc.member_spec("data"@) {
        Some(d) => table_of(d),
        None => None,
    }
}

/// The column labels under the member `fields` of a document: none where the
/// member is absent, nothing where it is not a list of texts.
pub open spec fn labels_in(doc: Json) -> Option<Seq<Seq<char>>> {
    match doc.member_spec("fields"@) {
        Some(f) => list_of(f),
        None => Some(seq![]),
    }
}

/// Takes the rows of a response out of its document.
pub fn data_rows(doc: &Json) -> (r: Result<Vec<Vec<String>>, DataError>)
    ensures
        r is Ok <==> rows_in(*doc) is Some,
        r is Ok ==> table(r->Ok_0@) == rows_in(*doc)->Some_0,
        r is Err ==> r->Err_0 is SourceFormat,
{
    match doc.member("data") {
        Some(d) => match d.to_table() {
            Some(rows) => Ok(rows),
            None => Err(
                DataError::SourceFormat(String::from_str("`data` is not an array of arrays of strings")),
            ),
        },
        None => Err(DataError::SourceFormat(String::from_str("missing field `data`"))),
    }
}

/// Takes the column labels of a response out of its document.
pub fn field_labels(doc: &Json) -> (r: Result<Vec<String>, DataError>)
    ensures
        r is Ok <==> labels_in(*doc) is Some,
        r is Ok ==> texts(r->Ok_0@) == labels_in(*doc)->Some_0,
        r is Err ==> r->Err_0 is SourceFormat,
{
    match doc.member("fields") {
        Some(f) => match f.to_list() {
            Some(labels) => Ok(labels),
            None => Err(DataError::SourceFormat(String::from_str("`fields` is not an array of strings"))),
        },
        None => {
            let labels: Vec<String> = Vec::new();
            assert(texts(labels@) =~= seq![]);
            Ok(labels)
        },
    }
}


/// The text under a key of a document, where the member is a text.
pub open spec fn text_in(doc: Json, key: Seq<char>) -> Option<Seq<char>> {
    match doc.member_spec(key) {
        Some(Json::Text(t)) => Some(t@),
        _ => None,
    }
}

/// Takes the text under a key out of a document.
pub fn text_member(doc: &Json, key: &str) -> (r: Option<String>)
    ensures
        r is Some <==> text_in(*doc, key@) is Some,
        r is Some ==> r->Some_0@ == text_in(*doc, key@)->Some_0,
{
    match doc.member(key) {
        Some(Json::Text(t)) => Some(t.clone()),
        _ => None,
    }
}

} // verus!
