//! Delimited text, and the choice between the two encodings of a response.

use crate::error::DataError;
use crate::json::table;
use crate::json::texts;
use crate::text::chars_of;
use crate::text::is_digit;
use crate::text::is_digit_char;
use crate::text::is_space;
use crate::text::is_space_char;
use crate::text::trim;
use crate::text::trimmed;
use vstd::prelude::*;

verus! {

/// The encoding of a response body.
#[derive(Clone, Copy, Debug, PartialEq, Eq, Structural)]
pub enum Encoding {
    Json,
    Tabular,
}

/// The encoding that a body announces by its first character after white
/// space: `{` for JSON, anything else for delimited text, none when nothing
/// is left.
pub open spec fn encoding_of(body: Seq<char>) -> Option<Encoding> {
    let t = trimmed(body);
    if t.len() == 0 {
        None
    } else if t[0] == '{' {
        Some(Encoding::Json)
    } else {
        Some(Encoding::Tabular)
    }
}

/// Tells the encoding of a body; an empty body is an early end of input.
pub fn sniff(body: &str) -> (r: Result<Encoding, DataError>)
    ensures
        match encoding_of(body@) {
            Some(e) => r == Ok::<Encoding, DataError>(e),
            None => r is Err && r->Err_0 is EarlyEOF,
        },
{
    let t: &str = trim(body);
    if t.unicode_len() == 0 {
        Err(DataError::EarlyEOF)
    } else if t.get_char(0) == '{' {
        Ok(Encoding::Json)
    } else {
        Ok(Encoding::Tabular)
    }
}

/// Whether a character can stand in a table of numbers alone.
pub open spec fn is_numeric_table_char(c: char) -> bool {
    is_digit(c) || is_space(c) || c == ',' || c == '.'
}

/// Whether a body holds a character that a table of numbers cannot hold,
/// which shows that it starts with a row of labels.
pub open spec fn has_labels(body: Seq<char>) -> bool {
    exists|i: int| 0 <= i < body.len() && !is_numeric_table_char(#[trigger] body[i])
}

/// Tells whether a body of delimited numbers starts with a row of labels.
pub fn detect_labels(body: &str) -> (r: bool)
    ensures
        r == has_labels(body@),
{
    let v: Vec<char> = chars_of(body);
    let mut i: usize = 0;
    while i < v.len()
        invariant
            v@ == body@,
            i <= v.len(),
            forall|k: int| 0 <= k < i ==> is_numeric_table_char(#[trigger] body@[k]),
        decreases v.len() - i,
    {
        let c: char = v[i];
        if !(is_digit_char(c) || is_space_char(c) || c == ',' || c == '.') {
            return true;
        }
        i = i + 1;
    }
    false
}

/// The records that the CSV reader yields for a text, in order: the fields
/// of each record that it could read, `None` for each that it refused.
pub uninterp spec fn csv_records(text: Seq<char>, has_headers: bool, flexible: bool) -> Seq<
    Option<Seq<Seq<char>>>,
>;

/// The header record that the CSV reader finds in a text: its first
/// record, which is empty where the text holds none.
pub uninterp spec fn csv_header(text: Seq<char>) -> Seq<Seq<char>>;

/// The views of a list of records.
pub open spec fn records_view(v: Seq<Option<Vec<String>>>) -> Seq<Option<Seq<Seq<char>>>> {
    Seq::new(
        v.len(),
        |i: int|
            match v[i] {
                Some(row) => Some(texts(row@)),
                None => None,
            },
    )
}

/// Builds a `csv::Reader` over the text with `csv::ReaderBuilder`, its
/// `has_headers` and `flexible` set as given, and collects what
/// `Reader::records` yields: the fields of each record, or `None` where the
/// reader returned an error for it.
#[verifier::external_body]
fn read_records(text: &str, has_headers: bool, flexible: bool) -> (r: Vec<Option<Vec<String>>>)
    ensures
        records_view(r@) == csv_records(text@, has_headers, flexible),
{
    let mut reader = csv::ReaderBuilder::new().has_headers(has_headers).flexible(
        flexible,
    ).from_reader(text.as_bytes());
    reader.records().map(|r| r.ok().map(|rec| rec.iter().map(str::to_owned).collect())).collect()
}

/// Builds a `csv::Reader` with headers over the text and returns the fields
/// of what `Reader::headers` gives, or its error message. The call fails
/// only where reading fails or a field is no UTF-8, and a text that is held
/// in memory gives rise to neither: the result is always `Ok`.
#[verifier::external_body]
fn read_header(text: &str) -> (r: Result<Vec<String>, String>)
    ensures
        r is Ok,
        texts(r->Ok_0@) == csv_header(text@),
{
    let mut reader = csv::ReaderBuilder::new().has_headers(true).from_reader(text.as_bytes());
    match reader.headers() {
        Ok(rec) => Ok(rec.iter().map(str::to_owned).collect()),
        Err(e) => Err(e.to_string()),
    }
}

/// The records that could be read, in order.
pub open spec fn readable(records: Seq<Option<Seq<Seq<char>>>>) -> Seq<Seq<Seq<char>>>
    decreases records.len(),
{
    if records.len() == 0 {
        seq![]
    } else {
        match records.last() {
            Some(row) => readable(records.drop_last()).push(row),
            None => readable(records.drop_last()),
        }
    }
}

/// The rows of a delimited text: the records that the reader could read.
pub open spec fn rows_of_text(text: Seq<char>, has_headers: bool, flexible: bool) -> Seq<
    Seq<Seq<char>>,
> {
    readable(csv_records(text, has_headers, flexible))
}

fn copy_row(row: &Vec<String>) -> (r: Vec<String>)
    ensures
        texts(r@) == texts(row@),
{
    let mut out: Vec<String> = Vec::new();
    let mut i: usize = 0;
    while i < row.len()
        invariant
            i <= row.len(),
            out.len() == i,
            forall|k: int| 0 <= k < i ==> (#[trigger] out@[k])@ == row@[k]@,
        decreases row.len() - i,
    {
        out.push(row[i].clone());
        i = i + 1;
    }
    assert(texts(out@) =~= texts(row@));
    out
}

/// Reads the rows of a delimited text, leaving out the records that the
/// reader refuses.
pub fn read_rows(text: &str, has_headers: bool, flexible: bool) -> (r: Vec<Vec<String>>)
    ensures
        table(r@) == rows_of_text(text@, has_headers, flexible),
{
    let records: Vec<Option<Vec<String>>> = read_records(text, has_headers, flexible);
    let mut out: Vec<Vec<String>> = Vec::new();
    let mut i: usize = 0;
    let ghost all = records_view(records@);
    assert(all.subrange(0, 0) =~= seq![]);
    while i < records.len()
        invariant
            i <= records.len(),
            all == records_view(records@),
            table(out@) == readable(all.subrange(0, i as int)),
        decreases records.len() - i,
    {
        let ghost before = table(out@);
        proof {
            let p = all.subrange(0, i + 1);
            assert(p.drop_last() =~= all.subrange(0, i as int));
            assert(p.last() == all[i as int]);
        }
        match &records[i] {
            Some(row) => {
                let copy: Vec<String> = copy_row(row);
                out.push(copy);
                assert(table(out@) =~= before.push(texts(row@)));
            },
            None => {},
        }
        i = i + 1;
    }
    assert(all.subrange(0, records.len() as int) =~= all);
    out
}

/// Reads the header record of a delimited text.
pub fn read_labels(text: &str) -> (r: Vec<String>)
    ensures
        texts(r@) == csv_header(text@),
{
    match read_header(text) {
        Ok(labels) => labels,
        Err(_) => Vec::new(),
    }
}

} // verus!
