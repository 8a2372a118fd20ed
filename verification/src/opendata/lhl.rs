//! Cloud-to-ground and cloud-to-cloud lightning count over the territory of
//! Hong Kong in the past hour.

use crate::common::Lang;
use crate::error::DataError;
use crate::error::Failure;
use crate::json::data_rows;
use crate::json::json_document;
use crate::json::rows_in;
use crate::json::table;
use crate::json::texts;
use crate::json::Json;
use crate::opendata::base_text;
use crate::opendata::base_url;
use crate::opendata::format_part;
use crate::opendata::push_format;
use crate::opendata::ResponseFormat;
use crate::table::encoding_of;
use crate::table::read_rows;
use crate::table::rows_of_text;
use crate::table::sniff;
use crate::table::Encoding;
use crate::text::parse_unsigned;
use crate::text::span_of;
use crate::text::split_span;
use crate::text::trim;
use crate::text::trimmed;
use crate::text::unsigned_of;
use crate::time::decode_minute;
use crate::time::minute_of;
use crate::time::TimePoint;
use vstd::prelude::*;
use vstd::string::StringExecFns;

verus! {

/// The number of lightning strokes of one kind over one region in one span
/// of time.
#[derive(Clone, Debug)]
pub struct ResponseUnit {
    pub start_time: TimePoint,
    pub end_time: TimePoint,
    /// Cloud-to-ground or cloud-to-cloud.
    pub kind: String,
    pub region: String,
    pub count: u32,
}

/// What a `ResponseUnit` holds.
pub struct Count {
    pub start_time: TimePoint,
    pub end_time: TimePoint,
    pub kind: Seq<char>,
    pub region: Seq<char>,
    pub count: u32,
}

impl View for ResponseUnit {
    type V = Count;

    open spec fn view(&self) -> Count {
        Count {
            start_time: self.start_time,
            end_time: self.end_time,
            kind: self.kind@,
            region: self.region@,
            count: self.count,
        }
    }
}

/// Main response type.
#[derive(Clone, Debug)]
pub struct Response(pub Vec<ResponseUnit>);

/// What a list of units holds.
pub open spec fn counts(units: Seq<ResponseUnit>) -> Seq<Count> {
    Seq::new(units.len(), |i: int| units[i]@)
}

impl View for Response {
    type V = Seq<Count>;

    open spec fn view(&self) -> Seq<Count> {
        counts(self.0@)
    }
}

/// The count of one row: a span of two minutes, kind, region and number.
/// A row with fewer cells, with a span that is none, with an end of the
/// span that is no minute or with a count that is no number gives nothing.
pub open spec fn row_count(row: Seq<Seq<char>>) -> Option<Count> {
    if row.len() >= 4 && span_of(row[0]) is Some && minute_of(span_of(row[0])->Some_0.0) is Some
        && minute_of(span_of(row[0])->Some_0.1) is Some && unsigned_of(row[3]) is Some {
        Some(
            Count {
                start_time: minute_of(span_of(row[0])->Some_0.0)->Some_0,
                end_time: minute_of(span_of(row[0])->Some_0.1)->Some_0,
                kind: row[1],
                region: row[2],
                count: unsigned_of(row[3])->Some_0,
            },
        )
    } else {
        None
    }
}

/// The counts of all rows, in the order of the rows.
pub open spec fn table_counts(rows: Seq<Seq<Seq<char>>>) -> Seq<Count>
    decreases rows.len(),
{
    if rows.len() == 0 {
        seq![]
    } else {
        match row_count(rows.last()) {
            Some(c) => table_counts(rows.drop_last()).push(c),
            None => table_counts(rows.drop_last()),
        }
    }
}

/// What a JSON document decodes to.
pub open spec fn json_counts(doc: Json) -> Result<Seq<Count>, Failure> {
    match rows_in(doc) {
        Some(rows) => Ok(table_counts(rows)),
        None => Err(Failure::SourceFormat),
    }
}

/// What a delimited text decodes to.
pub open spec fn text_counts(s: Seq<char>) -> Seq<Count> {
    table_counts(rows_of_text(trimmed(s), false, false))
}

/// What a response body decodes to.
pub open spec fn body_counts(s: Seq<char>) -> Result<Seq<Count>, Failure> {
    match encoding_of(s) {
        None => Err(Failure::EarlyEOF),
        Some(Encoding::Json) => match json_document(s) {
            Some(doc) => json_counts(doc),
            None => Err(Failure::SourceFormat),
        },
        Some(Encoding::Tabular) => Ok(text_counts(s)),
    }
}

/// Decodes one row.
pub fn decode_row(row: &Vec<String>) -> (r: Option<ResponseUnit>)
    ensures
        r is Some <==> row_count(texts(row@)) is Some,
        r is Some ==> r->Some_0@ == row_count(texts(row@))->Some_0,
        r is Some ==> r->Some_0.start_time.wf() && r->Some_0.end_time.wf(),
{
    let ghost cells = texts(row@);
    if row.len() < 4 {
        return None;
    }
    assert(cells[0] == row@[0]@ && cells[1] == row@[1]@ && cells[2] == row@[2]@ && cells[3]
        == row@[3]@);
    let (first, second) = match split_span(row[0].as_str()) {
        Some(p) => p,
        None => {
            return None;
        },
    };
    let start_time: TimePoint = match decode_minute(first) {
        Some(t) => t,
        None => {
            return None;
        },
    };
    let end_time: TimePoint = match decode_minute(second) {
        Some(t) => t,
        None => {
            return None;
        },
    };
    let count: u32 = match parse_unsigned(row[3].as_str()) {
        Some(n) => n,
        None => {
            return None;
        },
    };
    Some(ResponseUnit { start_time, end_time, kind: row[1].clone(), region: row[2].clone(), count })
}

/// The address of a request.
pub open spec fn url_text(lang: Lang, format: Option<ResponseFormat>) -> Seq<char> {
    base_text() + "LHL"@ + "&lang="@ + lang.code_text() + format_part(format)
}

/// Builds the address of a request in a language.
pub fn url(lang: Lang, response_format: Option<ResponseFormat>) -> (r: String)
    ensures
        r@ == url_text(lang, response_format),
{
    let mut s: String = base_url("LHL");
    s.append("&lang=");
    s.append(lang.code());
    push_format(&mut s, response_format);
    s
}

impl Response {
    /// Decodes the rows of a table.
    pub fn from_rows(rows: &Vec<Vec<String>>) -> (r: Response)
        ensures
            r@ == table_counts(table(rows@)),
    {
        let mut out: Vec<ResponseUnit> = Vec::new();
        let ghost all = table(rows@);
        let mut i: usize = 0;
        assert(counts(out@) =~= seq![]);
        assert(all.subrange(0, 0) =~= seq![]);
        while i < rows.len()
            invariant
                i <= rows.len(),
                all == table(rows@),
                counts(out@) == table_counts(all.subrange(0, i as int)),
            decreases rows.len() - i,
        {
            let ghost before = counts(out@);
            proof {
                let p = all.subrange(0, i + 1);
                assert(p.drop_last() =~= all.subrange(0, i as int));
                assert(p.last() == texts(rows@[i as int]@));
            }
            match decode_row(&rows[i]) {
                Some(unit) => {
                    let ghost c = unit@;
                    out.push(unit);
                    assert(counts(out@) =~= before.push(c));
                },
                None => {},
            }
            i = i + 1;
        }
        assert(all.subrange(0, rows.len() as int) =~= all);
        Response(out)
    }

    /// Decodes a JSON document: the rows under `data`.
    pub fn from_json(doc: &Json) -> (r: Result<Response, DataError>)
        ensures
            r is Ok <==> json_counts(*doc) is Ok,
            r is Ok ==> r->Ok_0@ == json_counts(*doc)->Ok_0,
            r is Err ==> r->Err_0.kind() == json_counts(*doc)->Err_0,
    {
        match data_rows(doc) {
            Ok(rows) => Ok(Response::from_rows(&rows)),
            Err(e) => Err(e),
        }
    }

    /// Decodes delimited text.
    pub fn from_text(s: &str) -> (r: Response)
        ensures
            r@ == text_counts(s@),
    {
        let rows: Vec<Vec<String>> = read_rows(trim(s), false, false);
        Response::from_rows(&rows)
    }

    /// Decodes a response body, JSON or delimited text.
    pub fn from_str(s: &str) -> (r: Result<Response, DataError>)
        ensures
            r is Ok <==> body_counts(s@) is Ok,
            r is Ok ==> r->Ok_0@ == body_counts(s@)->Ok_0,
            r is Err ==> r->Err_0.kind() == body_counts(s@)->Err_0,
    {
        match sniff(s) {
            Err(e) => Err(e),
            Ok(Encoding::Json) => match crate::json::parse(s) {
                Ok(doc) => Response::from_json(&doc),
                Err(e) => Err(e),
            },
            Ok(Encoding::Tabular) => Ok(Response::from_text(s)),
        }
    }
}


/// The counts of two tables, one after the other, are the counts of the
/// first followed by those of the second.
pub proof fn lemma_tables_in_sequence(a: Seq<Seq<Seq<char>>>, b: Seq<Seq<Seq<char>>>)
    ensures
        table_counts(a + b) == table_counts(a) + table_counts(b),
    decreases b.len(),
{
    if b.len() == 0 {
        assert(a + b =~= a);
        assert(table_counts(a) + table_counts(b) =~= table_counts(a));
    } else {
        lemma_tables_in_sequence(a, b.drop_last());
        assert((a + b).drop_last() =~= a + b.drop_last());
        assert((a + b).last() == b.last());
        match row_count(b.last()) {
            Some(x) => {
                assert(table_counts(a + b) =~= table_counts(a) + table_counts(b));
            },
            None => {},
        }
    }
}

/// A row that is put into a table adds its own counts at its place and
/// leaves all others as they are, in their order. So a row that cannot be
/// read changes nothing, and a row that can be read adds exactly one.
pub proof fn lemma_row_inserted(rows: Seq<Seq<Seq<char>>>, i: int, row: Seq<Seq<char>>)
    requires
        0 <= i <= rows.len(),
    ensures
        table_counts(rows.insert(i, row)) == table_counts(rows.subrange(0, i)) + (match row_count(row) {
                Some(x) => seq![x],
                None => seq![],
            })
            + table_counts(rows.subrange(i, rows.len() as int)),
        table_counts(rows) == table_counts(rows.subrange(0, i)) + table_counts(
            rows.subrange(i, rows.len() as int),
        ),
        row_count(row) is None ==> table_counts(rows.insert(i, row)) == table_counts(rows),
        row_count(row) is Some ==> table_counts(rows.insert(i, row)).len() == table_counts(rows).len() + 1,
{
    let head = rows.subrange(0, i);
    let tail = rows.subrange(i, rows.len() as int);
    let one = seq![row];
    assert(rows =~= head + tail);
    assert(rows.insert(i, row) =~= (head + one) + tail);
    lemma_tables_in_sequence(head, tail);
    lemma_tables_in_sequence(head + one, tail);
    lemma_tables_in_sequence(head, one);
    assert(one.drop_last() =~= Seq::<Seq<Seq<char>>>::empty());
    assert(table_counts(Seq::<Seq<Seq<char>>>::empty()) =~= seq![]);
    assert(one.last() == row);
    assert(table_counts(one) =~= (match row_count(row) {
                Some(x) => seq![x],
                None => seq![],
            }));
    assert(table_counts(head) + seq![] =~= table_counts(head));
}

/// A first row of labels, which gives nothing, is as good as absent.
pub proof fn lemma_label_row_ignored(labels: Seq<Seq<char>>, rows: Seq<Seq<Seq<char>>>)
    requires
        row_count(labels) is None,
    ensures
        table_counts(seq![labels] + rows) == table_counts(rows),
{
    lemma_row_inserted(rows, 0, labels);
    assert(rows.insert(0, labels) =~= seq![labels] + rows);
}

/// A JSON body and a body of delimited text that hold the same rows decode
/// to the same counts.
pub proof fn lemma_encodings_agree(json: Seq<char>, text: Seq<char>)
    requires
        encoding_of(json) == Some(Encoding::Json),
        encoding_of(text) == Some(Encoding::Tabular),
        json_document(json) is Some,
        rows_in(json_document(json)->Some_0) == Some(rows_of_text(trimmed(text), false, false)),
    ensures
        body_counts(json) == body_counts(text),
{
}

} // verus!
