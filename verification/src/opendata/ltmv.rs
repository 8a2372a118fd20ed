//! Regional weather in Hong Kong: the latest ten-minute mean visibility.

use crate::common::Lang;
use crate::common::ValUnit;
use crate::deserialize::deserialize_value_unit;
use crate::deserialize::value_unit_of;
use crate::error::DataError;
use crate::error::Failure;
use crate::json::data_rows;
use crate::json::json_document;
use crate::json::rows_in;
use crate::json::table;
use crate::json::texts;
use crate::json::Json;
use crate::opendata::base_text;
use crate::opendata::base_url;
use crate::opendata::format_part;
use crate::opendata::push_format;
use crate::opendata::ResponseFormat;
use crate::table::encoding_of;
use crate::table::read_rows;
use crate::table::rows_of_text;
use crate::table::sniff;
use crate::table::Encoding;
use crate::text::trim;
use crate::text::trimmed;
use crate::time::decode_minute;
use crate::time::minute_of;
use crate::time::TimePoint;
use vstd::prelude::*;
use vstd::string::StringExecFns;

verus! {

/// The visibility at one station at one time. The value of the visibility
/// is the decimal text of a number.
#[derive(Clone, Debug)]
pub struct ResponseUnit {
    pub time: TimePoint,
    pub station: String,
    pub visibility: ValUnit,
}

/// What a `ResponseUnit` holds.
pub struct Sighting {
    pub time: TimePoint,
    pub station: Seq<char>,
    pub value: Seq<char>,
    pub unit: Seq<char>,
}

impl View for ResponseUnit {
    type V = Sighting;

    open spec fn view(&self) -> Sighting {
        Sighting {
            time: self.time,
            station: self.station@,
            value: self.visibility.value@,
            unit: self.visibility.unit@,
        }
    }
}

/// Main response type.
#[derive(Clone, Debug)]
pub struct Response(pub Vec<ResponseUnit>);

/// What a list of units holds.
pub open spec fn sightings(units: Seq<ResponseUnit>) -> Seq<Sighting> {
    Seq::new(units.len(), |i: int| units[i]@)
}

impl View for Response {
    type V = Seq<Sighting>;

    open spec fn view(&self) -> Seq<Sighting> {
        sightings(self.0@)
    }
}

/// The sighting of one row: a minute, a station and a number with its
/// unit. A row with fewer cells, with a time that is no minute or with a
/// visibility that starts with no number gives nothing.
pub open spec fn row_sighting(row: Seq<Seq<char>>) -> Option<Sighting> {
    if row.len() >= 3 && minute_of(row[0]) is Some && value_unit_of(row[2]) is Some {
        Some(
            Sighting {
                time: minute_of(row[0])->Some_0,
                station: row[1],
                value: value_unit_of(row[2])->Some_0.0,
                unit: value_unit_of(row[2])->Some_0.1,
            },
        )
    } else {
        None
    }
}

/// The sightings of all rows, in the order of the rows.
pub open spec fn table_sightings(rows: Seq<Seq<Seq<char>>>) -> Seq<Sighting>
    decreases rows.len(),
{
    if rows.len() == 0 {
        seq![]
    } else {
        match row_sighting(rows.last()) {
            Some(c) => table_sightings(rows.drop_last()).push(c),
            None => table_sightings(rows.drop_last()),
        }
    }
}

/// What a JSON document decodes to.
pub open spec fn json_sightings(doc: Json) -> Result<Seq<Sighting>, Failure> {
    match rows_in(doc) {
        Some(rows) => Ok(table_sightings(rows)),
        None => Err(Failure::SourceFormat),
    }
}

/// What a delimited text decodes to.
pub open spec fn text_sightings(s: Seq<char>) -> Seq<Sighting> {
    table_sightings(rows_of_text(trimmed(s), false, false))
}

/// What a response body decodes to.
pub open spec fn body_sightings(s: Seq<char>) -> Result<Seq<Sighting>, Failure> {
    match encoding_of(s) {
        None => Err(Failure::EarlyEOF),
        Some(Encoding::Json) => match json_document(s) {
            Some(doc) => json_sightings(doc),
            None => Err(Failure::SourceFormat),
        },
        Some(Encoding::Tabular) => Ok(text_sightings(s)),
    }
}

/// Decodes one row.
pub fn decode_row(row: &Vec<String>) -> (r: Option<ResponseUnit>)
    ensures
        r is Some <==> row_sighting(texts(row@)) is Some,
        r is Some ==> r->Some_0@ == row_sighting(texts(row@))->Some_0,
        r is Some ==> r->Some_0.time.wf(),
{
    let ghost cells = texts(row@);
    if row.len() < 3 {
        return None;
    }
    assert(cells[0] == row@[0]@ && cells[1] == row@[1]@ && cells[2] == row@[2]@);
    let time: TimePoint = match decode_minute(row[0].as_str()) {
        Some(t) => t,
        None => {
            return None;
        },
    };
    let visibility: ValUnit = match deserialize_value_unit(row[2].as_str()) {
        Ok(v) => v,
        Err(_) => {
            return None;
        },
    };
    Some(ResponseUnit { time, station: row[1].clone(), visibility })
}

/// The address of a request.
pub open spec fn url_text(lang: Lang, format: Option<ResponseFormat>) -> Seq<char> {
    base_text() + "LTMV"@ + "&lang="@ + lang.code_text() + format_part(format)
}

/// Builds the address of a request in a language.
pub fn url(lang: &Lang, response_format: Option<ResponseFormat>) -> (r: String)
    ensures
        r@ == url_text(*lang, response_format),
{
    let mut s: String = base_url("LTMV");
    s.append("&lang=");
    s.append(lang.code());
    push_format(&mut s, response_format);
    s
}

impl Response {
    /// Decodes the rows of a table.
    pub fn from_rows(rows: &Vec<Vec<String>>) -> (r: Response)
        ensures
            r@ == table_sightings(table(rows@)),
    {
        let mut out: Vec<ResponseUnit> = Vec::new();
        let ghost all = table(rows@);
        let mut i: usize = 0;
        assert(sightings(out@) =~= seq![]);
        assert(all.subrange(0, 0) =~= seq![]);
        while i < rows.len()
            invariant
                i <= rows.len(),
                all == table(rows@),
                sightings(out@) == table_sightings(all.subrange(0, i as int)),
            decreases rows.len() - i,
        {
            let ghost before = sightings(out@);
            proof {
                let p = all.subrange(0, i + 1);
                assert(p.drop_last() =~= all.subrange(0, i as int));
                assert(p.last() == texts(rows@[i as int]@));
            }
            match decode_row(&rows[i]) {
                Some(unit) => {
                    let ghost c = unit@;
                    out.push(unit);
                    assert(sightings(out@) =~= before.push(c));
                },
                None => {},
            }
            i = i + 1;
        }
        assert(all.subrange(0, rows.len() as int) =~= all);
        Response(out)
    }

    /// Decodes a JSON document: the rows under `data`.
    pub fn from_json(doc: &Json) -> (r: Result<Response, DataError>)
        ensures
            r is Ok <==> json_sightings(*doc) is Ok,
            r is Ok ==> r->Ok_0@ == json_sightings(*doc)->Ok_0,
            r is Err ==> r->Err_0.kind() == json_sightings(*doc)->Err_0,
    {
        match data_rows(doc) {
            Ok(rows) => Ok(Response::from_rows(&rows)),
            Err(e) => Err(e),
        }
    }

    /// Decodes delimited text.
    pub fn from_text(s: &str) -> (r: Response)
        ensures
            r@ == text_sightings(s@),
    {
        let rows: Vec<Vec<String>> = read_rows(trim(s), false, false);
        Response::from_rows(&rows)
    }

    /// Decodes a response body, JSON or delimited text.
    pub fn from_str(s: &str) -> (r: Result<Response, DataError>)
        ensures
            r is Ok <==> body_sightings(s@) is Ok,
            r is Ok ==> r->Ok_0@ == body_sightings(s@)->Ok_0,
            r is Err ==> r->Err_0.kind() == body_sightings(s@)->Err_0,
    {
        match sniff(s) {
            Err(e) => Err(e),
            Ok(Encoding::Json) => match crate::json::parse(s) {
                Ok(doc) => Response::from_json(&doc),
                Err(e) => Err(e),
            },
            Ok(Encoding::Tabular) => Ok(Response::from_text(s)),
        }
    }
}


/// The sightings of two tables, one after the other, are the sightings of the
/// first followed by those of the second.
pub proof fn lemma_tables_in_sequence(a: Seq<Seq<Seq<char>>>, b: Seq<Seq<Seq<char>>>)
    ensures
        table_sightings(a + b) == table_sightings(a) + table_sightings(b),
    decreases b.len(),
{
    if b.len() == 0 {
        assert(a + b =~= a);
        assert(table_sightings(a) + table_sightings(b) =~= table_sightings(a));
    } else {
        lemma_tables_in_sequence(a, b.drop_last());
        assert((a + b).drop_last() =~= a + b.drop_last());
        assert((a + b).last() == b.last());
        match row_sighting(b.last()) {
            Some(x) => {
                assert(table_sightings(a + b) =~= table_sightings(a) + table_sightings(b));
            },
            None => {},
        }
    }
}

/// A row that is put into a table adds its own sightings at its place and
/// leaves all others as they are, in their order. So a row that cannot be
/// read changes nothing, and a row that can be read adds exactly one.
pub proof fn lemma_row_inserted(rows: Seq<Seq<Seq<char>>>, i: int, row: Seq<Seq<char>>)
    requires
        0 <= i <= rows.len(),
    ensures
        table_sightings(rows.insert(i, row)) == table_sightings(rows.subrange(0, i)) + (match row_sighting(row) {
                Some(x) => seq![x],
                None => seq![],
            })
            + table_sightings(rows.subrange(i, rows.len() as int)),
        table_sightings(rows) == table_sightings(rows.subrange(0, i)) + table_sightings(
            rows.subrange(i, rows.len() as int),
        ),
        row_sighting(row) is None ==> table_sightings(rows.insert(i, row)) == table_sightings(rows),
        row_sighting(row) is Some ==> table_sightings(rows.insert(i, row)).len() == table_sightings(rows).len() + 1,
{
    let head = rows.subrange(0, i);
    let tail = rows.subrange(i, rows.len() as int);
    let one = seq![row];
    assert(rows =~= head + tail);
    assert(rows.insert(i, row) =~= (head + one) + tail);
    lemma_tables_in_sequence(head, tail);
    lemma_tables_in_sequence(head + one, tail);
    lemma_tables_in_sequence(head, one);
    assert(one.drop_last() =~= Seq::<Seq<Seq<char>>>::empty());
    assert(table_sightings(Seq::<Seq<Seq<char>>>::empty()) =~= seq![]);
    assert(one.last() == row);
    assert(table_sightings(one) =~= (match row_sighting(row) {
                Some(x) => seq![x],
                None => seq![],
            }));
    assert(table_sightings(head) + seq![] =~= table_sightings(head));
}

/// A first row of labels, which gives nothing, is as good as absent.
pub proof fn lemma_label_row_ignored(labels: Seq<Seq<char>>, rows: Seq<Seq<Seq<char>>>)
    requires
        row_sighting(labels) is None,
    ensures
        table_sightings(seq![labels] + rows) == table_sightings(rows),
{
    lemma_row_inserted(rows, 0, labels);
    assert(rows.insert(0, labels) =~= seq![labels] + rows);
}

/// A JSON body and a body of delimited text that hold the same rows decode
/// to the same sightings.
pub proof fn lemma_encodings_agree(json: Seq<char>, text: Seq<char>)
    requires
        encoding_of(json) == Some(Encoding::Json),
        encoding_of(text) == Some(Encoding::Tabular),
        json_document(json) is Some,
        rows_in(json_document(json)->Some_0) == Some(rows_of_text(trimmed(text), false, false)),
    ensures
        body_sightings(json) == body_sightings(text),
{
}

} // verus!
