//! Predicted tidal information: times and heights of astronomical high and
//! low tides.

use crate::common::decimal_digits;
use crate::common::decimal_text;
use crate::common::signed_digits;
use crate::common::signed_text;
use crate::error::APIRequestError;
use crate::error::DataError;
use crate::error::Failure;
use crate::json::data_rows;
use crate::json::json_document;
use crate::json::rows_in;
use crate::json::table;
use crate::json::texts;
use crate::json::Json;
use crate::opendata::base_text;
use crate::opendata::base_url;
use crate::opendata::format_part;
use crate::opendata::push_format;
use crate::opendata::ResponseFormat;
use crate::opendata::SeaStation;
use crate::table::encoding_of;
use crate::table::read_rows;
use crate::table::rows_of_text;
use crate::table::sniff;
use crate::table::Encoding;
use crate::text::is_float;
use crate::text::is_float_text;
use crate::text::parse_unsigned;
use crate::text::trim;
use crate::text::trimmed;
use crate::text::unsigned_of;
use vstd::prelude::*;
use vstd::string::StringExecFns;

verus! {

/// A high or a low tide: when it comes and how high it stands. The height is
/// the decimal text of a number of metres.
#[derive(Clone, Debug)]
pub struct ResponseUnit {
    pub month: u32,
    pub day: u32,
    pub hour: u32,
    pub minute: u32,
    pub height: String,
}

/// What a `ResponseUnit` holds.
pub struct Event {
    pub month: u32,
    pub day: u32,
    pub hour: u32,
    pub minute: u32,
    pub height: Seq<char>,
}

impl View for ResponseUnit {
    type V = Event;

    open spec fn view(&self) -> Event {
        Event {
            month: self.month,
            day: self.day,
            hour: self.hour,
            minute: self.minute,
            height: self.height@,
        }
    }
}

/// Main response type.
#[derive(Clone, Debug)]
pub struct Response(pub Vec<ResponseUnit>);

/// What a list of units holds.
pub open spec fn events(units: Seq<ResponseUnit>) -> Seq<Event> {
    Seq::new(units.len(), |i: int| units[i]@)
}

impl View for Response {
    type V = Seq<Event>;

    open spec fn view(&self) -> Seq<Event> {
        events(self.0@)
    }
}

/// The events of the first `n` pairs of cells after month and day. A pair is
/// a time, packed as hours times a hundred plus minutes, and a height; a pair
/// whose time is no number or whose height is no number gives no event.
pub open spec fn pair_events(month: u32, day: u32, row: Seq<Seq<char>>, n: int) -> Seq<Event>
    decreases n,
{
    if n <= 0 || 2 * n + 1 >= row.len() {
        seq![]
    } else {
        let before = pair_events(month, day, row, n - 1);
        if unsigned_of(row[2 * n]) is Some && is_float_text(row[2 * n + 1]) {
            let time = unsigned_of(row[2 * n])->Some_0;
            before.push(
                Event { month, day, hour: time / 100, minute: time % 100, height: row[2 * n + 1] },
            )
        } else {
            before
        }
    }
}

/// The events of one row: none unless month and day are numbers.
pub open spec fn row_events(row: Seq<Seq<char>>) -> Seq<Event> {
    if row.len() >= 2 && unsigned_of(row[0]) is Some && unsigned_of(row[1]) is Some {
        pair_events(
            unsigned_of(row[0])->Some_0,
            unsigned_of(row[1])->Some_0,
            row,
            (row.len() - 2) / 2,
        )
    } else {
        seq![]
    }
}

/// The events of all rows, in the order of the rows.
pub open spec fn table_events(rows: Seq<Seq<Seq<char>>>) -> Seq<Event>
    decreases rows.len(),
{
    if rows.len() == 0 {
        seq![]
    } else {
        table_events(rows.drop_last()) + row_events(rows.last())
    }
}

/// What a JSON document decodes to.
pub open spec fn json_events(doc: Json) -> Result<Seq<Event>, Failure> {
    match rows_in(doc) {
        Some(rows) => Ok(table_events(rows)),
        None => Err(Failure::SourceFormat),
    }
}

/// What a delimited text decodes to.
pub open spec fn text_events(s: Seq<char>) -> Seq<Event> {
    table_events(rows_of_text(trimmed(s), false, false))
}

/// What a response body decodes to.
pub open spec fn body_events(s: Seq<char>) -> Result<Seq<Event>, Failure> {
    match encoding_of(s) {
        None => Err(Failure::EarlyEOF),
        Some(Encoding::Json) => match json_document(s) {
            Some(doc) => json_events(doc),
            None => Err(Failure::SourceFormat),
        },
        Some(Encoding::Tabular) => Ok(text_events(s)),
    }
}

fn decode_row(row: &Vec<String>, out: &mut Vec<ResponseUnit>)
    ensures
        events(final(out)@) == events(old(out)@) + row_events(texts(row@)),
{
    let ghost cells = texts(row@);
    let ghost start = events(out@);
    assert(start + Seq::<Event>::empty() =~= start);
    if row.len() < 2 {
        return ;
    }
    assert(cells[0] == row@[0]@ && cells[1] == row@[1]@);
    let month: u32 = match parse_unsigned(row[0].as_str()) {
        Some(m) => m,
        None => {
            return ;
        },
    };
    let day: u32 = match parse_unsigned(row[1].as_str()) {
        Some(d) => d,
        None => {
            return ;
        },
    };
    let pairs: usize = (row.len() - 2) / 2;
    let mut n: usize = 0;
    while n < pairs
        invariant
            n <= pairs,
            pairs == (row.len() - 2) / 2,
            row.len() >= 2,
            cells == texts(row@),
            events(out@) == start + pair_events(month, day, cells, n as int),
        decreases pairs - n,
    {
        let ghost before = events(out@);
        let k: usize = 2 * (n + 1);
        assert(cells[k as int] == row@[k as int]@);
        assert(cells[k + 1] == row@[k + 1]@);
        match parse_unsigned(row[k].as_str()) {
            Some(time) => {
                if is_float(row[k + 1].as_str()) {
                    out.push(
                        ResponseUnit {
                            month,
                            day,
                            hour: time / 100,
                            minute: time % 100,
                            height: row[k + 1].clone(),
                        },
                    );
                    assert(events(out@) =~= before.push(
                        Event {
                            month,
                            day,
                            hour: time / 100,
                            minute: time % 100,
                            height: cells[k + 1],
                        },
                    ));
                }
            },
            None => {},
        }
        n = n + 1;
        assert(events(out@) =~= start + pair_events(month, day, cells, n as int));
    }
}

/// Why a request cannot be made, if it cannot: the year is outside 2021 to
/// 2024.
pub open spec fn url_fault(year: i32) -> Option<Seq<char>> {
    if !(2021 <= year <= 2024) {
        Some("year must be 2021-2024, got "@ + signed_digits(year as int))
    } else {
        None
    }
}

/// The address of a request that can be made.
pub open spec fn url_text(station: SeaStation, year: i32, format: Option<ResponseFormat>) -> Seq<
    char,
> {
    base_text() + "HLT"@ + "&station="@ + station.code_text() + "&year="@ + decimal_digits(
        year as nat,
    ) + format_part(format)
}

/// Builds the address of a request for the high and low tides of a station
/// in a year.
pub fn url(station: SeaStation, year: i32, response_format: Option<ResponseFormat>) -> (r: Result<
    String,
    APIRequestError,
>)
    ensures
        match url_fault(year) {
            Some(why) => r is Err && r->Err_0.0@ == why,
            None => r is Ok && r->Ok_0@ == url_text(station, year, response_format),
        },
{
    if year < 2021 || year > 2024 {
        let got: String = signed_text(year);
        return Err(
            APIRequestError(String::from_str("year must be 2021-2024, got ").concat(got.as_str())),
        );
    }
    let mut s: String = base_url("HLT");
    s.append("&station=");
    s.append(station.code());
    s.append("&year=");
    let digits: String = decimal_text(year as u32);
    s.append(digits.as_str());
    push_format(&mut s, response_format);
    Ok(s)
}

impl Response {
    /// Decodes the rows of a table.
    pub fn from_rows(rows: &Vec<Vec<String>>) -> (r: Response)
        ensures
            r@ == table_events(table(rows@)),
    {
        let mut out: Vec<ResponseUnit> = Vec::new();
        let ghost all = table(rows@);
        let mut i: usize = 0;
        assert(events(out@) =~= seq![]);
        assert(all.subrange(0, 0) =~= seq![]);
        while i < rows.len()
            invariant
                i <= rows.len(),
                all == table(rows@),
                events(out@) == table_events(all.subrange(0, i as int)),
            decreases rows.len() - i,
        {
            proof {
                let p = all.subrange(0, i + 1);
                assert(p.drop_last() =~= all.subrange(0, i as int));
                assert(p.last() == texts(rows@[i as int]@));
            }
            decode_row(&rows[i], &mut out);
            i = i + 1;
        }
        assert(all.subrange(0, rows.len() as int) =~= all);
        Response(out)
    }

    /// Decodes a JSON document: the rows under `data`.
    pub fn from_json(doc: &Json) -> (r: Result<Response, DataError>)
        ensures
            r is Ok <==> json_events(*doc) is Ok,
            r is Ok ==> r->Ok_0@ == json_events(*doc)->Ok_0,
            r is Err ==> r->Err_0.kind() == json_events(*doc)->Err_0,
    {
        match data_rows(doc) {
            Ok(rows) => Ok(Response::from_rows(&rows)),
            Err(e) => Err(e),
        }
    }

    /// Decodes delimited text.
    pub fn from_text(s: &str) -> (r: Response)
        ensures
            r@ == text_events(s@),
    {
        let rows: Vec<Vec<String>> = read_rows(trim(s), false, false);
        Response::from_rows(&rows)
    }

    /// Decodes a response body, JSON or delimited text.
    pub fn from_str(s: &str) -> (r: Result<Response, DataError>)
        ensures
            r is Ok <==> body_events(s@) is Ok,
            r is Ok ==> r->Ok_0@ == body_events(s@)->Ok_0,
            r is Err ==> r->Err_0.kind() == body_events(s@)->Err_0,
    {
        match sniff(s) {
            Err(e) => Err(e),
            Ok(Encoding::Json) => match crate::json::parse(s) {
                Ok(doc) => Response::from_json(&doc),
                Err(e) => Err(e),
            },
            Ok(Encoding::Tabular) => Ok(Response::from_text(s)),
        }
    }
}


/// The events of two tables, one after the other, are the events of the
/// first followed by those of the second.
pub proof fn lemma_tables_in_sequence(a: Seq<Seq<Seq<char>>>, b: Seq<Seq<Seq<char>>>)
    ensures
        table_events(a + b) == table_events(a) + table_events(b),
    decreases b.len(),
{
    if b.len() == 0 {
        assert(a + b =~= a);
        assert(table_events(a) + table_events(b) =~= table_events(a));
    } else {
        lemma_tables_in_sequence(a, b.drop_last());
        assert((a + b).drop_last() =~= a + b.drop_last());
        assert((a + b).last() == b.last());
        assert(table_events(a + b) =~= table_events(a) + table_events(b));
    }
}

/// A row that is put into a table adds its own events at its place and
/// leaves all others as they are, in their order. So a row that cannot be
/// read changes nothing.
pub proof fn lemma_row_inserted(rows: Seq<Seq<Seq<char>>>, i: int, row: Seq<Seq<char>>)
    requires
        0 <= i <= rows.len(),
    ensures
        table_events(rows.insert(i, row)) == table_events(rows.subrange(0, i)) + (row_events(row))
            + table_events(rows.subrange(i, rows.len() as int)),
        table_events(rows) == table_events(rows.subrange(0, i)) + table_events(
            rows.subrange(i, rows.len() as int),
        ),
        row_events(row).len() == 0 ==> table_events(rows.insert(i, row)) == table_events(rows),
        table_events(rows.insert(i, row)).len() == table_events(rows).len() + row_events(row).len(),
{
    let head = rows.subrange(0, i);
    let tail = rows.subrange(i, rows.len() as int);
    let one = seq![row];
    assert(rows =~= head + tail);
    assert(rows.insert(i, row) =~= (head + one) + tail);
    lemma_tables_in_sequence(head, tail);
    lemma_tables_in_sequence(head + one, tail);
    lemma_tables_in_sequence(head, one);
    assert(one.drop_last() =~= Seq::<Seq<Seq<char>>>::empty());
    assert(table_events(Seq::<Seq<Seq<char>>>::empty()) =~= seq![]);
    assert(one.last() == row);
    assert(table_events(one) =~= (row_events(row)));
    assert(table_events(head) + seq![] =~= table_events(head));
}

/// A first row of labels, which gives nothing, is as good as absent.
pub proof fn lemma_label_row_ignored(labels: Seq<Seq<char>>, rows: Seq<Seq<Seq<char>>>)
    requires
        row_events(labels).len() == 0,
    ensures
        table_events(seq![labels] + rows) == table_events(rows),
{
    lemma_row_inserted(rows, 0, labels);
    assert(rows.insert(0, labels) =~= seq![labels] + rows);
}

/// A JSON body and a body of delimited text that hold the same rows decode
/// to the same events.
pub proof fn lemma_encodings_agree(json: Seq<char>, text: Seq<char>)
    requires
        encoding_of(json) == Some(Encoding::Json),
        encoding_of(text) == Some(Encoding::Tabular),
        json_document(json) is Some,
        rows_in(json_document(json)->Some_0) == Some(rows_of_text(trimmed(text), false, false)),
    ensures
        body_events(json) == body_events(text),
{
}

} // verus!
