//! Times of rise, transit and set of the sun and of the moon.

use crate::common::decimal_digits;
use crate::common::decimal_text;
use crate::error::APIRequestError;
use crate::error::DataError;
use crate::error::Failure;
use crate::json::data_rows;
use crate::json::json_document;
use crate::json::rows_in;
use crate::json::table;
use crate::json::texts;
use crate::json::Json;
use crate::opendata::base_text;
use crate::opendata::base_url;
use crate::opendata::format_part;
use crate::opendata::number_part;
use crate::opendata::push_format;
use crate::opendata::push_number;
use crate::opendata::ResponseFormat;
use crate::table::encoding_of;
use crate::table::read_rows;
use crate::table::rows_of_text;
use crate::table::sniff;
use crate::table::Encoding;
use crate::text::trim;
use crate::text::trimmed;
use crate::time::decode_rfc3339;
use crate::time::rfc3339_time;
use crate::time::TimePoint;
use vstd::prelude::*;
use vstd::string::StringExecFns;

verus! {

/// When a body rises, crosses the meridian and sets on one day.
#[derive(Clone, Copy, Debug, PartialEq, Eq, Structural)]
pub struct ResponseUnit {
    pub rise: TimePoint,
    pub transit: TimePoint,
    pub set: TimePoint,
}

impl View for ResponseUnit {
    type V = ResponseUnit;

    open spec fn view(&self) -> ResponseUnit {
        *self
    }
}

/// Main response type.
#[derive(Clone, Debug)]
pub struct Response(pub Vec<ResponseUnit>);

/// What a list of units holds.
pub open spec fn times(units: Seq<ResponseUnit>) -> Seq<ResponseUnit> {
    Seq::new(units.len(), |i: int| units[i]@)
}

impl View for Response {
    type V = Seq<ResponseUnit>;

    open spec fn view(&self) -> Seq<ResponseUnit> {
        times(self.0@)
    }
}

/// The RFC 3339 text of a time of day, `HH:MM`, on a date, `YYYY-MM-DD`, in
/// Hong Kong.
pub open spec fn stamp_text(date: Seq<char>, time: Seq<char>) -> Seq<char> {
    date + "T"@ + time + ":00+08:00"@
}

/// The time of day `time` on the date `date` in Hong Kong.
pub open spec fn stamp_of(date: Seq<char>, time: Seq<char>) -> Option<TimePoint> {
    rfc3339_time(stamp_text(date, time))
}

/// The times of one row: a date and three times of day. A row of more or
/// fewer than four cells, or with a time that cannot be read, gives nothing.
pub open spec fn row_times(row: Seq<Seq<char>>) -> Option<ResponseUnit> {
    if row.len() == 4 && stamp_of(row[0], row[1]) is Some && stamp_of(row[0], row[2]) is Some
        && stamp_of(row[0], row[3]) is Some {
        Some(
            ResponseUnit {
                rise: stamp_of(row[0], row[1])->Some_0,
                transit: stamp_of(row[0], row[2])->Some_0,
                set: stamp_of(row[0], row[3])->Some_0,
            },
        )
    } else {
        None
    }
}

/// The times of all rows, in the order of the rows.
pub open spec fn table_times(rows: Seq<Seq<Seq<char>>>) -> Seq<ResponseUnit>
    decreases rows.len(),
{
    if rows.len() == 0 {
        seq![]
    } else {
        match row_times(rows.last()) {
            Some(c) => table_times(rows.drop_last()).push(c),
            None => table_times(rows.drop_last()),
        }
    }
}

/// What a JSON document decodes to.
pub open spec fn json_times(doc: Json) -> Result<Seq<ResponseUnit>, Failure> {
    match rows_in(doc) {
        Some(rows) => Ok(table_times(rows)),
        None => Err(Failure::SourceFormat),
    }
}

/// What a delimited text decodes to.
pub open spec fn text_times(s: Seq<char>) -> Seq<ResponseUnit> {
    table_times(rows_of_text(trimmed(s), false, false))
}

/// What a response body decodes to.
pub open spec fn body_times(s: Seq<char>) -> Result<Seq<ResponseUnit>, Failure> {
    match encoding_of(s) {
        None => Err(Failure::EarlyEOF),
        Some(Encoding::Json) => match json_document(s) {
            Some(doc) => json_times(doc),
            None => Err(Failure::SourceFormat),
        },
        Some(Encoding::Tabular) => Ok(text_times(s)),
    }
}

/// Decodes a time of day on a date in Hong Kong.
pub fn decode_stamp(date: &str, time: &str) -> (r: Option<TimePoint>)
    ensures
        r == stamp_of(date@, time@),
        r is Some ==> r->Some_0.wf(),
{
    let mut s: String = String::from_str(date);
    s.append("T");
    s.append(time);
    s.append(":00+08:00");
    decode_rfc3339(s.as_str())
}

/// Decodes one row.
pub fn decode_row(row: &Vec<String>) -> (r: Option<ResponseUnit>)
    ensures
        r is Some <==> row_times(texts(row@)) is Some,
        r is Some ==> r->Some_0@ == row_times(texts(row@))->Some_0,
        r is Some ==> r->Some_0.rise.wf() && r->Some_0.transit.wf() && r->Some_0.set.wf(),
{
    let ghost cells = texts(row@);
    if row.len() != 4 {
        return None;
    }
    assert(cells[0] == row@[0]@ && cells[1] == row@[1]@ && cells[2] == row@[2]@ && cells[3]
        == row@[3]@);
    let rise: TimePoint = match decode_stamp(row[0].as_str(), row[1].as_str()) {
        Some(t) => t,
        None => {
            return None;
        },
    };
    let transit: TimePoint = match decode_stamp(row[0].as_str(), row[2].as_str()) {
        Some(t) => t,
        None => {
            return None;
        },
    };
    let set: TimePoint = match decode_stamp(row[0].as_str(), row[3].as_str()) {
        Some(t) => t,
        None => {
            return None;
        },
    };
    Some(ResponseUnit { rise, transit, set })
}

/// Why a request cannot be made, if it cannot: the year is outside 2018 to
/// 2024, the month outside 1 to 12, or a day is given outside 1 to 31 or
/// without a month.
pub open spec fn url_fault(year: i32, month: Option<u32>, day: Option<u32>) -> Option<Seq<char>> {
    if !(2018 <= year <= 2024) {
        Some("year must be 2018-2024"@)
    } else if month is Some && !(1 <= month->Some_0 <= 12) {
        Some("month must be 1-12"@)
    } else if day is Some && (!(1 <= day->Some_0 <= 31) || month is None) {
        Some("day must be 1-31 and month must be specified"@)
    } else {
        None
    }
}

/// The address of a request for the dataset `datatype` that can be made.
pub open spec fn url_text(
    datatype: Seq<char>,
    year: i32,
    month: Option<u32>,
    day: Option<u32>,
    format: Option<ResponseFormat>,
) -> Seq<char> {
    base_text() + datatype + "&year="@ + decimal_digits(year as nat) + format_part(format)
        + number_part("&month="@, month) + number_part("&day="@, day)
}

/// Builds the address of a request for the dataset `datatype` for a year, or
/// a month or a day of it.
pub fn url_for(
    datatype: &str,
    year: i32,
    month: Option<u32>,
    day: Option<u32>,
    response_format: Option<ResponseFormat>,
) -> (r: Result<String, APIRequestError>)
    ensures
        match url_fault(year, month, day) {
            Some(why) => r is Err && r->Err_0.0@ == why,
            None => r is Ok && r->Ok_0@ == url_text(datatype@, year, month, day, response_format),
        },
{
    if year < 2018 || year > 2024 {
        return Err(APIRequestError(String::from_str("year must be 2018-2024")));
    }
    if let Some(m) = month {
        if m < 1 || m > 12 {
            return Err(APIRequestError(String::from_str("month must be 1-12")));
        }
    }
    if let Some(d) = day {
        if d < 1 || d > 31 || month.is_none() {
            return Err(
                APIRequestError(String::from_str("day must be 1-31 and month must be specified")),
            );
        }
    }
    let mut s: String = base_url(datatype);
    s.append("&year=");
    let digits: String = decimal_text(year as u32);
    s.append(digits.as_str());
    push_format(&mut s, response_format);
    push_number(&mut s, "&month=", month);
    push_number(&mut s, "&day=", day);
    Ok(s)
}

impl Response {
    /// Decodes the rows of a table.
    pub fn from_rows(rows: &Vec<Vec<String>>) -> (r: Response)
        ensures
            r@ == table_times(table(rows@)),
    {
        let mut out: Vec<ResponseUnit> = Vec::new();
        let ghost all = table(rows@);
        let mut i: usize = 0;
        assert(times(out@) =~= seq![]);
        assert(all.subrange(0, 0) =~= seq![]);
        while i < rows.len()
            invariant
                i <= rows.len(),
                all == table(rows@),
                times(out@) == table_times(all.subrange(0, i as int)),
            decreases rows.len() - i,
        {
            let ghost before = times(out@);
            proof {
                let p = all.subrange(0, i + 1);
                assert(p.drop_last() =~= all.subrange(0, i as int));
                assert(p.last() == texts(rows@[i as int]@));
            }
            match decode_row(&rows[i]) {
                Some(unit) => {
                    let ghost c = unit@;
                    out.push(unit);
                    assert(times(out@) =~= before.push(c));
                },
                None => {},
            }
            i = i + 1;
        }
        assert(all.subrange(0, rows.len() as int) =~= all);
        Response(out)
    }

    /// Decodes a JSON document: the rows under `data`.
    pub fn from_json(doc: &Json) -> (r: Result<Response, DataError>)
        ensures
            r is Ok <==> json_times(*doc) is Ok,
            r is Ok ==> r->Ok_0@ == json_times(*doc)->Ok_0,
            r is Err ==> r->Err_0.kind() == json_times(*doc)->Err_0,
    {
        match data_rows(doc) {
            Ok(rows) => Ok(Response::from_rows(&rows)),
            Err(e) => Err(e),
        }
    }

    /// Decodes delimited text.
    pub fn from_text(s: &str) -> (r: Response)
        ensures
            r@ == text_times(s@),
    {
        let rows: Vec<Vec<String>> = read_rows(trim(s), false, false);
        Response::from_rows(&rows)
    }

    /// Decodes a response body, JSON or delimited text.
    pub fn from_str(s: &str) -> (r: Result<Response, DataError>)
        ensures
            r is Ok <==> body_times(s@) is Ok,
            r is Ok ==> r->Ok_0@ == body_times(s@)->Ok_0,
            r is Err ==> r->Err_0.kind() == body_times(s@)->Err_0,
    {
        match sniff(s) {
            Err(e) => Err(e),
            Ok(Encoding::Json) => match crate::json::parse(s) {
                Ok(doc) => Response::from_json(&doc),
                Err(e) => Err(e),
            },
            Ok(Encoding::Tabular) => Ok(Response::from_text(s)),
        }
    }
}


/// The times of two tables, one after the other, are the times of the
/// first followed by those of the second.
pub proof fn lemma_tables_in_sequence(a: Seq<Seq<Seq<char>>>, b: Seq<Seq<Seq<char>>>)
    ensures
        table_times(a + b) == table_times(a) + table_times(b),
    decreases b.len(),
{
    if b.len() == 0 {
        assert(a + b =~= a);
        assert(table_times(a) + table_times(b) =~= table_times(a));
    } else {
        lemma_tables_in_sequence(a, b.drop_last());
        assert((a + b).drop_last() =~= a + b.drop_last());
        assert((a + b).last() == b.last());
        match row_times(b.last()) {
            Some(x) => {
                assert(table_times(a + b) =~= table_times(a) + table_times(b));
            },
            None => {},
        }
    }
}

/// A row that is put into a table adds its own times at its place and
/// leaves all others as they are, in their order. So a row that cannot be
/// read changes nothing, and a row that can be read adds exactly one.
pub proof fn lemma_row_inserted(rows: Seq<Seq<Seq<char>>>, i: int, row: Seq<Seq<char>>)
    requires
        0 <= i <= rows.len(),
    ensures
        table_times(rows.insert(i, row)) == table_times(rows.subrange(0, i)) + (match row_times(row) {
                Some(x) => seq![x],
                None => seq![],
            })
            + table_times(rows.subrange(i, rows.len() as int)),
        table_times(rows) == table_times(rows.subrange(0, i)) + table_times(
            rows.subrange(i, rows.len() as int),
        ),
        row_times(row) is None ==> table_times(rows.insert(i, row)) == table_times(rows),
        row_times(row) is Some ==> table_times(rows.insert(i, row)).len() == table_times(rows).len() + 1,
{
    let head = rows.subrange(0, i);
    let tail = rows.subrange(i, rows.len() as int);
    let one = seq![row];
    assert(rows =~= head + tail);
    assert(rows.insert(i, row) =~= (head + one) + tail);
    lemma_tables_in_sequence(head, tail);
    lemma_tables_in_sequence(head + one, tail);
    lemma_tables_in_sequence(head, one);
    assert(one.drop_last() =~= Seq::<Seq<Seq<char>>>::empty());
    assert(table_times(Seq::<Seq<Seq<char>>>::empty()) =~= seq![]);
    assert(one.last() == row);
    assert(table_times(one) =~= (match row_times(row) {
                Some(x) => seq![x],
                None => seq![],
            }));
    assert(table_times(head) + seq![] =~= table_times(head));
}

/// A first row of labels, which gives nothing, is as good as absent.
pub proof fn lemma_label_row_ignored(labels: Seq<Seq<char>>, rows: Seq<Seq<Seq<char>>>)
    requires
        row_times(labels) is None,
    ensures
        table_times(seq![labels] + rows) == table_times(rows),
{
    lemma_row_inserted(rows, 0, labels);
    assert(rows.insert(0, labels) =~= seq![labels] + rows);
}

/// A JSON body and a body of delimited text that hold the same rows decode
/// to the same times.
pub proof fn lemma_encodings_agree(json: Seq<char>, text: Seq<char>)
    requires
        encoding_of(json) == Some(Encoding::Json),
        encoding_of(text) == Some(Encoding::Tabular),
        json_document(json) is Some,
        rows_in(json_document(json)->Some_0) == Some(rows_of_text(trimmed(text), false, false)),
    ensures
        body_times(json) == body_times(text),
{
}

} // verus!
