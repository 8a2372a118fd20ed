//! Predicted tidal information: hourly heights of astronomical tides.

use crate::common::decimal_digits;
use crate::common::decimal_text;
use crate::error::APIRequestError;
use crate::error::DataError;
use crate::error::Failure;
use crate::json::data_rows;
use crate::json::field_labels;
use crate::json::json_document;
use crate::json::labels_in;
use crate::json::rows_in;
use crate::json::table;
use crate::json::texts;
use crate::json::Json;
use crate::opendata::base_text;
use crate::opendata::base_url;
use crate::opendata::format_part;
use crate::opendata::number_part;
use crate::opendata::push_format;
use crate::opendata::push_number;
use crate::opendata::ResponseFormat;
use crate::opendata::SeaStation;
use crate::table::csv_header;
use crate::table::detect_labels;
use crate::table::encoding_of;
use crate::table::has_labels;
use crate::table::read_labels;
use crate::table::read_rows;
use crate::table::rows_of_text;
use crate::table::sniff;
use crate::table::Encoding;
use crate::text::is_float;
use crate::text::is_float_text;
use crate::text::parse_unsigned;
use crate::text::trim;
use crate::text::trimmed;
use crate::text::unsigned_of;
use vstd::prelude::*;
use vstd::string::StringExecFns;

verus! {

/// The height of the tide at one hour of one day. The height is the decimal
/// text of a number of metres.
#[derive(Clone, Debug)]
pub struct ResponseUnit {
    pub month: u32,
    pub day: u32,
    pub hour: u32,
    pub height: String,
}

/// What a `ResponseUnit` holds.
pub struct Reading {
    pub month: u32,
    pub day: u32,
    pub hour: u32,
    pub height: Seq<char>,
}

impl View for ResponseUnit {
    type V = Reading;

    open spec fn view(&self) -> Reading {
        Reading { month: self.month, day: self.day, hour: self.hour, height: self.height@ }
    }
}

/// Main response type.
#[derive(Clone, Debug)]
pub struct Response(pub Vec<ResponseUnit>);

/// What a list of units holds.
pub open spec fn readings(units: Seq<ResponseUnit>) -> Seq<Reading> {
    Seq::new(units.len(), |i: int| units[i]@)
}

impl View for Response {
    type V = Seq<Reading>;

    open spec fn view(&self) -> Seq<Reading> {
        readings(self.0@)
    }
}

/// The hours that the column labels announce, label by label.
pub open spec fn label_hours(labels: Seq<Seq<char>>) -> Seq<Option<u32>> {
    Seq::new(labels.len(), |i: int| unsigned_of(labels[i]))
}

/// The place of a column among those after month and day, counted from one
/// and held at the largest number.
pub open spec fn place(i: int) -> u32 {
    if i < u32::MAX {
        (i + 1) as u32
    } else {
        u32::MAX
    }
}

/// The hour of the `i`-th column after month and day: what its label
/// announces, or its place where it has no label that is a number.
pub open spec fn hour_of(hours: Seq<Option<u32>>, i: int) -> u32 {
    if 0 <= i + 2 < hours.len() && hours[i + 2] is Some {
        hours[i + 2]->Some_0
    } else {
        place(i)
    }
}

/// The readings of the first `n` columns after month and day, one for each
/// cell that is a number.
pub open spec fn column_readings(
    hours: Seq<Option<u32>>,
    month: u32,
    day: u32,
    row: Seq<Seq<char>>,
    n: int,
) -> Seq<Reading>
    decreases n,
{
    if n <= 0 || n + 1 >= row.len() {
        seq![]
    } else {
        let before = column_readings(hours, month, day, row, n - 1);
        if is_float_text(row[n + 1]) {
            before.push(Reading { month, day, hour: hour_of(hours, n - 1), height: row[n + 1] })
        } else {
            before
        }
    }
}

/// The readings of one row: none unless month and day are numbers.
pub open spec fn row_readings(hours: Seq<Option<u32>>, row: Seq<Seq<char>>) -> Seq<Reading> {
    if row.len() >= 2 && unsigned_of(row[0]) is Some && unsigned_of(row[1]) is Some {
        column_readings(
            hours,
            unsigned_of(row[0])->Some_0,
            unsigned_of(row[1])->Some_0,
            row,
            row.len() - 2,
        )
    } else {
        seq![]
    }
}

/// The readings of all rows, in the order of the rows.
pub open spec fn table_readings(hours: Seq<Option<u32>>, rows: Seq<Seq<Seq<char>>>) -> Seq<Reading>
    decreases rows.len(),
{
    if rows.len() == 0 {
        seq![]
    } else {
        table_readings(hours, rows.drop_last()) + row_readings(hours, rows.last())
    }
}

/// What a JSON document decodes to.
pub open spec fn json_readings(doc: Json) -> Result<Seq<Reading>, Failure> {
    match (labels_in(doc), rows_in(doc)) {
        (Some(labels), Some(rows)) => Ok(table_readings(label_hours(labels), rows)),
        _ => Err(Failure::SourceFormat),
    }
}

/// The labels of the columns of a delimited text: its first record where
/// the text holds anything that a table of numbers cannot hold, none
/// otherwise.
pub open spec fn text_labels(s: Seq<char>) -> Seq<Seq<char>> {
    if has_labels(s) {
        csv_header(trimmed(s))
    } else {
        seq![]
    }
}

/// What a delimited text decodes to: the readings of its rows under its
/// labels.
pub open spec fn text_readings(s: Seq<char>) -> Seq<Reading> {
    table_readings(label_hours(text_labels(s)), rows_of_text(trimmed(s), has_labels(s), false))
}

/// What a response body decodes to.
pub open spec fn body_readings(s: Seq<char>) -> Result<Seq<Reading>, Failure> {
    match encoding_of(s) {
        None => Err(Failure::EarlyEOF),
        Some(Encoding::Json) => match json_document(s) {
            Some(doc) => json_readings(doc),
            None => Err(Failure::SourceFormat),
        },
        Some(Encoding::Tabular) => Ok(text_readings(s)),
    }
}

fn parse_labels(labels: &Vec<String>) -> (hours: Vec<Option<u32>>)
    ensures
        hours@ == label_hours(texts(labels@)),
{
    let mut hours: Vec<Option<u32>> = Vec::new();
    let mut i: usize = 0;
    while i < labels.len()
        invariant
            i <= labels.len(),
            hours.len() == i,
            forall|k: int| 0 <= k < i ==> #[trigger] hours@[k] == unsigned_of(labels@[k]@),
        decreases labels.len() - i,
    {
        hours.push(parse_unsigned(labels[i].as_str()));
        i = i + 1;
    }
    assert(hours@ =~= label_hours(texts(labels@)));
    hours
}

fn column_hour(hours: &Vec<Option<u32>>, i: usize) -> (r: u32)
    ensures
        r == hour_of(hours@, i as int),
{
    if hours.len() >= 2 && i < hours.len() - 2 {
        match hours[i + 2] {
            Some(h) => {
                return h;
            },
            None => {},
        }
    }
    if i < 0xFFFF_FFFF {
        (i + 1) as u32
    } else {
        0xFFFF_FFFF
    }
}

fn decode_row(hours: &Vec<Option<u32>>, row: &Vec<String>, out: &mut Vec<ResponseUnit>)
    ensures
        readings(final(out)@) == readings(old(out)@) + row_readings(hours@, texts(row@)),
{
    let ghost cells = texts(row@);
    let ghost start = readings(out@);
    assert(start + Seq::<Reading>::empty() =~= start);
    if row.len() < 2 {
        return ;
    }
    assert(cells[0] == row@[0]@ && cells[1] == row@[1]@);
    let month: u32 = match parse_unsigned(row[0].as_str()) {
        Some(m) => m,
        None => {
            return ;
        },
    };
    let day: u32 = match parse_unsigned(row[1].as_str()) {
        Some(d) => d,
        None => {
            return ;
        },
    };
    let mut i: usize = 2;
    while i < row.len()
        invariant
            2 <= i <= row.len(),
            cells == texts(row@),
            readings(out@) == start + column_readings(hours@, month, day, cells, i - 2),
        decreases row.len() - i,
    {
        let ghost before = readings(out@);
        assert(cells[i as int] == row@[i as int]@);
        if is_float(row[i].as_str()) {
            let hour: u32 = column_hour(hours, i - 2);
            out.push(ResponseUnit { month, day, hour, height: row[i].clone() });
            assert(readings(out@) =~= before.push(
                Reading { month, day, hour, height: cells[i as int] },
            ));
        }
        i = i + 1;
        assert(readings(out@) =~= start + column_readings(hours@, month, day, cells, i - 2));
    }
}

impl Response {
    /// Decodes the rows of a table whose columns have the given labels.
    pub fn from_rows(labels: &Vec<String>, rows: &Vec<Vec<String>>) -> (r: Response)
        ensures
            r@ == table_readings(label_hours(texts(labels@)), table(rows@)),
    {
        let hours: Vec<Option<u32>> = parse_labels(labels);
        let mut out: Vec<ResponseUnit> = Vec::new();
        let ghost all = table(rows@);
        let mut i: usize = 0;
        assert(readings(out@) =~= seq![]);
        assert(all.subrange(0, 0) =~= seq![]);
        while i < rows.len()
            invariant
                i <= rows.len(),
                all == table(rows@),
                readings(out@) == table_readings(hours@, all.subrange(0, i as int)),
            decreases rows.len() - i,
        {
            proof {
                let p = all.subrange(0, i + 1);
                assert(p.drop_last() =~= all.subrange(0, i as int));
                assert(p.last() == texts(rows@[i as int]@));
            }
            decode_row(&hours, &rows[i], &mut out);
            i = i + 1;
        }
        assert(all.subrange(0, rows.len() as int) =~= all);
        Response(out)
    }

    /// Decodes a JSON document: the rows under `data`, with the column
    /// labels under `fields` where there are any.
    pub fn from_json(doc: &Json) -> (r: Result<Response, DataError>)
        ensures
            r is Ok <==> json_readings(*doc) is Ok,
            r is Ok ==> r->Ok_0@ == json_readings(*doc)->Ok_0,
            r is Err ==> r->Err_0.kind() == json_readings(*doc)->Err_0,
    {
        let labels: Vec<String> = match field_labels(doc) {
            Ok(l) => l,
            Err(e) => {
                return Err(e);
            },
        };
        let rows: Vec<Vec<String>> = match data_rows(doc) {
            Ok(d) => d,
            Err(e) => {
                return Err(e);
            },
        };
        Ok(Response::from_rows(&labels, &rows))
    }

    /// Decodes delimited text, with or without a first row of labels.
    pub fn from_text(s: &str) -> (r: Response)
        ensures
            r@ == text_readings(s@),
    {
        let body: &str = trim(s);
        if detect_labels(s) {
            let labels: Vec<String> = read_labels(body);
            let rows: Vec<Vec<String>> = read_rows(body, true, false);
            Response::from_rows(&labels, &rows)
        } else {
            let labels: Vec<String> = Vec::new();
            assert(texts(labels@) =~= seq![]);
            let rows: Vec<Vec<String>> = read_rows(body, false, false);
            Response::from_rows(&labels, &rows)
        }
    }

    /// Decodes a response body, JSON or delimited text.
    pub fn from_str(s: &str) -> (r: Result<Response, DataError>)
        ensures
            r is Ok <==> body_readings(s@) is Ok,
            r is Ok ==> r->Ok_0@ == body_readings(s@)->Ok_0,
            r is Err ==> r->Err_0.kind() == body_readings(s@)->Err_0,
    {
        match sniff(s) {
            Err(e) => Err(e),
            Ok(Encoding::Json) => match crate::json::parse(s) {
                Ok(doc) => Response::from_json(&doc),
                Err(e) => Err(e),
            },
            Ok(Encoding::Tabular) => Ok(Response::from_text(s)),
        }
    }
}


/// Why a request cannot be made, if it cannot: the year is outside 2021 to
/// 2024, the month outside 1 to 12, a day is given outside 1 to 31 or
/// without a month, or an hour is given outside 1 to 24 or without a day.
pub open spec fn url_fault(
    year: i32,
    month: Option<u32>,
    day: Option<u32>,
    hour: Option<u32>,
) -> Option<Seq<char>> {
    if !(2021 <= year <= 2024) {
        Some("year must be 2021-2024"@)
    } else if month is Some && !(1 <= month->Some_0 <= 12) {
        Some("month must be 1-12"@)
    } else if day is Some && (!(1 <= day->Some_0 <= 31) || month is None) {
        Some("day must be 1-31 and month must be specified"@)
    } else if hour is Some && (!(1 <= hour->Some_0 <= 24) || day is None) {
        Some("hour must be 1-24 and day must be specified"@)
    } else {
        None
    }
}

/// The address of a request that can be made.
pub open spec fn url_text(
    station: SeaStation,
    year: i32,
    month: Option<u32>,
    day: Option<u32>,
    hour: Option<u32>,
    format: Option<ResponseFormat>,
) -> Seq<char> {
    base_text() + "HHOT"@ + "&station="@ + station.code_text() + "&year="@ + decimal_digits(
        year as nat,
    ) + format_part(format) + number_part("&month="@, month) + number_part("&day="@, day)
        + number_part("&hour="@, hour)
}

/// Builds the address of a request for the tides of a station in a year,
/// or of a month, a day or an hour of it.
pub fn url(
    station: &SeaStation,
    year: i32,
    month: Option<u32>,
    day: Option<u32>,
    hour: Option<u32>,
    response_format: Option<ResponseFormat>,
) -> (r: Result<String, APIRequestError>)
    ensures
        match url_fault(year, month, day, hour) {
            Some(why) => r is Err && r->Err_0.0@ == why,
            None => r is Ok && r->Ok_0@ == url_text(
                *station,
                year,
                month,
                day,
                hour,
                response_format,
            ),
        },
{
    if year < 2021 || year > 2024 {
        return Err(APIRequestError(String::from_str("year must be 2021-2024")));
    }
    if let Some(m) = month {
        if m < 1 || m > 12 {
            return Err(APIRequestError(String::from_str("month must be 1-12")));
        }
    }
    if let Some(d) = day {
        if d < 1 || d > 31 || month.is_none() {
            return Err(
                APIRequestError(String::from_str("day must be 1-31 and month must be specified")),
            );
        }
    }
    if let Some(h) = hour {
        if h < 1 || h > 24 || day.is_none() {
            return Err(
                APIRequestError(String::from_str("hour must be 1-24 and day must be specified")),
            );
        }
    }
    let mut s: String = base_url("HHOT");
    s.append("&station=");
    s.append(station.code());
    s.append("&year=");
    let digits: String = decimal_text(year as u32);
    s.append(digits.as_str());
    push_format(&mut s, response_format);
    push_number(&mut s, "&month=", month);
    push_number(&mut s, "&day=", day);
    push_number(&mut s, "&hour=", hour);
    Ok(s)
}


/// The readings depend on the labels only through the hours that they give
/// the columns.
pub proof fn lemma_hours_decide(
    first: Seq<Option<u32>>,
    second: Seq<Option<u32>>,
    rows: Seq<Seq<Seq<char>>>,
)
    requires
        forall|i: int| 0 <= i ==> hour_of(first, i) == hour_of(second, i),
    ensures
        table_readings(first, rows) == table_readings(second, rows),
    decreases rows.len(),
{
    if rows.len() > 0 {
        lemma_hours_decide(first, second, rows.drop_last());
        let row = rows.last();
        if row.len() >= 2 && unsigned_of(row[0]) is Some && unsigned_of(row[1]) is Some {
            lemma_hours_decide_columns(
                first,
                second,
                unsigned_of(row[0])->Some_0,
                unsigned_of(row[1])->Some_0,
                row,
                row.len() - 2,
            );
        }
    }
}

proof fn lemma_hours_decide_columns(
    first: Seq<Option<u32>>,
    second: Seq<Option<u32>>,
    month: u32,
    day: u32,
    row: Seq<Seq<char>>,
    n: int,
)
    requires
        forall|i: int| 0 <= i ==> hour_of(first, i) == hour_of(second, i),
    ensures
        column_readings(first, month, day, row, n) == column_readings(second, month, day, row, n),
    decreases n,
{
    if n > 0 && n + 1 < row.len() {
        lemma_hours_decide_columns(first, second, month, day, row, n - 1);
        assert(hour_of(first, n - 1) == hour_of(second, n - 1));
    }
}

/// Labels that give each column the hour of its place are as good as no
/// labels: a table decodes to the same readings with them and without.
pub proof fn lemma_labels_optional(labels: Seq<Seq<char>>, rows: Seq<Seq<Seq<char>>>)
    requires
        forall|i: int| 0 <= i ==> hour_of(label_hours(labels), i) == place(i),
    ensures
        table_readings(label_hours(labels), rows) == table_readings(seq![], rows),
{
    assert forall|i: int| 0 <= i implies hour_of(label_hours(labels), i) == hour_of(
        seq![],
        i,
    ) by {}
    lemma_hours_decide(label_hours(labels), seq![], rows);
}

/// The readings of two tables, one after the other, are the readings of the
/// first followed by those of the second.
pub proof fn lemma_tables_in_sequence(
    hours: Seq<Option<u32>>,
    a: Seq<Seq<Seq<char>>>,
    b: Seq<Seq<Seq<char>>>,
)
    ensures
        table_readings(hours, a + b) == table_readings(hours, a) + table_readings(hours, b),
    decreases b.len(),
{
    if b.len() == 0 {
        assert(a + b =~= a);
        assert(table_readings(hours, a) + table_readings(hours, b) =~= table_readings(hours, a));
    } else {
        lemma_tables_in_sequence(hours, a, b.drop_last());
        assert((a + b).drop_last() =~= a + b.drop_last());
        assert((a + b).last() == b.last());
        assert(table_readings(hours, a + b) =~= table_readings(hours, a) + table_readings(
            hours,
            b,
        ));
    }
}

/// A row that is put into a table adds its own readings at its place and
/// leaves all others as they are, in their order. So a row that cannot be
/// read changes nothing.
pub proof fn lemma_row_inserted(
    hours: Seq<Option<u32>>,
    rows: Seq<Seq<Seq<char>>>,
    i: int,
    row: Seq<Seq<char>>,
)
    requires
        0 <= i <= rows.len(),
    ensures
        table_readings(hours, rows.insert(i, row)) == table_readings(hours, rows.subrange(0, i))
            + row_readings(hours, row) + table_readings(
            hours,
            rows.subrange(i, rows.len() as int),
        ),
        table_readings(hours, rows) == table_readings(hours, rows.subrange(0, i))
            + table_readings(hours, rows.subrange(i, rows.len() as int)),
        row_readings(hours, row).len() == 0 ==> table_readings(hours, rows.insert(i, row))
            == table_readings(hours, rows),
        table_readings(hours, rows.insert(i, row)).len() == table_readings(hours, rows).len()
            + row_readings(hours, row).len(),
{
    let head = rows.subrange(0, i);
    let tail = rows.subrange(i, rows.len() as int);
    let one = seq![row];
    assert(rows =~= head + tail);
    assert(rows.insert(i, row) =~= (head + one) + tail);
    lemma_tables_in_sequence(hours, head, tail);
    lemma_tables_in_sequence(hours, head + one, tail);
    lemma_tables_in_sequence(hours, head, one);
    assert(one.drop_last() =~= Seq::<Seq<Seq<char>>>::empty());
    assert(table_readings(hours, Seq::<Seq<Seq<char>>>::empty()) =~= seq![]);
    assert(one.last() == row);
    assert(table_readings(hours, one) =~= row_readings(hours, row));
    assert(table_readings(hours, head) + seq![] =~= table_readings(hours, head));
}

/// A JSON document and a delimited text that hold the same rows, under
/// labels that give the columns the same hours, decode to the same readings.
pub proof fn lemma_encodings_agree(doc: Json, text: Seq<char>)
    requires
        labels_in(doc) is Some,
        rows_in(doc) == Some(rows_of_text(trimmed(text), has_labels(text), false)),
        forall|i: int|
            0 <= i ==> hour_of(label_hours(labels_in(doc)->Some_0), i) == hour_of(
                label_hours(text_labels(text)),
                i,
            ),
    ensures
        json_readings(doc) == Ok::<Seq<Reading>, Failure>(text_readings(text)),
{
    lemma_hours_decide(
        label_hours(labels_in(doc)->Some_0),
        label_hours(text_labels(text)),
        rows_of_text(trimmed(text), has_labels(text), false),
    );
}

} // verus!
