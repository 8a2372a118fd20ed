//! Daily temperatures of the climate record: mean, maximum and minimum.

use crate::common::decimal_digits;
use crate::common::decimal_text;
use crate::error::APIRequestError;
use crate::error::DataError;
use crate::error::Failure;
use crate::json::data_rows;
use crate::json::json_document;
use crate::json::rows_in;
use crate::json::table;
use crate::json::texts;
use crate::json::Json;
use crate::opendata::base_text;
use crate::opendata::base_url;
use crate::opendata::format_part;
use crate::opendata::number_part;
use crate::opendata::push_format;
use crate::opendata::push_number;
use crate::opendata::ResponseFormat;
use crate::opendata::TempStation;
use crate::table::encoding_of;
use crate::table::read_rows;
use crate::table::rows_of_text;
use crate::table::sniff;
use crate::table::Encoding;
use crate::text::is_float;
use crate::text::is_float_text;
use crate::text::parse_unsigned;
use crate::text::same_text;
use crate::text::trim;
use crate::text::trimmed;
use crate::text::unsigned_of;
use vstd::prelude::*;
use vstd::string::StringExecFns;

verus! {

/// The temperature of one day. The temperature is the decimal text of a
/// number of degrees Celsius, or nothing where none was recorded.
#[derive(Clone, Debug)]
pub struct ResponseUnit {
    pub year: u32,
    pub month: u32,
    pub day: u32,
    pub temp: Option<String>,
    /// Data is complete if completeness is `true`.
    pub completeness: bool,
}

/// What a `ResponseUnit` holds.
pub struct Day {
    pub year: u32,
    pub month: u32,
    pub day: u32,
    pub temp: Option<Seq<char>>,
    pub completeness: bool,
}

impl View for ResponseUnit {
    type V = Day;

    open spec fn view(&self) -> Day {
        Day {
            year: self.year,
            month: self.month,
            day: self.day,
            temp: match self.temp {
                Some(t) => Some(t@),
                None => None,
            },
            completeness: self.completeness,
        }
    }
}

/// Main response type.
#[derive(Clone, Debug)]
pub struct Response(pub Vec<ResponseUnit>);

/// What a list of units holds.
pub open spec fn days(units: Seq<ResponseUnit>) -> Seq<Day> {
    Seq::new(units.len(), |i: int| units[i]@)
}

impl View for Response {
    type V = Seq<Day>;

    open spec fn view(&self) -> Seq<Day> {
        days(self.0@)
    }
}

/// The day of one row: year, month, day, temperature and completeness. A
/// row with fewer cells, or whose year, month or day is no number, gives
/// nothing. A temperature that is no number is no temperature; the data is
/// complete where the last cell is `C`.
pub open spec fn row_day(row: Seq<Seq<char>>) -> Option<Day> {
    if row.len() >= 5 && unsigned_of(row[0]) is Some && unsigned_of(row[1]) is Some && unsigned_of(
        row[2],
    ) is Some {
        Some(
            Day {
                year: unsigned_of(row[0])->Some_0,
                month: unsigned_of(row[1])->Some_0,
                day: unsigned_of(row[2])->Some_0,
                temp: if is_float_text(row[3]) {
                    Some(row[3])
                } else {
                    None
                },
                completeness: row[4] == "C"@,
            },
        )
    } else {
        None
    }
}

/// The days of all rows, in the order of the rows.
pub open spec fn table_days(rows: Seq<Seq<Seq<char>>>) -> Seq<Day>
    decreases rows.len(),
{
    if rows.len() == 0 {
        seq![]
    } else {
        match row_day(rows.last()) {
            Some(c) => table_days(rows.drop_last()).push(c),
            None => table_days(rows.drop_last()),
        }
    }
}

/// What a JSON document decodes to.
pub open spec fn json_days(doc: Json) -> Result<Seq<Day>, Failure> {
    match rows_in(doc) {
        Some(rows) => Ok(table_days(rows)),
        None => Err(Failure::SourceFormat),
    }
}

/// What a delimited text decodes to.
pub open spec fn text_days(s: Seq<char>) -> Seq<Day> {
    table_days(rows_of_text(trimmed(s), false, true))
}

/// What a response body decodes to.
pub open spec fn body_days(s: Seq<char>) -> Result<Seq<Day>, Failure> {
    match encoding_of(s) {
        None => Err(Failure::EarlyEOF),
        Some(Encoding::Json) => match json_document(s) {
            Some(doc) => json_days(doc),
            None => Err(Failure::SourceFormat),
        },
        Some(Encoding::Tabular) => Ok(text_days(s)),
    }
}

/// Decodes one row.
pub fn decode_row(row: &Vec<String>) -> (r: Option<ResponseUnit>)
    ensures
        r is Some <==> row_day(texts(row@)) is Some,
        r is Some ==> r->Some_0@ == row_day(texts(row@))->Some_0,
{
    let ghost cells = texts(row@);
    if row.len() < 5 {
        return None;
    }
    assert(cells[0] == row@[0]@ && cells[1] == row@[1]@ && cells[2] == row@[2]@ && cells[3]
        == row@[3]@ && cells[4] == row@[4]@);
    let year: u32 = match parse_unsigned(row[0].as_str()) {
        Some(n) => n,
        None => {
            return None;
        },
    };
    let month: u32 = match parse_unsigned(row[1].as_str()) {
        Some(n) => n,
        None => {
            return None;
        },
    };
    let day: u32 = match parse_unsigned(row[2].as_str()) {
        Some(n) => n,
        None => {
            return None;
        },
    };
    let temp: Option<String> = if is_float(row[3].as_str()) {
        Some(row[3].clone())
    } else {
        None
    };
    let completeness: bool = same_text(row[4].as_str(), "C");
    Some(ResponseUnit { year, month, day, temp, completeness })
}

/// Whether the record of a station reaches back to a year.
pub open spec fn has_year(year: u32, station: TempStation) -> bool {
    match station {
        TempStation::CCH => year >= 1992,
        TempStation::CWB => year >= 2018,
        TempStation::HKA => year >= 1997,
        TempStation::HKO => year >= 1884 && !(1940 <= year <= 1946),
        TempStation::HKP => year >= 2007,
        TempStation::HKS => year >= 1989,
        TempStation::HPV => year >= 2008,
        TempStation::JKB => year >= 1991,
        TempStation::KLT => year >= 2008,
        TempStation::KP => year >= 1992,
        TempStation::KSC => year >= 2008,
        TempStation::KTG => year >= 2009,
        TempStation::LFS => year >= 1985,
        TempStation::NGP => year >= 2003,
        TempStation::PEN => year >= 2004,
        TempStation::PLC => year >= 1993,
        TempStation::SE1 => year >= 2014,
        TempStation::SEK => year >= 1996,
        TempStation::SHA => year >= 1984,
        TempStation::SKG => year >= 1993,
        TempStation::SKW => year >= 2007,
        TempStation::SSH => year >= 2004,
        TempStation::SSP => year >= 2010,
        TempStation::STY => year >= 2009,
        TempStation::TC => year >= 1997,
        TempStation::TKL => year >= 1988,
        TempStation::TMS => year >= 1997,
        TempStation::TPO => year >= 1999,
        TempStation::TU1 => year >= 2007,
        TempStation::TW => year >= 2010,
        TempStation::TWN => year >= 2006,
        TempStation::TY1 => year >= 2010,
        TempStation::TYW => year >= 1995,
        TempStation::VP1 => year >= 2003,
        TempStation::WGL => year >= 1989,
        TempStation::WLP => year >= 2005,
        TempStation::WTS => year >= 2009,
        TempStation::YCT => year >= 2022,
        TempStation::YLP => year >= 2015,
    }
}

/// Tells whether the record of a station reaches back to a year.
pub fn check_year(year: u32, station: TempStation) -> (r: bool)
    ensures
        r == has_year(year, station),
{
    match station {
        TempStation::CCH => year >= 1992,
        TempStation::CWB => year >= 2018,
        TempStation::HKA => year >= 1997,
        TempStation::HKO => year >= 1884 && !(1940 <= year && year <= 1946),
        TempStation::HKP => year >= 2007,
        TempStation::HKS => year >= 1989,
        TempStation::HPV => year >= 2008,
        TempStation::JKB => year >= 1991,
        TempStation::KLT => year >= 2008,
        TempStation::KP => year >= 1992,
        TempStation::KSC => year >= 2008,
        TempStation::KTG => year >= 2009,
        TempStation::LFS => year >= 1985,
        TempStation::NGP => year >= 2003,
        TempStation::PEN => year >= 2004,
        TempStation::PLC => year >= 1993,
        TempStation::SE1 => year >= 2014,
        TempStation::SEK => year >= 1996,
        TempStation::SHA => year >= 1984,
        TempStation::SKG => year >= 1993,
        TempStation::SKW => year >= 2007,
        TempStation::SSH => year >= 2004,
        TempStation::SSP => year >= 2010,
        TempStation::STY => year >= 2009,
        TempStation::TC => year >= 1997,
        TempStation::TKL => year >= 1988,
        TempStation::TMS => year >= 1997,
        TempStation::TPO => year >= 1999,
        TempStation::TU1 => year >= 2007,
        TempStation::TW => year >= 2010,
        TempStation::TWN => year >= 2006,
        TempStation::TY1 => year >= 2010,
        TempStation::TYW => year >= 1995,
        TempStation::VP1 => year >= 2003,
        TempStation::WGL => year >= 1989,
        TempStation::WLP => year >= 2005,
        TempStation::WTS => year >= 2009,
        TempStation::YCT => year >= 2022,
        TempStation::YLP => year >= 2015,
    }
}

/// Why a request cannot be made, if it cannot: the station has no record
/// of the year.
pub open spec fn url_fault(station: TempStation, year: Option<u32>) -> Option<Seq<char>> {
    if year is Some && !has_year(year->Some_0, station) {
        Some(
            "Year "@ + decimal_digits(year->Some_0 as nat) + " is not available for "@
                + station.code_text(),
        )
    } else {
        None
    }
}

/// The address of a request for the dataset `datatype` that can be made.
pub open spec fn url_text(
    datatype: Seq<char>,
    station: TempStation,
    year: Option<u32>,
    month: Option<u32>,
    format: Option<ResponseFormat>,
) -> Seq<char> {
    base_text() + datatype + "&station="@ + station.code_text() + number_part("&year="@, year)
        + number_part("&month="@, month) + format_part(format)
}

/// Builds the address of a request for the dataset `datatype` of a station,
/// for all of its record or a year or a month of it.
pub fn url_for(
    datatype: &str,
    station: TempStation,
    year: Option<u32>,
    month: Option<u32>,
    response_format: Option<ResponseFormat>,
) -> (r: Result<String, APIRequestError>)
    ensures
        match url_fault(station, year) {
            Some(why) => r is Err && r->Err_0.0@ == why,
            None => r is Ok && r->Ok_0@ == url_text(
                datatype@,
                station,
                year,
                month,
                response_format,
            ),
        },
{
    if let Some(y) = year {
        if !check_year(y, station) {
            let mut why: String = String::from_str("Year ");
            let digits: String = decimal_text(y);
            why.append(digits.as_str());
            why.append(" is not available for ");
            why.append(station.code());
            return Err(APIRequestError(why));
        }
    }
    let mut s: String = base_url(datatype);
    s.append("&station=");
    s.append(station.code());
    push_number(&mut s, "&year=", year);
    push_number(&mut s, "&month=", month);
    push_format(&mut s, response_format);
    Ok(s)
}

impl Response {
    /// Decodes the rows of a table.
    pub fn from_rows(rows: &Vec<Vec<String>>) -> (r: Response)
        ensures
            r@ == table_days(table(rows@)),
    {
        let mut out: Vec<ResponseUnit> = Vec::new();
        let ghost all = table(rows@);
        let mut i: usize = 0;
        assert(days(out@) =~= seq![]);
        assert(all.subrange(0, 0) =~= seq![]);
        while i < rows.len()
            invariant
                i <= rows.len(),
                all == table(rows@),
                days(out@) == table_days(all.subrange(0, i as int)),
            decreases rows.len() - i,
        {
            let ghost before = days(out@);
            proof {
                let p = all.subrange(0, i + 1);
                assert(p.drop_last() =~= all.subrange(0, i as int));
                assert(p.last() == texts(rows@[i as int]@));
            }
            match decode_row(&rows[i]) {
                Some(unit) => {
                    let ghost c = unit@;
                    out.push(unit);
                    assert(days(out@) =~= before.push(c));
                },
                None => {},
            }
            i = i + 1;
        }
        assert(all.subrange(0, rows.len() as int) =~= all);
        Response(out)
    }

    /// Decodes a JSON document: the rows under `data`.
    pub fn from_json(doc: &Json) -> (r: Result<Response, DataError>)
        ensures
            r is Ok <==> json_days(*doc) is Ok,
            r is Ok ==> r->Ok_0@ == json_days(*doc)->Ok_0,
            r is Err ==> r->Err_0.kind() == json_days(*doc)->Err_0,
    {
        match data_rows(doc) {
            Ok(rows) => Ok(Response::from_rows(&rows)),
            Err(e) => Err(e),
        }
    }

    /// Decodes delimited text.
    pub fn from_text(s: &str) -> (r: Response)
        ensures
            r@ == text_days(s@),
    {
        let rows: Vec<Vec<String>> = read_rows(trim(s), false, true);
        Response::from_rows(&rows)
    }

    /// Decodes a response body, JSON or delimited text.
    pub fn from_str(s: &str) -> (r: Result<Response, DataError>)
        ensures
            r is Ok <==> body_days(s@) is Ok,
            r is Ok ==> r->Ok_0@ == body_days(s@)->Ok_0,
            r is Err ==> r->Err_0.kind() == body_days(s@)->Err_0,
    {
        match sniff(s) {
            Err(e) => Err(e),
            Ok(Encoding::Json) => match crate::json::parse(s) {
                Ok(doc) => Response::from_json(&doc),
                Err(e) => Err(e),
            },
            Ok(Encoding::Tabular) => Ok(Response::from_text(s)),
        }
    }
}


/// The days of two tables, one after the other, are the days of the
/// first followed by those of the second.
pub proof fn lemma_tables_in_sequence(a: Seq<Seq<Seq<char>>>, b: Seq<Seq<Seq<char>>>)
    ensures
        table_days(a + b) == table_days(a) + table_days(b),
    decreases b.len(),
{
    if b.len() == 0 {
        assert(a + b =~= a);
        assert(table_days(a) + table_days(b) =~= table_days(a));
    } else {
        lemma_tables_in_sequence(a, b.drop_last());
        assert((a + b).drop_last() =~= a + b.drop_last());
        assert((a + b).last() == b.last());
        match row_day(b.last()) {
            Some(x) => {
                assert(table_days(a + b) =~= table_days(a) + table_days(b));
            },
            None => {},
        }
    }
}

/// A row that is put into a table adds its own days at its place and
/// leaves all others as they are, in their order. So a row that cannot be
/// read changes nothing, and a row that can be read adds exactly one.
pub proof fn lemma_row_inserted(rows: Seq<Seq<Seq<char>>>, i: int, row: Seq<Seq<char>>)
    requires
        0 <= i <= rows.len(),
    ensures
        table_days(rows.insert(i, row)) == table_days(rows.subrange(0, i)) + (match row_day(row) {
                Some(x) => seq![x],
                None => seq![],
            })
            + table_days(rows.subrange(i, rows.len() as int)),
        table_days(rows) == table_days(rows.subrange(0, i)) + table_days(
            rows.subrange(i, rows.len() as int),
        ),
        row_day(row) is None ==> table_days(rows.insert(i, row)) == table_days(rows),
        row_day(row) is Some ==> table_days(rows.insert(i, row)).len() == table_days(rows).len() + 1,
{
    let head = rows.subrange(0, i);
    let tail = rows.subrange(i, rows.len() as int);
    let one = seq![row];
    assert(rows =~= head + tail);
    assert(rows.insert(i, row) =~= (head + one) + tail);
    lemma_tables_in_sequence(head, tail);
    lemma_tables_in_sequence(head + one, tail);
    lemma_tables_in_sequence(head, one);
    assert(one.drop_last() =~= Seq::<Seq<Seq<char>>>::empty());
    assert(table_days(Seq::<Seq<Seq<char>>>::empty()) =~= seq![]);
    assert(one.last() == row);
    assert(table_days(one) =~= (match row_day(row) {
                Some(x) => seq![x],
                None => seq![],
            }));
    assert(table_days(head) + seq![] =~= table_days(head));
}

/// A first row of labels, which gives nothing, is as good as absent.
pub proof fn lemma_label_row_ignored(labels: Seq<Seq<char>>, rows: Seq<Seq<Seq<char>>>)
    requires
        row_day(labels) is None,
    ensures
        table_days(seq![labels] + rows) == table_days(rows),
{
    lemma_row_inserted(rows, 0, labels);
    assert(rows.insert(0, labels) =~= seq![labels] + rows);
}

/// A JSON body and a body of delimited text that hold the same rows decode
/// to the same days.
pub proof fn lemma_encodings_agree(json: Seq<char>, text: Seq<char>)
    requires
        encoding_of(json) == Some(Encoding::Json),
        encoding_of(text) == Some(Encoding::Tabular),
        json_document(json) is Some,
        rows_in(json_document(json)->Some_0) == Some(rows_of_text(trimmed(text), false, true)),
    ensures
        body_days(json) == body_days(text),
{
}

} // verus!
