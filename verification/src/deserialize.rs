//! Decoders of single fields.

use crate::common::decimal_digits;
use crate::common::lemma_decimal_round_trip;
use crate::common::ValUnit;
use crate::error::DecodeError;
use crate::hourly_rainfall::RainfallValue;
use crate::text::chars_of;
use crate::text::equals_ignoring_case;
use crate::text::is_digit;
use crate::text::lower;
use crate::text::parse_unsigned;
use crate::text::same_ignoring_case;
use crate::text::trim;
use crate::text::trimmed;
use crate::text::unsigned_of;
use crate::time::date_of;
use crate::time::decode_date;
use crate::time::decode_local_time;
use crate::time::decode_rfc3339;
use crate::time::local_time_of;
use crate::time::rfc3339_time;
use crate::time::Date;
use crate::time::TimePoint;
use crate::weather::psr::psr_of;
use crate::weather::psr::PSR;
use vstd::prelude::*;
use vstd::string::StringExecFns;

verus! {

/// Whether `r` is the failure to find `expected` in `found`.
pub open spec fn refused<T>(r: Result<T, DecodeError>, expected: Seq<char>, found: Seq<char>) -> bool {
    r is Err && r->Err_0.expected@ == expected && r->Err_0.found@ == found
}

fn refuse(expected: &str, found: &str) -> (e: DecodeError)
    ensures
        e.expected@ == expected@,
        e.found@ == found@,
{
    DecodeError { expected: String::from_str(expected), found: String::from_str(found) }
}

/// The capital that a character upper-cases to, so far as that is an ASCII
/// capital: the capital of an ASCII small letter, `S` for the long s
/// (U+017F), the character itself otherwise.
pub open spec fn capital(c: char) -> char {
    if c == '\u{17f}' {
        'S'
    } else if 'a' <= c <= 'z' {
        ((c as u32 - 32) as u8) as char
    } else {
        c
    }
}

/// Whether a text, put in upper case, is `word`, a word of ASCII capitals
/// other than those that ligatures or accented characters upper-case to.
pub open spec fn spells(s: Seq<char>, word: Seq<char>) -> bool {
    s.len() == word.len() && forall|i: int| 0 <= i < s.len() ==> capital(#[trigger] s[i]) == word[i]
}

/// The capital that a character upper-cases to.
pub fn capital_of(c: char) -> (r: char)
    ensures
        r == capital(c),
{
    if c == '\u{17f}' {
        'S'
    } else if 'a' <= c && c <= 'z' {
        ((c as u32 - 32) as u8) as char
    } else {
        c
    }
}

/// Tells whether a text, put in upper case, is `word`.
pub fn spells_word(s: &str, word: &str) -> (r: bool)
    ensures
        r == spells(s@, word@),
{
    let a: Vec<char> = chars_of(s);
    let b: Vec<char> = chars_of(word);
    if a.len() != b.len() {
        return false;
    }
    let mut i: usize = 0;
    while i < a.len()
        invariant
            a@ == s@,
            b@ == word@,
            a.len() == b.len(),
            i <= a.len(),
            forall|j: int| 0 <= j < i ==> capital(#[trigger] s@[j]) == word@[j],
        decreases a.len() - i,
    {
        if capital_of(a[i]) != b[i] {
            return false;
        }
        i = i + 1;
    }
    true
}

/// The truth value that a flag denotes: a text that upper-cases to `TRUE`
/// is true, one that upper-cases to `FALSE` and the empty text are false.
pub open spec fn bool_of(s: Seq<char>) -> Option<bool> {
    if spells(s, "TRUE"@) {
        Some(true)
    } else if spells(s, "FALSE"@) || s.len() == 0 {
        Some(false)
    } else {
        None
    }
}

/// Decodes a flag.
pub fn deserialize_to_bool(value: &str) -> (r: Result<bool, DecodeError>)
    ensures
        match bool_of(value@) {
            Some(b) => r is Ok && r->Ok_0 == b,
            None => refused(r, "`TRUE` or `FALSE`"@, value@),
        },
{
    if spells_word(value, "TRUE") {
        Ok(true)
    } else if spells_word(value, "FALSE") || value.unicode_len() == 0 {
        Ok(false)
    } else {
        Err(refuse("`TRUE` or `FALSE`", value))
    }
}

/// Decodes a date written as `YYYYMMDD`.
pub fn deserialize_yyyymmdd_to_date(value: &str) -> (r: Result<Date, DecodeError>)
    ensures
        match date_of(value@) {
            Some(d) => r is Ok && r->Ok_0 == d && d.wf(),
            None => refused(r, "string of date formatted in YYYYMMDD"@, value@),
        },
{
    match decode_date(value) {
        Some(d) => Ok(d),
        None => Err(refuse("string of date formatted in YYYYMMDD", value)),
    }
}

/// Decodes a label of the probability of significant rain.
pub fn deserialize_to_psr(value: &str) -> (r: Result<PSR, DecodeError>)
    ensures
        match psr_of(value@) {
            Some(p) => r is Ok && r->Ok_0 == p,
            None => refused(r, "string of the probability of significant rain"@, value@),
        },
{
    match PSR::from_str(value) {
        Ok(p) => Ok(p),
        Err(_) => Err(refuse("string of the probability of significant rain", value)),
    }
}

/// The rainfall that a text denotes: `M` in either case is a station under
/// maintenance, an unsigned decimal number is that many millimetres.
pub open spec fn rainfall_of(s: Seq<char>) -> Option<RainfallValue> {
    if same_ignoring_case(s, "M"@) {
        Some(RainfallValue::UnderMaintenance)
    } else {
        match unsigned_of(s) {
            Some(n) => Some(RainfallValue::Rainfall(n)),
            None => None,
        }
    }
}

/// Decodes a rainfall amount.
pub fn deserialize_to_rainfall_value(value: &str) -> (r: Result<RainfallValue, DecodeError>)
    ensures
        match rainfall_of(value@) {
            Some(v) => r is Ok && r->Ok_0 == v,
            None => refused(r, "`M` or an integer"@, value@),
        },
{
    if equals_ignoring_case(value, "M") {
        Ok(RainfallValue::UnderMaintenance)
    } else {
        match parse_unsigned(value) {
            Some(n) => Ok(RainfallValue::Rainfall(n)),
            None => Err(refuse("`M` or an integer", value)),
        }
    }
}

/// Decodes a local-clock text, `YYYYMMDD` or `YYYYMMDDHHMM`, as a time in
/// Hong Kong.
pub fn deserialize_local_time(value: &str) -> (r: Result<TimePoint, DecodeError>)
    ensures
        match local_time_of(value@) {
            Some(t) => r is Ok && r->Ok_0 == t && t.wf(),
            None => refused(r, "time formatted in YYYYMMDD or YYYYMMDDHHMM"@, value@),
        },
{
    match decode_local_time(value) {
        Some(t) => Ok(t),
        None => Err(refuse("time formatted in YYYYMMDD or YYYYMMDDHHMM", value)),
    }
}

/// Decodes an RFC 3339 date-and-time.
pub fn deserialize_rfc3339(value: &str) -> (r: Result<TimePoint, DecodeError>)
    ensures
        match rfc3339_time(value@) {
            Some(t) => r is Ok && r->Ok_0 == t && t.wf(),
            None => refused(r, "RFC 3339 date and time"@, value@),
        },
{
    match decode_rfc3339(value) {
        Some(t) => Ok(t),
        None => Err(refuse("RFC 3339 date and time", value)),
    }
}

/// The length of the floating-point literal that a text starts with, as the
/// parser library recognises it.
pub uninterp spec fn float_prefix(text: Seq<char>) -> Option<nat>;

/// Calls `nom::number::complete::recognize_float_or_exceptions` on the text.
/// On success the two results are the recognised literal, a prefix of the
/// text, and the rest of the text.
#[verifier::external_body]
fn recognize_number(s: &str) -> (r: Option<(String, String)>)
    ensures
        r is Some <==> float_prefix(s@) is Some,
        r is Some ==> float_prefix(s@)->Some_0 <= s@.len() && r->Some_0.0@ == s@.subrange(
            0,
            float_prefix(s@)->Some_0 as int,
        ) && r->Some_0.1@ == s@.subrange(float_prefix(s@)->Some_0 as int, s@.len() as int),
{
    match nom::number::complete::recognize_float_or_exceptions::<&str, nom::error::Error<&str>>(s) {
        Ok((rest, number)) => Some((number.to_owned(), rest.to_owned())),
        Err(_) => None,
    }
}

/// The number and the unit of a text such as `10km`: the literal that the
/// text starts with, and what follows it without the white space around.
pub open spec fn value_unit_of(s: Seq<char>) -> Option<(Seq<char>, Seq<char>)> {
    match float_prefix(s) {
        Some(n) => Some((s.subrange(0, n as int), trimmed(s.subrange(n as int, s.len() as int)))),
        None => None,
    }
}

/// Decodes a number with its unit.
pub fn deserialize_value_unit(value: &str) -> (r: Result<ValUnit, DecodeError>)
    ensures
        match value_unit_of(value@) {
            Some(p) => r is Ok && r->Ok_0.value@ == p.0 && r->Ok_0.unit@ == p.1,
            None => refused(r, "number with a unit"@, value@),
        },
{
    match recognize_number(value) {
        Some((number, rest)) => {
            let unit: String = String::from_str(trim(rest.as_str()));
            Ok(ValUnit { value: number, unit })
        },
        None => Err(refuse("number with a unit", value)),
    }
}


/// The sentinel `M` decodes to the station under maintenance, and the
/// station under maintenance is written `M` again.
pub proof fn lemma_maintenance_sentinel()
    ensures
        rainfall_of("M"@) == Some(RainfallValue::UnderMaintenance),
        rainfall_of("m"@) == Some(RainfallValue::UnderMaintenance),
        rainfall_of("M"@)->Some_0.text() == "M"@,
{
    reveal_strlit("M");
    reveal_strlit("m");
    assert(lower('M') == 'm') by {
        assert((('M' as u32 + 32) as u8) as char == 'm');
    }
    assert(lower('m') == 'm');
}

/// A text that denotes an unsigned number decodes to the measured amount
/// of exactly that number.
pub proof fn lemma_amount_decodes(s: Seq<char>)
    requires
        unsigned_of(s) is Some,
    ensures
        rainfall_of(s) == Some(RainfallValue::Rainfall(unsigned_of(s)->Some_0)),
{
    reveal_strlit("M");
    if same_ignoring_case(s, "M"@) {
        assert(lower(s[0]) == lower('M'));
        assert(crate::text::unsigned_digits(s).len() > 0);
        if s[0] == '+' {
            assert(lower('+') == '+');
        } else {
            assert(crate::text::unsigned_digits(s) == s);
            assert(is_digit(s[0]));
        }
        assert(lower('M') != lower(s[0])) by {
            assert((('M' as u32 + 32) as u8) as char == 'm');
        }
    }
}

/// Writing a rainfall value and decoding the text gives the value back.
pub proof fn lemma_rainfall_round_trip(v: RainfallValue)
    ensures
        rainfall_of(v.text()) == Some(v),
{
    match v {
        RainfallValue::UnderMaintenance => {
            lemma_maintenance_sentinel();
        },
        RainfallValue::Rainfall(n) => {
            lemma_decimal_round_trip(n);
            lemma_amount_decodes(decimal_digits(n as nat));
        },
    }
}

} // verus!
