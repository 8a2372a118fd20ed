//! Types shared by the datasets.

use crate::fields::number_in;
use crate::fields::number_member;
use crate::json::list_of;
use crate::json::text_in;
use crate::json::text_member;
use crate::json::texts;
use crate::json::Json;
use crate::text::all_digits;
use crate::text::decimal_value;
use crate::text::is_digit;
use crate::text::unsigned_digits;
use crate::text::unsigned_of;
use vstd::prelude::*;
use vstd::string::StringExecFns;

verus! {

/// The languages of the API: English, Simplified Chinese and Traditional
/// Chinese.
#[derive(Clone, Copy, Debug, PartialEq, Eq, Structural)]
pub enum Lang {
    EN,
    SC,
    TC,
}

impl Lang {
    /// The value of the request parameter `lang`.
    pub open spec fn code_text(self) -> Seq<char> {
        match self {
            Lang::EN => "en"@,
            Lang::SC => "sc"@,
            Lang::TC => "tc"@,
        }
    }

    /// The value of the request parameter `lang`.
    pub fn code(&self) -> (r: &'static str)
        ensures
            r@ == self.code_text(),
    {
        match self {
            Lang::EN => "en",
            Lang::SC => "sc",
            Lang::TC => "tc",
        }
    }
}

/// The name and the description of a value of an enumeration, in each
/// language.
pub trait EnumNameDesc {
    /// What `name` returns.
    spec fn name_text(&self, lang: Lang) -> Seq<char>;

    /// What `desc` returns.
    spec fn desc_text(&self, lang: Lang) -> Seq<char>;

    /// Gets the name of the item.
    fn name(&self, lang: Lang) -> (r: String)
        ensures
            r@ == self.name_text(lang),
    ;

    /// Gets the description of the item.
    fn desc(&self, lang: Lang) -> (r: String)
        ensures
            r@ == self.desc_text(lang),
    ;
}

/// A value with its unit. The value is the decimal text of a number.
#[derive(Clone, Debug)]
pub struct ValUnit {
    pub value: String,
    pub unit: String,
}

/// A value with its unit in a place. The value is the decimal text of a
/// number.
#[derive(Clone, Debug)]
pub struct PlaceValUnit {
    pub place: String,
    pub value: String,
    pub unit: String,
}

/// One message or a list of messages. The single message may be empty.
#[derive(Clone, Debug)]
pub enum Message {
    String(String),
    List(Vec<String>),
}

/// A walk over the messages of a `Message`, made by its `iter`.
pub struct Iter<'a> {
    message: &'a Message,
    position: usize,
}

impl Message {
    /// The messages in order: one for a single message, all of a list.
    pub open spec fn items(self) -> Seq<String> {
        match self {
            Message::String(s) => seq![s],
            Message::List(v) => v@,
        }
    }

    /// Returns true for a single message.
    pub fn is_string(&self) -> (r: bool)
        ensures
            r == (*self is String),
    {
        match self {
            Message::String(_) => true,
            Message::List(_) => false,
        }
    }

    /// Returns true for a list.
    pub fn is_list(&self) -> (r: bool)
        ensures
            r == (*self is List),
    {
        !self.is_string()
    }

    /// The single message, if it is one; a list is discarded.
    pub fn string(self) -> (r: Option<String>)
        ensures
            r == (match self {
                Message::String(s) => Some(s),
                Message::List(_) => None,
            }),
    {
        match self {
            Message::String(x) => Some(x),
            Message::List(_) => None,
        }
    }

    /// The list, if it is one; a single message is discarded.
    pub fn list(self) -> (r: Option<Vec<String>>)
        ensures
            r == (match self {
                Message::String(_) => None,
                Message::List(v) => Some(v),
            }),
    {
        match self {
            Message::String(_) => None,
            Message::List(x) => Some(x),
        }
    }

    /// The number of messages.
    pub fn len(&self) -> (r: usize)
        ensures
            r == self.items().len(),
    {
        match self {
            Message::String(_) => 1,
            Message::List(v) => v.len(),
        }
    }

    /// The message at `index`, if there is one.
    pub fn get(&self, index: usize) -> (r: Option<&String>)
        ensures
            r is Some <==> index < self.items().len(),
            r is Some ==> *r->Some_0 == self.items()[index as int],
    {
        match self {
            Message::String(s) => if index == 0 {
                Some(s)
            } else {
                None
            },
            Message::List(v) => if index < v.len() {
                Some(&v[index])
            } else {
                None
            },
        }
    }

    /// A walk over the messages, from the first.
    pub fn iter(&self) -> (r: Iter<'_>)
        ensures
            r.message() == *self,
            r.position() == 0,
    {
        Iter { message: self, position: 0 }
    }

    /// The messages as a list.
    pub fn into_vec(self) -> (r: Vec<String>)
        ensures
            r@ == self.items(),
    {
        match self {
            Message::String(x) => {
                let mut v: Vec<String> = Vec::new();
                v.push(x);
                v
            },
            Message::List(x) => x,
        }
    }
}

impl<'a> Iter<'a> {
    /// The message that is walked over.
    pub closed spec fn message(&self) -> Message {
        *self.message
    }

    /// How many messages were handed out.
    pub closed spec fn position(&self) -> nat {
        self.position as nat
    }

    /// Hands out the next message, or `None` once all are handed out.
    pub fn next(&mut self) -> (r: Option<&'a String>)
        ensures
            final(self).message() == old(self).message(),
            match r {
                Some(s) => old(self).position() < old(self).message().items().len() && *s == old(
                    self,
                ).message().items()[old(self).position() as int] && final(self).position() == old(
                    self,
                ).position() + 1,
                None => old(self).position() >= old(self).message().items().len() && final(self).position()
                    == old(self).position(),
            },
    {
        let m: &'a Message = self.message;
        let count: usize = m.len();
        match m.get(self.position) {
            Some(s) => {
                assert(self.position < count);
                self.position = self.position + 1;
                Some(s)
            },
            None => None,
        }
    }
}

/// The character of a decimal digit.
pub open spec fn digit_char(d: nat) -> char {
    if d == 0 {
        '0'
    } else if d == 1 {
        '1'
    } else if d == 2 {
        '2'
    } else if d == 3 {
        '3'
    } else if d == 4 {
        '4'
    } else if d == 5 {
        '5'
    } else if d == 6 {
        '6'
    } else if d == 7 {
        '7'
    } else if d == 8 {
        '8'
    } else {
        '9'
    }
}

/// The decimal digits of a number, without leading zeros.
pub open spec fn decimal_digits(n: nat) -> Seq<char>
    decreases n,
{
    if n < 10 {
        seq![digit_char(n)]
    } else {
        decimal_digits(n / 10).push(digit_char(n % 10))
    }
}

fn digit_text(d: u32) -> (r: &'static str)
    requires
        d < 10,
    ensures
        r@ == seq![digit_char(d as nat)],
{
    proof {
        reveal_strlit("0");
        reveal_strlit("1");
        reveal_strlit("2");
        reveal_strlit("3");
        reveal_strlit("4");
        reveal_strlit("5");
        reveal_strlit("6");
        reveal_strlit("7");
        reveal_strlit("8");
        reveal_strlit("9");
    }
    let r: &'static str = if d == 0 {
        "0"
    } else if d == 1 {
        "1"
    } else if d == 2 {
        "2"
    } else if d == 3 {
        "3"
    } else if d == 4 {
        "4"
    } else if d == 5 {
        "5"
    } else if d == 6 {
        "6"
    } else if d == 7 {
        "7"
    } else if d == 8 {
        "8"
    } else {
        "9"
    };
    assert(r@ =~= seq![digit_char(d as nat)]);
    r
}

/// Writes a number in decimal digits.
pub fn decimal_text(n: u32) -> (r: String)
    ensures
        r@ == decimal_digits(n as nat),
    decreases n,
{
    if n < 10 {
        String::from_str(digit_text(n))
    } else {
        let mut s: String = decimal_text(n / 10);
        s.append(digit_text(n % 10));
        assert(s@ =~= decimal_digits(n as nat));
        s
    }
}


/// A whole number in decimal digits, with `-` before a negative one.
pub open spec fn signed_digits(n: int) -> Seq<char> {
    if n < 0 {
        seq!['-'] + decimal_digits((-n) as nat)
    } else {
        decimal_digits(n as nat)
    }
}

/// Writes a whole number in decimal digits.
pub fn signed_text(n: i32) -> (r: String)
    ensures
        r@ == signed_digits(n as int),
{
    if n < 0 {
        let magnitude: u32 = if n == -2147483648 {
            2147483648
        } else {
            (-n) as u32
        };
        let digits: String = decimal_text(magnitude);
        proof {
            reveal_strlit("-");
            assert("-"@ =~= seq!['-']);
        }
        String::from_str("-").concat(digits.as_str())
    } else {
        decimal_text(n as u32)
    }
}


/// The decimal digits of a number are digits, at least one, and denote the
/// number.
pub proof fn lemma_decimal_digits(n: nat)
    ensures
        decimal_digits(n).len() > 0,
        all_digits(decimal_digits(n)),
        decimal_value(decimal_digits(n)) == n,
    decreases n,
{
    let s = decimal_digits(n);
    if n < 10 {
        assert(s.drop_last() =~= Seq::<char>::empty());
        assert(decimal_value(Seq::<char>::empty()) == 0);
        assert(s.last() == digit_char(n));
        assert(is_digit(s[0]));
    } else {
        lemma_decimal_digits(n / 10);
        assert(s.drop_last() =~= decimal_digits(n / 10));
        assert(s.last() == digit_char(n % 10));
        assert forall|i: int| 0 <= i < s.len() implies is_digit(#[trigger] s[i]) by {
            if i < s.len() - 1 {
                assert(s[i] == decimal_digits(n / 10)[i]);
            }
        }
    }
}

/// Writing a number in decimal digits and reading the digits gives the
/// number back.
pub proof fn lemma_decimal_round_trip(n: u32)
    ensures
        unsigned_of(decimal_digits(n as nat)) == Some(n),
{
    lemma_decimal_digits(n as nat);
    let s = decimal_digits(n as nat);
    assert(is_digit(s[0]));
    assert(unsigned_digits(s) == s);
}


/// The texts of a message.
pub open spec fn message_texts(m: Message) -> Seq<Seq<char>> {
    texts(m.items())
}

/// The texts of the message that a value denotes: the one text of a text,
/// the texts of a list of texts, nothing for any other value.
pub open spec fn message_of(j: Json) -> Option<Seq<Seq<char>>> {
    match j {
        Json::Text(t) => Some(seq![t@]),
        _ => list_of(j),
    }
}

impl Message {
    /// Decodes a message: a text is a single message, a list of texts a
    /// list.
    pub fn from_json(j: &Json) -> (r: Option<Message>)
        ensures
            r is Some <==> message_of(*j) is Some,
            r is Some ==> message_texts(r->Some_0) == message_of(*j)->Some_0,
            r is Some ==> (r->Some_0 is String <==> *j is Text),
    {
        match j {
            Json::Text(t) => {
                let m: Message = Message::String(t.clone());
                assert(message_texts(m) =~= seq![t@]);
                Some(m)
            },
            _ => match j.to_list() {
                Some(list) => Some(Message::List(list)),
                None => None,
            },
        }
    }
}

/// What a `ValUnit` holds.
pub struct ValUnitView {
    pub value: Seq<char>,
    pub unit: Seq<char>,
}

impl View for ValUnit {
    type V = ValUnitView;

    open spec fn view(&self) -> ValUnitView {
        ValUnitView {
            value: self.value@,
            unit: self.unit@,
        }
    }
}

/// What a value holds as a value with its unit: nothing where a member is missing or
/// cannot be read as its field.
pub open spec fn val_unit_of(j: Json) -> Option<ValUnitView> {
    if number_in(j, "value"@) is Some
        && text_in(j, "unit"@) is Some {
        Some(
            ValUnitView {
                value: number_in(j, "value"@)->Some_0,
                unit: text_in(j, "unit"@)->Some_0,
            },
        )
    } else {
        None
    }
}

impl ValUnit {
    /// Decodes a value with its unit.
    pub fn from_json(j: &Json) -> (r: Option<ValUnit>)
        ensures
            r is Some <==> val_unit_of(*j) is Some,
            r is Some ==> r->Some_0@ == val_unit_of(*j)->Some_0,
    {
        let value: String = match number_member(j, "value") {
            Some(x) => x,
            None => {
                return None;
            },
        };
        let unit: String = match text_member(j, "unit") {
            Some(x) => x,
            None => {
                return None;
            },
        };
        Some(ValUnit { value, unit })
    }
}

/// What the member under a key holds as a value with its unit.
pub open spec fn val_unit_in(doc: Json, key: Seq<char>) -> Option<ValUnitView> {
    match doc.member_spec(key) {
        Some(j) => val_unit_of(j),
        None => None,
    }
}

/// Decodes the member under a key as a value with its unit.
pub fn val_unit_member(doc: &Json, key: &str) -> (r: Option<ValUnit>)
    ensures
        r is Some <==> val_unit_in(*doc, key@) is Some,
        r is Some ==> r->Some_0@ == val_unit_in(*doc, key@)->Some_0,
{
    match doc.member(key) {
        Some(j) => ValUnit::from_json(j),
        None => None,
    }
}

/// What a `PlaceValUnit` holds.
pub struct PlaceValUnitView {
    pub place: Seq<char>,
    pub value: Seq<char>,
    pub unit: Seq<char>,
}

impl View for PlaceValUnit {
    type V = PlaceValUnitView;

    open spec fn view(&self) -> PlaceValUnitView {
        PlaceValUnitView {
            place: self.place@,
            value: self.value@,
            unit: self.unit@,
        }
    }
}

/// What a value holds as a value with its unit in a place: nothing where a member is missing or
/// cannot be read as its field.
pub open spec fn place_val_unit_of(j: Json) -> Option<PlaceValUnitView> {
    if text_in(j, "place"@) is Some
        && number_in(j, "value"@) is Some
        && text_in(j, "unit"@) is Some {
        Some(
            PlaceValUnitView {
                place: text_in(j, "place"@)->Some_0,
                value: number_in(j, "value"@)->Some_0,
                unit: text_in(j, "unit"@)->Some_0,
            },
        )
    } else {
        None
    }
}

impl PlaceValUnit {
    /// Decodes a value with its unit in a place.
    pub fn from_json(j: &Json) -> (r: Option<PlaceValUnit>)
        ensures
            r is Some <==> place_val_unit_of(*j) is Some,
            r is Some ==> r->Some_0@ == place_val_unit_of(*j)->Some_0,
    {
        let place: String = match text_member(j, "place") {
            Some(x) => x,
            None => {
                return None;
            },
        };
        let value: String = match number_member(j, "value") {
            Some(x) => x,
            None => {
                return None;
            },
        };
        let unit: String = match text_member(j, "unit") {
            Some(x) => x,
            None => {
                return None;
            },
        };
        Some(PlaceValUnit { place, value, unit })
    }
}

/// What a list of `PlaceValUnit` holds.
pub open spec fn place_val_unit_views(list: Seq<PlaceValUnit>) -> Seq<PlaceValUnitView> {
    Seq::new(list.len(), |i: int| list[i]@)
}

/// What a value holds as a list of `PlaceValUnit`, where it is an array of which
/// every item can be read.
pub open spec fn place_val_unit_list_of(j: Json) -> Option<Seq<PlaceValUnitView>> {
    match j {
        Json::Array(list) => if forall|i: int|
            0 <= i < list@.len() ==> place_val_unit_of(#[trigger] list@[i]) is Some {
            Some(Seq::new(list@.len(), |i: int| place_val_unit_of(list@[i])->Some_0))
        } else {
            None
        },
        _ => None,
    }
}

/// Decodes a list of `PlaceValUnit`.
pub fn place_val_unit_list(j: &Json) -> (r: Option<Vec<PlaceValUnit>>)
    ensures
        r is Some <==> place_val_unit_list_of(*j) is Some,
        r is Some ==> place_val_unit_views(r->Some_0@) == place_val_unit_list_of(*j)->Some_0,
{
    match j {
        Json::Array(list) => {
            let mut out: Vec<PlaceValUnit> = Vec::new();
            let mut i: usize = 0;
            while i < list.len()
                invariant
                    i <= list.len(),
                    out.len() == i,
                    *j matches Json::Array(l) && l == *list,
                    forall|k: int| 0 <= k < i ==> place_val_unit_of(#[trigger] list@[k]) is Some,
                    forall|k: int|
                        0 <= k < i ==> (#[trigger] out@[k])@ == place_val_unit_of(list@[k])->Some_0,
                decreases list.len() - i,
            {
                match PlaceValUnit::from_json(&list[i]) {
                    Some(x) => {
                        out.push(x);
                    },
                    None => {
                        assert(place_val_unit_of(list@[i as int]) is None);
                        return None;
                    },
                }
                i = i + 1;
            }
            assert(place_val_unit_views(out@) =~= place_val_unit_list_of(*j)->Some_0);
            Some(out)
        },
        _ => None,
    }
}

/// What the member under a key holds as a list of `PlaceValUnit`.
pub open spec fn place_val_unit_list_in(doc: Json, key: Seq<char>) -> Option<Seq<PlaceValUnitView>> {
    match doc.member_spec(key) {
        Some(j) => place_val_unit_list_of(j),
        None => None,
    }
}

/// Decodes the member under a key as a list of `PlaceValUnit`.
pub fn place_val_unit_list_member(doc: &Json, key: &str) -> (r: Option<Vec<PlaceValUnit>>)
    ensures
        r is Some <==> place_val_unit_list_in(*doc, key@) is Some,
        r is Some ==> place_val_unit_views(r->Some_0@) == place_val_unit_list_in(*doc, key@)->Some_0,
{
    match doc.member(key) {
        Some(j) => place_val_unit_list(j),
        None => None,
    }
}

} // verus!
