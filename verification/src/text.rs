//! Character and text primitives shared by the decoders.

use vstd::prelude::*;

verus! {

/// Unicode white space, the set that `trim` removes.
pub open spec fn is_space(c: char) -> bool {
    let n = c as u32;
    (0x09 <= n <= 0x0D) || n == 0x20 || n == 0x85 || n == 0xA0 || n == 0x1680 || (0x2000 <= n
        <= 0x200A) || n == 0x2028 || n == 0x2029 || n == 0x202F || n == 0x205F || n == 0x3000
}

/// An ASCII decimal digit.
pub open spec fn is_digit(c: char) -> bool {
    '0' <= c <= '9'
}

/// Tells whether a character is white space.
pub fn is_space_char(c: char) -> (r: bool)
    ensures
        r == is_space(c),
{
    let n: u32 = c as u32;
    (0x09 <= n && n <= 0x0D) || n == 0x20 || n == 0x85 || n == 0xA0 || n == 0x1680 || (0x2000 <= n
        && n <= 0x200A) || n == 0x2028 || n == 0x2029 || n == 0x202F || n == 0x205F || n == 0x3000
}

/// Tells whether a character is a decimal digit.
pub fn is_digit_char(c: char) -> (r: bool)
    ensures
        r == is_digit(c),
{
    '0' <= c && c <= '9'
}

/// The characters of `s`, in order.
pub fn chars_of(s: &str) -> (v: Vec<char>)
    ensures
        v@ == s@,
{
    let mut v: Vec<char> = Vec::new();
    for c in it: s.chars()
        invariant
            it.seq() == s@,
            v@ == it.seq().subrange(0, it.index() as int),
    {
        v.push(c);
        assert(v@ =~= it.seq().subrange(0, it.index() + 1));
    }
    assert(v@ =~= s@);
    v
}

/// Whether two texts hold the same characters.
pub fn same_text(a: &str, b: &str) -> (r: bool)
    ensures
        r == (a@ == b@),
{
    let x: String = a.to_owned();
    let y: String = b.to_owned();
    x == y
}

/// Index of the first character at or after `i` that is not white space.
pub open spec fn skip_spaces(s: Seq<char>, i: int) -> int
    decreases s.len() - i,
{
    if 0 <= i < s.len() && is_space(s[i]) {
        skip_spaces(s, i + 1)
    } else {
        i
    }
}

/// End of `s` once the white space before `j`, down to `lo`, is cut off.
pub open spec fn drop_spaces_back(s: Seq<char>, j: int, lo: int) -> int
    decreases j,
{
    if lo < j && 0 < j <= s.len() && is_space(s[j - 1]) {
        drop_spaces_back(s, j - 1, lo)
    } else {
        j
    }
}

/// `s` without its leading and trailing white space.
pub open spec fn trimmed(s: Seq<char>) -> Seq<char> {
    let a = skip_spaces(s, 0);
    let b = drop_spaces_back(s, s.len() as int, a);
    s.subrange(a, b)
}

/// Removes leading and trailing white space.
pub fn trim(s: &str) -> (r: &str)
    ensures
        r@ == trimmed(s@),
{
    let v: Vec<char> = chars_of(s);
    let n: usize = v.len();
    let mut a: usize = 0;
    while a < n && is_space_char(v[a])
        invariant
            v@ == s@,
            n == v.len(),
            a <= n,
            skip_spaces(s@, a as int) == skip_spaces(s@, 0),
        decreases n - a,
    {
        a = a + 1;
    }
    let mut b: usize = n;
    while b > a && is_space_char(v[b - 1])
        invariant
            v@ == s@,
            n == v.len(),
            a <= b <= n,
            drop_spaces_back(s@, b as int, a as int) == drop_spaces_back(s@, n as int, a as int),
        decreases b,
    {
        b = b - 1;
    }
    s.substring_char(a, b)
}


/// The number that a run of decimal digits denotes.
pub open spec fn decimal_value(s: Seq<char>) -> nat
    decreases s.len(),
{
    if s.len() == 0 {
        0
    } else {
        decimal_value(s.drop_last()) * 10 + (s.last() as u32 - '0' as u32) as nat
    }
}

/// Whether a text is made of decimal digits alone.
pub open spec fn all_digits(s: Seq<char>) -> bool {
    forall|i: int| 0 <= i < s.len() ==> is_digit(#[trigger] s[i])
}

/// The digits of an unsigned decimal literal: an optional `+`, then the rest.
pub open spec fn unsigned_digits(s: Seq<char>) -> Seq<char> {
    if s.len() > 0 && s[0] == '+' {
        s.subrange(1, s.len() as int)
    } else {
        s
    }
}

/// What an unsigned decimal literal denotes as a 32-bit number: an optional
/// `+`, one or more digits and nothing else, with a value that fits.
pub open spec fn unsigned_of(s: Seq<char>) -> Option<u32> {
    let d = unsigned_digits(s);
    if d.len() > 0 && all_digits(d) && decimal_value(d) <= u32::MAX {
        Some(decimal_value(d) as u32)
    } else {
        None
    }
}

/// A longer run of digits never denotes less than one of its prefixes.
pub proof fn lemma_decimal_value_prefix(s: Seq<char>, k: int)
    requires
        0 <= k <= s.len(),
    ensures
        decimal_value(s.subrange(0, k)) <= decimal_value(s),
    decreases s.len(),
{
    if k == s.len() {
        assert(s.subrange(0, k) =~= s);
    } else {
        lemma_decimal_value_prefix(s.drop_last(), k);
        assert(s.drop_last().subrange(0, k) =~= s.subrange(0, k));
    }
}

/// Decodes an unsigned decimal literal.
pub fn parse_unsigned(s: &str) -> (r: Option<u32>)
    ensures
        r == unsigned_of(s@),
{
    let v: Vec<char> = chars_of(s);
    let n: usize = v.len();
    let start: usize = if n > 0 && v[0] == '+' { 1 } else { 0 };
    let ghost d = unsigned_digits(s@);
    assert(d =~= s@.subrange(start as int, n as int));
    if start == n {
        return None;
    }
    let mut acc: u64 = 0;
    let mut i: usize = start;
    while i < n
        invariant
            v@ == s@,
            n == v.len(),
            start <= i <= n,
            d == s@.subrange(start as int, n as int),
            d == unsigned_digits(s@),
            all_digits(d.subrange(0, i - start)),
            acc == decimal_value(d.subrange(0, i - start)),
            acc <= u32::MAX,
        decreases n - i,
    {
        let c: char = v[i];
        assert(c == d[i - start]);
        if !is_digit_char(c) {
            assert(!is_digit(d[i - start]));
            return None;
        }
        let digit: u64 = (c as u32 - '0' as u32) as u64;
        let next: u64 = acc * 10 + digit;
        proof {
            let p = d.subrange(0, i + 1 - start);
            assert(p.drop_last() =~= d.subrange(0, i - start));
            assert(p.last() == c);
            assert(next == decimal_value(p));
            assert forall|j: int| 0 <= j < p.len() implies is_digit(#[trigger] p[j]) by {
                if j < i - start {
                    assert(d.subrange(0, i - start)[j] == p[j]);
                }
            }
            if next > u32::MAX {
                lemma_decimal_value_prefix(d, i + 1 - start);
            }
        }
        if next > 0xFFFF_FFFF {
            return None;
        }
        acc = next;
        i = i + 1;
    }
    assert(d.subrange(0, n - start) =~= d);
    Some(acc as u32)
}

/// End of the run of digits that starts at `i`.
pub open spec fn digits_end(s: Seq<char>, i: int) -> int
    decreases s.len() - i,
{
    if 0 <= i < s.len() && is_digit(s[i]) {
        digits_end(s, i + 1)
    } else {
        i
    }
}

/// ASCII lower case of a character.
pub open spec fn lower(c: char) -> char {
    if 'A' <= c <= 'Z' {
        ((c as u32 + 32) as u8) as char
    } else {
        c
    }
}

/// Whether `s` and `word` are equal up to ASCII case.
pub open spec fn same_ignoring_case(s: Seq<char>, word: Seq<char>) -> bool {
    s.len() == word.len() && forall|i: int| 0 <= i < s.len() ==> lower(#[trigger] s[i]) == lower(word[i])
}

/// The ASCII lower case of a character.
pub fn lower_char(c: char) -> (r: char)
    ensures
        r == lower(c),
{
    if 'A' <= c && c <= 'Z' {
        ((c as u32 + 32) as u8) as char
    } else {
        c
    }
}

/// Compares two texts up to ASCII case.
pub fn equals_ignoring_case(s: &str, word: &str) -> (r: bool)
    ensures
        r == same_ignoring_case(s@, word@),
{
    let a: Vec<char> = chars_of(s);
    let b: Vec<char> = chars_of(word);
    if a.len() != b.len() {
        return false;
    }
    let mut i: usize = 0;
    while i < a.len()
        invariant
            a@ == s@,
            b@ == word@,
            a.len() == b.len(),
            i <= a.len(),
            forall|j: int| 0 <= j < i ==> lower(#[trigger] s@[j]) == lower(word@[j]),
        decreases a.len() - i,
    {
        if lower_char(a[i]) != lower_char(b[i]) {
            return false;
        }
        i = i + 1;
    }
    true
}

/// Where the unsigned part of a floating-point literal starts: after one sign.
pub open spec fn after_sign(s: Seq<char>, i: int) -> int {
    if 0 <= i < s.len() && (s[i] == '+' || s[i] == '-') {
        i + 1
    } else {
        i
    }
}

/// Whether `s` from `a` on is a decimal number: digits with at most one point
/// among them, at least one digit, and an optional exponent (`e` or `E`, an
/// optional sign, at least one digit) that reaches the end of `s`.
pub open spec fn is_decimal_from(s: Seq<char>, a: int) -> bool {
    let b = digits_end(s, a);
    let has_point = b < s.len() && s[b] == '.';
    let c = if has_point { digits_end(s, b + 1) } else { b };
    let digits = (b - a) + (if has_point { c - (b + 1) } else { 0 });
    digits > 0 && (c == s.len() || ((s[c] == 'e' || s[c] == 'E') && {
        let d = after_sign(s, c + 1);
        let e = digits_end(s, d);
        e > d && e == s.len()
    }))
}

/// The grammar of a floating-point literal: an optional sign, then either a
/// decimal number or one of `inf`, `infinity`, `nan` in any case.
pub open spec fn is_float_text(s: Seq<char>) -> bool {
    let a = after_sign(s, 0);
    let rest = s.subrange(a, s.len() as int);
    s.len() > 0 && (is_decimal_from(s, a) || same_ignoring_case(rest, "inf"@) || same_ignoring_case(
        rest,
        "infinity"@,
    ) || same_ignoring_case(rest, "nan"@))
}

fn scan_digits(v: &Vec<char>, i: usize) -> (r: usize)
    requires
        i <= v.len(),
    ensures
        r == digits_end(v@, i as int),
        i <= r <= v.len(),
{
    let mut j: usize = i;
    while j < v.len() && is_digit_char(v[j])
        invariant
            i <= j <= v.len(),
            digits_end(v@, j as int) == digits_end(v@, i as int),
        decreases v.len() - j,
    {
        j = j + 1;
    }
    j
}

fn scan_sign(v: &Vec<char>, i: usize) -> (r: usize)
    requires
        i <= v.len(),
    ensures
        r == after_sign(v@, i as int),
        i <= r <= v.len(),
{
    if i < v.len() && (v[i] == '+' || v[i] == '-') {
        i + 1
    } else {
        i
    }
}

fn check_decimal_from(v: &Vec<char>, a: usize) -> (r: bool)
    requires
        a <= v.len(),
    ensures
        r == is_decimal_from(v@, a as int),
{
    let n: usize = v.len();
    let b: usize = scan_digits(v, a);
    let has_point: bool = b < n && v[b] == '.';
    let c: usize = if has_point { scan_digits(v, b + 1) } else { b };
    let digits: usize = (b - a) + (if has_point { c - (b + 1) } else { 0 });
    if digits == 0 {
        return false;
    }
    if c == n {
        return true;
    }
    if v[c] != 'e' && v[c] != 'E' {
        return false;
    }
    let d: usize = scan_sign(v, c + 1);
    let e: usize = scan_digits(v, d);
    e > d && e == n
}

/// Whether `s` is a floating-point literal.
pub fn is_float(s: &str) -> (r: bool)
    ensures
        r == is_float_text(s@),
{
    let v: Vec<char> = chars_of(s);
    if v.len() == 0 {
        return false;
    }
    let a: usize = scan_sign(&v, 0);
    if check_decimal_from(&v, a) {
        return true;
    }
    let rest: &str = s.substring_char(a, v.len());
    equals_ignoring_case(rest, "inf") || equals_ignoring_case(rest, "infinity")
        || equals_ignoring_case(rest, "nan")
}


/// Index of the first `c` at or after `from`; the length of `s` or more
/// where there is none.
pub open spec fn find_char(s: Seq<char>, c: char, from: int) -> int
    decreases s.len() - from,
{
    if 0 <= from < s.len() && s[from] != c {
        find_char(s, c, from + 1)
    } else {
        from
    }
}

/// Finds the first `c` at or after `from`.
pub fn index_of(v: &Vec<char>, c: char, from: usize) -> (r: usize)
    requires
        from <= v.len(),
    ensures
        r == find_char(v@, c, from as int),
        from <= r <= v.len(),
{
    let mut i: usize = from;
    while i < v.len() && v[i] != c
        invariant
            from <= i <= v.len(),
            find_char(v@, c, i as int) == find_char(v@, c, from as int),
        decreases v.len() - i,
    {
        i = i + 1;
    }
    i
}

/// The two ends of a span `<start>-<end>`: what stands before the first
/// `-`, and what stands between it and the next `-` or the end. A text
/// without `-` is no span.
pub open spec fn span_of(s: Seq<char>) -> Option<(Seq<char>, Seq<char>)> {
    let a = find_char(s, '-', 0);
    if a >= s.len() {
        None
    } else {
        Some((s.subrange(0, a), s.subrange(a + 1, find_char(s, '-', a + 1))))
    }
}

/// Splits a span `<start>-<end>` into its two ends.
pub fn split_span(s: &str) -> (r: Option<(&str, &str)>)
    ensures
        r is Some <==> span_of(s@) is Some,
        r is Some ==> r->Some_0.0@ == span_of(s@)->Some_0.0 && r->Some_0.1@ == span_of(
            s@,
        )->Some_0.1,
{
    let v: Vec<char> = chars_of(s);
    let a: usize = index_of(&v, '-', 0);
    if a >= v.len() {
        None
    } else {
        let b: usize = index_of(&v, '-', a + 1);
        Some((s.substring_char(0, a), s.substring_char(a + 1, b)))
    }
}

/// Whether `s` ends with `suffix`.
pub open spec fn ends_with(s: Seq<char>, suffix: Seq<char>) -> bool {
    suffix.len() <= s.len() && s.subrange(s.len() - suffix.len(), s.len() as int) == suffix
}

/// Tells whether `v` ends with `suffix`.
pub fn has_suffix(v: &Vec<char>, suffix: &Vec<char>) -> (r: bool)
    ensures
        r == ends_with(v@, suffix@),
{
    if suffix.len() > v.len() {
        return false;
    }
    let base: usize = v.len() - suffix.len();
    let ghost tail = v@.subrange(base as int, v@.len() as int);
    let mut i: usize = 0;
    while i < suffix.len()
        invariant
            i <= suffix.len(),
            suffix.len() <= v.len(),
            base == v.len() - suffix.len(),
            tail == v@.subrange(base as int, v@.len() as int),
            forall|k: int| 0 <= k < i ==> #[trigger] tail[k] == suffix@[k],
        decreases suffix.len() - i,
    {
        if v[base + i] != suffix[i] {
            assert(tail[i as int] != suffix@[i as int]);
            return false;
        }
        assert(tail[i as int] == suffix@[i as int]);
        i = i + 1;
    }
    assert(tail =~= suffix@);
    true
}

} // verus!
