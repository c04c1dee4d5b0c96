//! Character classes and the small text routines the rest of the library is
//! stated over: comparing, joining, replacing and writing numbers in decimal.

use vstd::prelude::*;

verus! {

/// Whether `c` is one of the characters of ASCII.
pub open spec fn is_ascii_char(c: char) -> bool {
    c <= '\u{7f}'
}

/// Whether `c` is one of the ten digits of ASCII.
pub open spec fn is_ascii_digit_char(c: char) -> bool {
    '0' <= c <= '9'
}

/// Whether `c` is one of the letters of ASCII, small or capital.
pub open spec fn is_ascii_letter_char(c: char) -> bool {
    ('a' <= c <= 'z') || ('A' <= c <= 'Z')
}

/// Whether `c` is whitespace of ASCII: the blank, or one of the five
/// controls from the tabulator to the carriage return.
pub open spec fn is_ascii_whitespace_char(c: char) -> bool {
    c == ' ' || ('\u{9}' <= c <= '\u{d}')
}

/// The answer of `char::is_alphanumeric` for a character beyond ASCII:
/// whether Unicode classes it as alphabetic or numeric.
pub uninterp spec fn alphanumeric_beyond_ascii(c: char) -> bool;

/// The answer of `char::is_numeric` for a character beyond ASCII: whether
/// Unicode classes it as a number (decimal digits, letter numbers and other
/// numerals).
pub uninterp spec fn numeric_beyond_ascii(c: char) -> bool;

/// The answer of `char::is_whitespace` for a character beyond ASCII: whether
/// it has Unicode's `White_Space` property.
pub uninterp spec fn whitespace_beyond_ascii(c: char) -> bool;

/// Whether Unicode classes `c` as alphabetic or numeric: within ASCII the
/// letters and the digits, beyond it what std's tables say.
pub open spec fn is_alphanumeric_char(c: char) -> bool {
    if is_ascii_char(c) {
        is_ascii_letter_char(c) || is_ascii_digit_char(c)
    } else {
        alphanumeric_beyond_ascii(c)
    }
}

/// Whether Unicode classes `c` as a number: within ASCII the ten digits,
/// beyond it what std's tables say.
pub open spec fn is_numeric_char(c: char) -> bool {
    if is_ascii_char(c) {
        is_ascii_digit_char(c)
    } else {
        numeric_beyond_ascii(c)
    }
}

/// Whether `c` has Unicode's `White_Space` property: within ASCII the blank
/// and the controls from the tabulator to the carriage return, beyond it
/// what std's tables say.
pub open spec fn is_whitespace_char(c: char) -> bool {
    if is_ascii_char(c) {
        is_ascii_whitespace_char(c)
    } else {
        whitespace_beyond_ascii(c)
    }
}

/// `char::is_alphanumeric` of std answers whether a character is alphabetic
/// or numeric in Unicode's terms. Assumed: of the characters of ASCII these
/// are the letters and the digits; beyond ASCII the answer is the same for
/// the same character.
pub assume_specification[ char::is_alphanumeric ](c: char) -> (b: bool)
    ensures
        b == is_alphanumeric_char(c),
        !is_ascii_char(c) ==> b == alphanumeric_beyond_ascii(c),
;

/// `char::is_numeric` of std answers whether a character has one of
/// Unicode's general categories for numbers. Assumed: of the characters of
/// ASCII these are the ten digits; beyond ASCII the answer is the same for
/// the same character.
pub assume_specification[ char::is_numeric ](c: char) -> (b: bool)
    ensures
        b == is_numeric_char(c),
        !is_ascii_char(c) ==> b == numeric_beyond_ascii(c),
;

/// `char::is_whitespace` of std answers whether a character has Unicode's
/// `White_Space` property. Assumed: of the characters of ASCII these are the
/// blank and the controls from U+0009 to U+000D; beyond ASCII the answer is
/// the same for the same character.
pub assume_specification[ char::is_whitespace ](c: char) -> (b: bool)
    ensures
        b == is_whitespace_char(c),
        !is_ascii_char(c) ==> b == whitespace_beyond_ascii(c),
;

/// `String::push` of std appends one character to the end of the string;
/// assumed here: the characters already there stay as they are.
pub assume_specification[ String::push ](s: &mut String, c: char)
    ensures
        final(s)@ == old(s)@.push(c),
;

/// The texts of a sequence of strings.
pub open spec fn texts(strings: Seq<String>) -> Seq<Seq<char>> {
    strings.map_values(|s: String| s@)
}

/// The texts of a sequence of string slices.
pub open spec fn slice_texts(strings: Seq<&str>) -> Seq<Seq<char>> {
    strings.map_values(|s: &str| s@)
}

/// The texts of two sequences, one after the other, are the texts of the
/// one followed by the texts of the other.
pub proof fn lemma_texts_add(first: Seq<String>, second: Seq<String>)
    ensures
        texts(first + second) == texts(first) + texts(second),
{
    assert(texts(first + second) =~= texts(first) + texts(second));
}

/// `parts` written one after another with `sep` between neighbours.
pub open spec fn join_spec(parts: Seq<Seq<char>>, sep: Seq<char>) -> Seq<char>
    decreases parts.len(),
{
    if parts.len() == 0 {
        Seq::empty()
    } else if parts.len() == 1 {
        parts[0]
    } else {
        join_spec(parts.drop_last(), sep) + sep + parts.last()
    }
}

/// `s` with every `from` turned into `to`.
pub open spec fn replace_char_spec(s: Seq<char>, from: char, to: char) -> Seq<char> {
    Seq::new(
        s.len(),
        |i: int|
            if s[i] == from {
                to
            } else {
                s[i]
            },
    )
}

/// Replacing keeps the length, leaves no `from` behind where `to` is
/// another character, and changes nothing but the places of `from`.
pub proof fn lemma_replace_char(s: Seq<char>, from: char, to: char)
    ensures
        replace_char_spec(s, from, to).len() == s.len(),
        from != to ==> !replace_char_spec(s, from, to).contains(from),
        forall|i: int|
            0 <= i < s.len() && s[i] != from ==> #[trigger] replace_char_spec(s, from, to)[i]
                == s[i],
        forall|i: int|
            0 <= i < s.len() && s[i] == from ==> #[trigger] replace_char_spec(s, from, to)[i]
                == to,
{
}

/// The character that writes the digit `d`.
pub open spec fn digit_char(d: nat) -> char
    recommends
        d < 10,
{
    (48 + d) as char
}

/// `n` in decimal, without leading zeros.
pub open spec fn decimal(n: nat) -> Seq<char>
    decreases n,
{
    if n < 10 {
        seq![digit_char(n)]
    } else {
        decimal(n / 10).push(digit_char(n % 10))
    }
}

/// `i` in decimal, with a minus sign in front when it is negative.
pub open spec fn signed_decimal(i: int) -> Seq<char> {
    if i < 0 {
        seq!['-'] + decimal((-i) as nat)
    } else {
        decimal(i as nat)
    }
}

/// The characters of `s`, in order.
pub fn chars_of(s: &str) -> (v: Vec<char>)
    ensures
        v@ == s@,
{
    let mut v: Vec<char> = Vec::new();
    for c in it: s.chars()
        invariant
            it.seq() == s@,
            v@ == it.seq().take(it.index() as int),
    {
        v.push(c);
    }
    v
}

/// Whether two string slices hold the same text.
pub fn text_eq(a: &str, b: &str) -> (same: bool)
    ensures
        same == (a@ == b@),
{
    a.to_owned() == b.to_owned()
}

/// Whether `name` is among `names`.
pub fn contains_text(names: &[&str], name: &str) -> (found: bool)
    ensures
        found == slice_texts(names@).contains(name@),
{
    let mut i: usize = 0;
    while i < names.len()
        invariant
            i <= names.len(),
            forall|j: int| 0 <= j < i ==> slice_texts(names@)[j] != name@,
        decreases names.len() - i,
    {
        if text_eq(names[i], name) {
            assert(slice_texts(names@)[i as int] == name@);
            return true;
        }
        i += 1;
    }
    false
}

/// Copies `s`, writing `to` wherever `s` has `from`.
pub fn replace_char(s: &str, from: char, to: char) -> (out: String)
    ensures
        out@ == replace_char_spec(s@, from, to),
{
    let chars = chars_of(s);
    let mut out = String::new();
    let mut i: usize = 0;
    while i < chars.len()
        invariant
            i <= chars.len(),
            chars@ == s@,
            out@ == replace_char_spec(s@, from, to).take(i as int),
        decreases chars.len() - i,
    {
        let c = chars[i];
        if c == from {
            out.push(to);
        } else {
            out.push(c);
        }
        i += 1;
    }
    out
}

/// Writes `parts` one after another with `sep` between neighbours.
pub fn join(parts: &Vec<String>, sep: &str) -> (out: String)
    ensures
        out@ == join_spec(texts(parts@), sep@),
{
    let mut out = String::new();
    let mut i: usize = 0;
    while i < parts.len()
        invariant
            i <= parts.len(),
            out@ == join_spec(texts(parts@).take(i as int), sep@),
        decreases parts.len() - i,
    {
        if i > 0 {
            out.append(sep);
        }
        out.append(parts[i].as_str());
        proof {
            let all = texts(parts@);
            assert(all.take(i + 1).drop_last() == all.take(i as int));
            assert(all.take(i + 1).last() == parts[i as int]@);
        }
        i += 1;
    }
    assert(texts(parts@).take(parts.len() as int) == texts(parts@));
    out
}

/// Writes `n` in decimal.
pub fn u64_to_decimal(n: u64) -> (out: String)
    ensures
        out@ == decimal(n as nat),
    decreases n,
{
    if n < 10 {
        let mut out = String::new();
        out.push((48u8 + n as u8) as char);
        out
    } else {
        let mut out = u64_to_decimal(n / 10);
        out.push((48u8 + (n % 10) as u8) as char);
        out
    }
}

/// Writes `n` in decimal, with a minus sign in front when it is negative.
pub fn i32_to_decimal(n: i32) -> (out: String)
    ensures
        out@ == signed_decimal(n as int),
{
    if n < 0 {
        let magnitude: u64 = (-(n as i64)) as u64;
        let mut out = String::new();
        out.push('-');
        out.append(u64_to_decimal(magnitude).as_str());
        out
    } else {
        u64_to_decimal(n as u64)
    }
}

} // verus!
