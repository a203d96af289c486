//! Character-level text helpers shared by the rest of the crate.

use vstd::prelude::*;
use vstd::string::*;
use vstd::utf8::*;

verus! {

/// `String::push` appends one character to the end of the string.
pub assume_specification[ String::push ](s: &mut String, ch: char)
    ensures
        final(s)@ == old(s)@.push(ch),
;

/// The ASCII lower-case form of a character; every other character is its own.
pub open spec fn ascii_lower(c: char) -> char {
    if 'A' <= c && c <= 'Z' {
        ((c as u8) + 32) as char
    } else {
        c
    }
}

/// Lower-cases one character, ASCII only.
pub fn lower(c: char) -> (r: char)
    ensures
        r == ascii_lower(c),
{
    if 'A' <= c && c <= 'Z' {
        ((c as u8) + 32) as char
    } else {
        c
    }
}

/// The characters of a string as a vector.
pub fn chars_of(s: &str) -> (r: Vec<char>)
    ensures
        r@ == s@,
{
    let mut out: Vec<char> = Vec::new();
    for c in it: s.chars()
        invariant
            out@ == s@.take(it.index()),
            it.seq() == s@,
    {
        out.push(c);
    }
    out
}

/// A string made of the given characters.
pub fn text_of(chars: &[char]) -> (r: String)
    ensures
        r@ == chars@,
{
    let mut out = String::new();
    for i in 0..chars.len()
        invariant
            out@ == chars@.take(i as int),
    {
        out.push(chars[i]);
        assert(chars@.take(i + 1) == chars@.take(i as int).push(chars@[i as int]));
    }
    assert(chars@.take(chars.len() as int) == chars@);
    out
}

/// Whether a character is a control character: the C0 and C1 ranges and DEL.
pub open spec fn control(c: char) -> bool {
    c <= '\u{1f}' || ('\u{7f}' <= c && c <= '\u{9f}')
}

/// Tests for a control character.
pub fn is_control(c: char) -> (r: bool)
    ensures
        r == control(c),
{
    c <= '\u{1f}' || ('\u{7f}' <= c && c <= '\u{9f}')
}

/// Decimal digits of a number, most significant first, without leading zeros.
pub open spec fn decimal(n: nat) -> Seq<char>
    decreases n,
{
    if n < 10 {
        seq![digit(n)]
    } else {
        decimal(n / 10).push(digit(n % 10))
    }
}

/// The character of a digit below ten.
pub open spec fn digit(n: nat) -> char {
    (48 + n) as char
}

/// Writes a number in decimal.
pub fn decimal_text(n: usize) -> (r: String)
    ensures
        r@ == decimal(n as nat),
    decreases n,
{
    let mut out = if n < 10 { String::new() } else { decimal_text(n / 10) };
    let d = (48 + (n % 10) as u8) as char;
    out.push(d);
    assert(n < 10 ==> n % 10 == n);
    assert(out@ == decimal(n as nat));
    out
}

/// A copy of a list of strings.
pub fn clone_all(list: &Vec<String>) -> (r: Vec<String>)
    ensures
        r@ == list@,
{
    let mut out: Vec<String> = Vec::new();
    for i in 0..list.len()
        invariant
            out@ == list@.take(i as int),
    {
        out.push(list[i].clone());
        assert(list@.take(i + 1) =~= list@.take(i as int).push(list@[i as int]));
    }
    assert(list@.take(list@.len() as int) =~= list@);
    out
}

/// Whether a character has the Unicode property White_Space.
pub open spec fn white_space(c: char) -> bool {
    ||| '\u{9}' <= c && c <= '\u{d}'
    ||| c == ' ' || c == '\u{85}' || c == '\u{a0}' || c == '\u{1680}'
    ||| '\u{2000}' <= c && c <= '\u{200a}'
    ||| c == '\u{2028}' || c == '\u{2029}' || c == '\u{202f}' || c == '\u{205f}' || c == '\u{3000}'
}

/// Tests for a white-space character.
pub fn is_white_space(c: char) -> (r: bool)
    ensures
        r == white_space(c),
{
    ('\u{9}' <= c && c <= '\u{d}') || c == ' ' || c == '\u{85}' || c == '\u{a0}' || c == '\u{1680}' || (
    '\u{2000}' <= c && c <= '\u{200a}') || c == '\u{2028}' || c == '\u{2029}' || c == '\u{202f}' || c
        == '\u{205f}' || c == '\u{3000}'
}

/// A text without the white space at its start.
pub open spec fn trim_start(s: Seq<char>) -> Seq<char>
    decreases s.len(),
{
    if s.len() > 0 && white_space(s[0]) {
        trim_start(s.skip(1))
    } else {
        s
    }
}

/// A text without the white space at its end.
pub open spec fn trim_end(s: Seq<char>) -> Seq<char>
    decreases s.len(),
{
    if s.len() > 0 && white_space(s.last()) {
        trim_end(s.drop_last())
    } else {
        s
    }
}

/// A text without the white space around it.
pub open spec fn trim(s: Seq<char>) -> Seq<char> {
    trim_end(trim_start(s))
}

/// Removes the white space around a text.
pub fn trimmed(s: &str) -> (r: &str)
    ensures
        r@ == trim(s@),
{
    let chars = chars_of(s);
    let mut from: usize = 0;
    assert(chars@.skip(0) =~= chars@);
    while from < chars.len() && is_white_space(chars[from])
        invariant
            from <= chars@.len(),
            trim_start(chars@) == trim_start(chars@.skip(from as int)),
        decreases chars.len() - from,
    {
        assert(chars@.skip(from as int).skip(1) =~= chars@.skip(from + 1));
        from += 1;
    }
    let ghost rest = chars@.skip(from as int);
    assert(trim_start(chars@) == rest);
    let mut to: usize = chars.len();
    assert(rest.take(to - from) =~= rest);
    while to > from && is_white_space(chars[to - 1])
        invariant
            from <= to <= chars@.len(),
            rest == chars@.skip(from as int),
            trim_end(rest) == trim_end(rest.take(to - from)),
        decreases to,
    {
        assert(rest.take(to - from).drop_last() =~= rest.take(to - 1 - from));
        assert(rest.take(to - from).last() == chars@[to - 1]);
        to -= 1;
    }
    assert(to > from ==> rest.take(to - from).last() == chars@[to - 1]);
    assert(rest.take(to - from) =~= s@.subrange(from as int, to as int));
    s.substring_char(from, to)
}

/// Whether a text holds a character.
pub fn has_char(s: &str, c: char) -> (r: bool)
    ensures
        r == s@.contains(c),
{
    let chars = chars_of(s);
    for i in 0..chars.len()
        invariant
            chars@ == s@,
            forall|k: int| 0 <= k < i ==> s@[k] != c,
    {
        if chars[i] == c {
            assert(s@[i as int] == c);
            return true;
        }
    }
    false
}

/// Tests two texts for equality.
pub fn same_text(a: &str, b: &str) -> (r: bool)
    ensures
        r == (a@ == b@),
{
    let (x, y) = (chars_of(a), chars_of(b));
    if x.len() != y.len() {
        return false;
    }
    for i in 0..x.len()
        invariant
            x@ == a@,
            y@ == b@,
            x.len() == y.len(),
            forall|k: int| 0 <= k < i ==> x@[k] == y@[k],
    {
        if x[i] != y[i] {
            return false;
        }
    }
    assert(a@ =~= b@);
    true
}

/// The texts of a list of strings.
pub open spec fn texts(list: Seq<String>) -> Seq<Seq<char>> {
    list.map_values(|s: String| s@)
}

/// The texts of a list of string slices.
pub open spec fn slices(list: Seq<&str>) -> Seq<Seq<char>> {
    list.map_values(|s: &str| s@)
}

/// Owned copies of a list of string slices.
pub fn strings(list: &[&str]) -> (r: Vec<String>)
    ensures
        texts(r@) == slices(list@),
        r@.len() == list@.len(),
{
    let mut out: Vec<String> = Vec::new();
    for i in 0..list.len()
        invariant
            out@.len() == i,
            forall|k: int| 0 <= k < i ==> #[trigger] out@[k]@ == list@[k]@,
    {
        out.push(list[i].to_owned());
    }
    assert(texts(out@) =~= slices(list@));
    out
}

/// `std::str::from_utf8` decodes exactly the byte strings that are UTF-8.
#[verifier::external_body]
pub(crate) fn utf8_text(bytes: &[u8]) -> (r: Option<String>)
    ensures
        r is Some <==> valid_utf8(bytes@),
        r matches Some(text) ==> text@ == decode_utf8(bytes@),
{
    std::str::from_utf8(bytes).ok().map(str::to_owned)
}

} // verus!
