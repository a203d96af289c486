//! The terminal escape sequence that copies a text to the clipboard of the host.

use vstd::prelude::*;
use vstd::string::*;
use vstd::utf8::*;

verus! {

/// The character that stands for a value below 64.
pub open spec fn sextet(v: int) -> char {
    if v < 26 {
        (65 + v) as char
    } else if v < 52 {
        (97 + (v - 26)) as char
    } else if v < 62 {
        (48 + (v - 52)) as char
    } else if v == 62 {
        '+'
    } else {
        '/'
    }
}

/// The value that a character stands for.
pub open spec fn sextet_value(c: char) -> int {
    if 'A' <= c && c <= 'Z' {
        c as int - 65
    } else if 'a' <= c && c <= 'z' {
        c as int - 97 + 26
    } else if '0' <= c && c <= '9' {
        c as int - 48 + 52
    } else if c == '+' {
        62
    } else {
        63
    }
}

/// Three bytes as one number.
pub open spec fn group(b0: u8, b1: u8, b2: u8) -> int {
    b0 * 65536 + b1 * 256 + b2
}

/// The base64 form of a byte string (RFC 4648, padded): three bytes become four characters, and
/// a rest of one or two bytes is filled up with `=`.
pub open spec fn base64(input: Seq<u8>) -> Seq<char>
    decreases input.len(),
{
    if input.len() == 0 {
        Seq::empty()
    } else if input.len() == 1 {
        let n = group(input[0], 0, 0);
        seq![sextet(n / 262144), sextet(n / 4096 % 64), '=', '=']
    } else if input.len() == 2 {
        let n = group(input[0], input[1], 0);
        seq![sextet(n / 262144), sextet(n / 4096 % 64), sextet(n / 64 % 64), '=']
    } else {
        let n = group(input[0], input[1], input[2]);
        seq![
            sextet(n / 262144),
            sextet(n / 4096 % 64),
            sextet(n / 64 % 64),
            sextet(n % 64),
        ] + base64(input.skip(3))
    }
}

/// The number that four characters stand for.
pub open spec fn quad(c0: char, c1: char, c2: char, c3: char) -> int {
    sextet_value(c0) * 262144 + sextet_value(c1) * 4096 + sextet_value(c2) * 64 + sextet_value(c3)
}

/// The byte string that a base64 text stands for.
pub open spec fn unbase64(text: Seq<char>) -> Seq<u8>
    decreases text.len(),
{
    if text.len() < 4 {
        Seq::empty()
    } else {
        let n = quad(
            text[0],
            text[1],
            if text[2] == '=' {
                'A'
            } else {
                text[2]
            },
            if text[3] == '=' {
                'A'
            } else {
                text[3]
            },
        );
        let bytes = if text[2] == '=' {
            seq![(n / 65536) as u8]
        } else if text[3] == '=' {
            seq![(n / 65536) as u8, (n / 256 % 256) as u8]
        } else {
            seq![(n / 65536) as u8, (n / 256 % 256) as u8, (n % 256) as u8]
        };
        bytes + unbase64(text.skip(4))
    }
}

/// Whether a character can occur in a base64 text.
pub open spec fn base64_char(c: char) -> bool {
    ('A' <= c && c <= 'Z') || ('a' <= c && c <= 'z') || ('0' <= c && c <= '9') || c == '+' || c
        == '/' || c == '='
}

/// The character that stands for a value below 64.
fn sextet_char(v: u32) -> (r: char)
    requires
        v < 64,
    ensures
        r == sextet(v as int),
{
    if v < 26 {
        (65 + v as u8) as char
    } else if v < 52 {
        (97 + (v as u8 - 26)) as char
    } else if v < 62 {
        (48 + (v as u8 - 52)) as char
    } else if v == 62 {
        '+'
    } else {
        '/'
    }
}

/// Encodes a byte string in base64.
pub fn base64_encode(input: &[u8]) -> (r: String)
    ensures
        r@ == base64(input@),
{
    let mut out = String::new();
    let mut i: usize = 0;
    assert(input@.skip(0) =~= input@);
    assert(out@ + base64(input@) =~= base64(input@));
    while input.len() - i >= 3
        invariant
            i <= input@.len(),
            out@ + base64(input@.skip(i as int)) == base64(input@),
        decreases input.len() - i,
    {
        let ghost rest = input@.skip(i as int);
        let ghost before = out@;
        let n: u32 = input[i] as u32 * 65536 + input[i + 1] as u32 * 256 + input[i + 2] as u32;
        assert(n == group(rest[0], rest[1], rest[2]));
        out.push(sextet_char(n / 262144));
        out.push(sextet_char(n / 4096 % 64));
        out.push(sextet_char(n / 64 % 64));
        out.push(sextet_char(n % 64));
        assert(rest.skip(3) =~= input@.skip(i + 3));
        assert(out@ + base64(rest.skip(3)) =~= before + base64(rest));
        i += 3;
    }
    let ghost rest = input@.skip(i as int);
    let ghost before = out@;
    if input.len() - i == 1 {
        let n: u32 = input[i] as u32 * 65536;
        assert(n == group(rest[0], 0, 0));
        out.push(sextet_char(n / 262144));
        out.push(sextet_char(n / 4096 % 64));
        out.push('=');
        out.push('=');
    } else if input.len() - i == 2 {
        let n: u32 = input[i] as u32 * 65536 + input[i + 1] as u32 * 256;
        assert(n == group(rest[0], rest[1], 0));
        out.push(sextet_char(n / 262144));
        out.push(sextet_char(n / 4096 % 64));
        out.push(sextet_char(n / 64 % 64));
        out.push('=');
    }
    assert(out@ =~= before + base64(rest));
    out
}

/// The escape sequence that sets the host's clipboard to a text: `ESC ] 52 ; c ;`, the base64
/// form of the text's UTF-8 bytes, `BEL`.
pub fn osc52_sequence(text: &str) -> (r: String)
    ensures
        r@ == "\x1b]52;c;"@ + base64(encode_utf8(text@)) + "\x07"@,
{
    let payload = base64_encode(text.as_bytes());
    "\x1b]52;c;".to_owned().concat(payload.as_str()).concat("\x07")
}

/// The value of a value's character is the value.
proof fn lemma_sextet(v: int)
    requires
        0 <= v < 64,
    ensures
        sextet_value(sextet(v)) == v,
        sextet(v) != '=',
        base64_char(sextet(v)),
        sextet_value('A') == 0,
{
}

/// A number of three bytes is the sum of its four values, and splits into its bytes.
proof fn lemma_group(b0: u8, b1: u8, b2: u8)
    ensures
        ({
            let n = group(b0, b1, b2);
            &&& 0 <= n / 262144 < 64
            &&& n / 262144 * 262144 + n / 4096 % 64 * 4096 + n / 64 % 64 * 64 + n % 64 == n
            &&& n / 65536 == b0
            &&& n / 256 % 256 == b1
            &&& n % 256 == b2
            &&& b2 == 0 ==> n % 64 == 0
            &&& b1 == 0 && b2 == 0 ==> n / 64 % 64 == 0
        }),
{
    let n = group(b0, b1, b2);
    assert(0 <= n < 16777216);
    let a = n / 64;
    let b = a / 64;
    let c = b / 64;
    assert(n == 64 * a + n % 64);
    assert(a == 64 * b + a % 64);
    assert(b == 64 * c + b % 64);
    assert(n / 4096 == b) by {
        assert(n == 4096 * b + (64 * (a % 64) + n % 64));
    }
    assert(n / 262144 == c) by {
        assert(n == 262144 * c + (4096 * (b % 64) + 64 * (a % 64) + n % 64));
    }
    assert(n / 65536 == b0 && n % 65536 == b1 * 256 + b2);
    assert(n / 256 == b0 * 256 + b1);
}

/// The characters of one group stand for its bytes.
proof fn lemma_quad(b0: u8, b1: u8, b2: u8)
    ensures
        ({
            let n = group(b0, b1, b2);
            &&& quad(
                sextet(n / 262144),
                sextet(n / 4096 % 64),
                sextet(n / 64 % 64),
                sextet(n % 64),
            ) == n
            &&& b2 == 0 ==> quad(
                sextet(n / 262144),
                sextet(n / 4096 % 64),
                sextet(n / 64 % 64),
                'A',
            ) == n
            &&& b1 == 0 && b2 == 0 ==> quad(
                sextet(n / 262144),
                sextet(n / 4096 % 64),
                'A',
                'A',
            ) == n
            &&& sextet(n / 64 % 64) != '='
            &&& sextet(n % 64) != '='
        }),
{
    let n = group(b0, b1, b2);
    lemma_group(b0, b1, b2);
    lemma_sextet(n / 262144);
    lemma_sextet(n / 4096 % 64);
    lemma_sextet(n / 64 % 64);
    lemma_sextet(n % 64);
}

/// Decoding gives back what was encoded: the text on the clipboard is the text that was copied.
pub proof fn decoding_undoes_encoding(input: Seq<u8>)
    ensures
        unbase64(base64(input)) == input,
    decreases input.len(),
{
    let text = base64(input);
    if input.len() == 0 {
    } else if input.len() == 1 {
        lemma_quad(input[0], 0, 0);
        lemma_group(input[0], 0, 0);
        assert(text.skip(4) =~= Seq::empty());
        assert(unbase64(text.skip(4)) =~= Seq::empty());
        assert(unbase64(text) =~= input);
    } else if input.len() == 2 {
        lemma_quad(input[0], input[1], 0);
        lemma_group(input[0], input[1], 0);
        assert(text.skip(4) =~= Seq::empty());
        assert(unbase64(text.skip(4)) =~= Seq::empty());
        assert(unbase64(text) =~= input);
    } else {
        lemma_quad(input[0], input[1], input[2]);
        lemma_group(input[0], input[1], input[2]);
        decoding_undoes_encoding(input.skip(3));
        assert(text.skip(4) =~= base64(input.skip(3)));
        assert(unbase64(text) =~= seq![input[0], input[1], input[2]] + input.skip(3));
        assert(seq![input[0], input[1], input[2]] + input.skip(3) =~= input);
    }
}

/// Encoded text stays within the base64 alphabet, so nothing in it can end the escape sequence
/// that carries it.
pub proof fn encoding_stays_in_alphabet(input: Seq<u8>, i: int)
    requires
        0 <= i < base64(input).len(),
    ensures
        base64_char(base64(input)[i]),
    decreases input.len(),
{
    if input.len() >= 3 {
        let n = group(input[0], input[1], input[2]);
        lemma_sextet(n / 262144);
        lemma_sextet(n / 4096 % 64);
        lemma_sextet(n / 64 % 64);
        lemma_sextet(n % 64);
        if i >= 4 {
            encoding_stays_in_alphabet(input.skip(3), i - 4);
        }
    } else if input.len() == 2 {
        let n = group(input[0], input[1], 0);
        lemma_sextet(n / 262144);
        lemma_sextet(n / 4096 % 64);
        lemma_sextet(n / 64 % 64);
    } else if input.len() == 1 {
        let n = group(input[0], 0, 0);
        lemma_sextet(n / 262144);
        lemma_sextet(n / 4096 % 64);
    }
}

/// Every three bytes, and a rest, take four characters.
pub proof fn encoding_has_four_characters_per_group(input: Seq<u8>)
    ensures
        base64(input).len() == (input.len() + 2) / 3 * 4,
    decreases input.len(),
{
    if input.len() >= 3 {
        encoding_has_four_characters_per_group(input.skip(3));
    }
}

} // verus!
