//! Text building blocks: percent-encoding of URL query components and
//! decimal rendering of numbers, over `Vec<char>` buffers.

use vstd::prelude::*;
use vstd::string::StrSliceExecFns;
use vstd::string::is_ascii;
use vstd::utf8::is_ascii_chars;

verus! {

/// Characters that RFC 3986 keeps verbatim in a query component.
pub open spec fn is_unreserved(c: char) -> bool {
    ('A' <= c && c <= 'Z') || ('a' <= c && c <= 'z') || ('0' <= c && c <= '9') || c == '-'
        || c == '.' || c == '_' || c == '~'
}

/// The upper-case hexadecimal digit for a value below 16.
pub open spec fn hex_digit(d: int) -> char {
    if d == 0 {
        '0'
    } else if d == 1 {
        '1'
    } else if d == 2 {
        '2'
    } else if d == 3 {
        '3'
    } else if d == 4 {
        '4'
    } else if d == 5 {
        '5'
    } else if d == 6 {
        '6'
    } else if d == 7 {
        '7'
    } else if d == 8 {
        '8'
    } else if d == 9 {
        '9'
    } else if d == 10 {
        'A'
    } else if d == 11 {
        'B'
    } else if d == 12 {
        'C'
    } else if d == 13 {
        'D'
    } else if d == 14 {
        'E'
    } else {
        'F'
    }
}

/// The percent-encoding of one character: unreserved characters stand as
/// they are, every other character becomes `%` and two hexadecimal digits.
pub open spec fn enc_char(c: char) -> Seq<char> {
    if is_unreserved(c) {
        seq![c]
    } else {
        seq!['%', hex_digit((c as int) / 16), hex_digit((c as int) % 16)]
    }
}

/// The percent-encoding of a whole component, character by character.
pub open spec fn url_encode(s: Seq<char>) -> Seq<char>
    decreases s.len(),
{
    if s.len() == 0 {
        Seq::empty()
    } else {
        url_encode(s.drop_last()) + enc_char(s.last())
    }
}

/// A component made only of unreserved characters is carried verbatim by
/// the encoding.
pub proof fn lemma_url_encode_unreserved(s: Seq<char>)
    requires
        forall|i: int| 0 <= i < s.len() ==> is_unreserved(#[trigger] s[i]),
    ensures
        url_encode(s) == s,
    decreases s.len(),
{
    if s.len() == 0 {
        assert(url_encode(s) =~= s);
    } else {
        lemma_url_encode_unreserved(s.drop_last());
        assert(enc_char(s.last()) =~= seq![s.last()]);
        assert(url_encode(s) =~= s);
    }
}

fn hex_char(d: u8) -> (c: char)
    requires
        d < 16,
    ensures
        c == hex_digit(d as int),
{
    match d {
        0 => '0',
        1 => '1',
        2 => '2',
        3 => '3',
        4 => '4',
        5 => '5',
        6 => '6',
        7 => '7',
        8 => '8',
        9 => '9',
        10 => 'A',
        11 => 'B',
        12 => 'C',
        13 => 'D',
        14 => 'E',
        _ => 'F',
    }
}

fn is_unreserved_char(c: char) -> (r: bool)
    ensures
        r == is_unreserved(c),
{
    ('A' <= c && c <= 'Z') || ('a' <= c && c <= 'z') || ('0' <= c && c <= '9') || c == '-'
        || c == '.' || c == '_' || c == '~'
}

/// Appends the characters of `s` to `out` unchanged.
pub fn push_str_chars(out: &mut Vec<char>, s: &str)
    ensures
        final(out)@ == old(out)@ + s@,
{
    let n = s.unicode_len();
    let mut i: usize = 0;
    while i < n
        invariant
            n == s@.len(),
            i <= n,
            out@ == old(out)@ + s@.subrange(0, i as int),
        decreases n - i,
    {
        let c = s.get_char(i);
        out.push(c);
        proof {
            assert(s@.subrange(0, i + 1 as int) =~= s@.subrange(0, i as int).push(s@[i as int]));
        }
        i = i + 1;
    }
    proof {
        assert(s@.subrange(0, n as int) =~= s@);
    }
}

/// Appends the percent-encoding of `s` to `out`.
pub fn push_url_encoded(out: &mut Vec<char>, s: &str)
    requires
        is_ascii(s),
    ensures
        final(out)@ == old(out)@ + url_encode(s@),
{
    let n = s.unicode_len();
    let mut i: usize = 0;
    while i < n
        invariant
            n == s@.len(),
            is_ascii_chars(s@),
            i <= n,
            out@ == old(out)@ + url_encode(s@.subrange(0, i as int)),
        decreases n - i,
    {
        let c = s.get_char(i);
        assert(c <= '\u{7f}');
        proof {
            let pre = s@.subrange(0, i as int);
            let cur = s@.subrange(0, i + 1 as int);
            assert(cur.drop_last() =~= pre);
            assert(cur.last() == c);
            assert(url_encode(cur) == url_encode(pre) + enc_char(c));
        }
        if is_unreserved_char(c) {
            out.push(c);
            proof {
                assert(out@ =~= old(out)@ + url_encode(s@.subrange(0, i + 1 as int)));
            }
        } else {
            let code: u32 = c as u32;
            assert(code < 128);
            out.push('%');
            out.push(hex_char((code / 16) as u8));
            out.push(hex_char((code % 16) as u8));
            proof {
                assert(out@ =~= old(out)@ + url_encode(s@.subrange(0, i + 1 as int)));
            }
        }
        i = i + 1;
    }
    proof {
        assert(s@.subrange(0, n as int) =~= s@);
    }
}

/// The decimal rendering of a number, most significant digit first.
pub open spec fn dec_str(n: nat) -> Seq<char>
    decreases n,
{
    if n < 10 {
        seq![hex_digit(n as int)]
    } else {
        dec_str(n / 10) + seq![hex_digit((n % 10) as int)]
    }
}

/// Appends the decimal rendering of `n` to `out`.
pub fn push_decimal(out: &mut Vec<char>, n: usize)
    ensures
        final(out)@ == old(out)@ + dec_str(n as nat),
    decreases n,
{
    if n < 10 {
        out.push(hex_char(n as u8));
        proof {
            assert(out@ =~= old(out)@ + dec_str(n as nat));
        }
    } else {
        push_decimal(out, n / 10);
        out.push(hex_char((n % 10) as u8));
        proof {
            assert(out@ =~= old(out)@ + dec_str(n as nat));
        }
    }
}

/// Turns a character buffer into an owned string.
///
/// Relies on `core::iter::Iterator::collect` building a `String` that holds
/// exactly the characters of the iterator, in order.
#[verifier::external_body]
pub fn chars_to_string(v: &Vec<char>) -> (r: String)
    ensures
        r@ == v@,
{
    v.iter().collect()
}

} // verus!
