//! Character-level text building: percent-encoding of URL components and
//! decimal rendering of integers.

use vstd::prelude::*;
use vstd::string::*;

verus! {

/// Relies on `String::push`: the character is appended at the end.
#[verifier::external_body]
pub(crate) fn push_char(s: &mut String, c: char)
    ensures
        final(s)@ == old(s)@.push(c),
{
    s.push(c)
}

/// Upper-case hexadecimal digit of `d < 16`.
pub open spec fn hex_upper(d: nat) -> char {
    if d < 10 {
        (('0' as nat) + d) as char
    } else {
        (('A' as nat) + (d - 10)) as char
    }
}

/// The UTF-8 encoding of a character.
pub open spec fn utf8_of(c: char) -> Seq<u8> {
    let v = c as nat;
    if v < 0x80 {
        seq![v as u8]
    } else if v < 0x800 {
        seq![(0xC0 + v / 64) as u8, (0x80 + v % 64) as u8]
    } else if v < 0x10000 {
        seq![(0xE0 + v / 4096) as u8, (0x80 + (v / 64) % 64) as u8, (0x80 + v % 64) as u8]
    } else {
        seq![
            (0xF0 + v / 262144) as u8,
            (0x80 + (v / 4096) % 64) as u8,
            (0x80 + (v / 64) % 64) as u8,
            (0x80 + v % 64) as u8,
        ]
    }
}

/// `%` followed by the byte in upper-case hexadecimal, without a leading zero.
pub open spec fn percent_byte(b: u8) -> Seq<char> {
    if b < 16 {
        seq!['%', hex_upper(b as nat)]
    } else {
        seq!['%', hex_upper((b / 16) as nat), hex_upper((b % 16) as nat)]
    }
}

pub open spec fn percent_bytes(bs: Seq<u8>) -> Seq<char>
    decreases bs.len(),
{
    if bs.len() == 0 {
        Seq::empty()
    } else {
        percent_bytes(bs.drop_last()) + percent_byte(bs.last())
    }
}

/// ASCII letters and digits pass through a URL component unchanged.
pub open spec fn is_alphanumeric(c: char) -> bool {
    ('0' <= c && c <= '9') || ('A' <= c && c <= 'Z') || ('a' <= c && c <= 'z')
}

pub open spec fn encoded_char(c: char) -> Seq<char> {
    if is_alphanumeric(c) {
        seq![c]
    } else {
        percent_bytes(utf8_of(c))
    }
}

/// The URL-component encoding of a text: each character in turn.
pub open spec fn url_component(s: Seq<char>) -> Seq<char>
    decreases s.len(),
{
    if s.len() == 0 {
        Seq::empty()
    } else {
        url_component(s.drop_last()) + encoded_char(s.last())
    }
}

fn hex_digit(d: u8) -> (c: char)
    requires
        d < 16,
    ensures
        c == hex_upper(d as nat),
{
    if d < 10 {
        (('0' as u8) + d) as char
    } else {
        (('A' as u8) + (d - 10)) as char
    }
}

fn push_percent_byte(s: &mut String, b: u8)
    ensures
        final(s)@ == old(s)@ + percent_byte(b),
{
    push_char(s, '%');
    if b >= 16 {
        push_char(s, hex_digit(b / 16));
    }
    push_char(s, hex_digit(b % 16));
}

fn utf8_bytes(c: char) -> (r: Vec<u8>)
    ensures
        r@ == utf8_of(c),
{
    let v = c as u32;
    if v < 0x80 {
        vec![v as u8]
    } else if v < 0x800 {
        vec![(0xC0 + v / 64) as u8, (0x80 + v % 64) as u8]
    } else if v < 0x10000 {
        vec![(0xE0 + v / 4096) as u8, (0x80 + (v / 64) % 64) as u8, (0x80 + v % 64) as u8]
    } else {
        vec![
            (0xF0 + v / 262144) as u8,
            (0x80 + (v / 4096) % 64) as u8,
            (0x80 + (v / 64) % 64) as u8,
            (0x80 + v % 64) as u8,
        ]
    }
}

fn push_encoded_char(s: &mut String, c: char)
    ensures
        final(s)@ == old(s)@ + encoded_char(c),
{
    if ('0' <= c && c <= '9') || ('A' <= c && c <= 'Z') || ('a' <= c && c <= 'z') {
        push_char(s, c);
    } else {
        let bytes = utf8_bytes(c);
        let ghost start = s@;
        let mut i: usize = 0;
        while i < bytes.len()
            invariant
                i <= bytes@.len(),
                s@ == start + percent_bytes(bytes@.subrange(0, i as int)),
            decreases bytes@.len() - i,
        {
            push_percent_byte(s, bytes[i]);
            i = i + 1;
            assert(bytes@.subrange(0, i as int).drop_last() =~= bytes@.subrange(0, i - 1));
        }
        assert(bytes@.subrange(0, i as int) =~= bytes@);
    }
}

/// Encodes a text for use as one component of a URL: ASCII letters and
/// digits stay, every other character becomes its UTF-8 bytes, each written
/// as `%` and upper-case hexadecimal.
pub fn encode_url_component(key: String) -> (r: String)
    ensures
        r@ == url_component(key@),
{
    let n = key.as_str().unicode_len();
    let mut out = String::new();
    let mut i: usize = 0;
    while i < n
        invariant
            n == key@.len(),
            i <= n,
            out@ == url_component(key@.subrange(0, i as int)),
        decreases n - i,
    {
        let c = key.as_str().get_char(i);
        push_encoded_char(&mut out, c);
        i = i + 1;
        assert(key@.subrange(0, i as int).drop_last() =~= key@.subrange(0, i - 1));
    }
    assert(key@.subrange(0, n as int) =~= key@);
    out
}

} // verus!
