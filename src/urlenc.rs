//! Percent-encoding of free text for URL paths and query values.
//!
//! ASCII letters, digits and `-_.~` pass through; every other byte of the
//! UTF-8 encoding becomes `%XX` with upper-case hex digits.
use vstd::prelude::*;
use vstd::string::*;
use vstd::utf8::*;

verus! {

pub open spec fn is_unreserved(b: u8) -> bool {
    (0x30 <= b && b <= 0x39) || (0x41 <= b && b <= 0x5a) || (0x61 <= b && b <= 0x7a) || b == 0x2d
        || b == 0x5f || b == 0x2e || b == 0x7e
}

/// Upper-case hex digit of a value below 16.
pub open spec fn hex_char(n: u8) -> char {
    if n < 10 {
        (n + 48) as char
    } else {
        (n + 55) as char
    }
}

/// The value of a hex digit (either case), if `c` is one.
pub open spec fn hex_value(c: char) -> Option<u8> {
    if '0' <= c && c <= '9' {
        Some((c as u32 - 48) as u8)
    } else if 'A' <= c && c <= 'F' {
        Some((c as u32 - 55) as u8)
    } else if 'a' <= c && c <= 'f' {
        Some((c as u32 - 87) as u8)
    } else {
        None
    }
}

/// What one byte becomes.
pub open spec fn encode_byte(b: u8) -> Seq<char> {
    if is_unreserved(b) {
        seq![b as char]
    } else {
        seq!['%', hex_char(b / 16), hex_char(b % 16)]
    }
}

pub open spec fn pct_encode(bytes: Seq<u8>) -> Seq<char>
    decreases bytes.len(),
{
    if bytes.len() == 0 {
        Seq::empty()
    } else {
        encode_byte(bytes[0]) + pct_encode(bytes.drop_first())
    }
}

/// The percent-encoding of a text: of its UTF-8 bytes.
pub open spec fn url_encoded(s: Seq<char>) -> Seq<char> {
    pct_encode(encode_utf8(s))
}

/// Standard percent-decoding: `%` and two hex digits give one byte, any
/// other character stands for its own UTF-8 encoding.
pub open spec fn pct_decode(s: Seq<char>) -> Seq<u8>
    decreases s.len(),
{
    if s.len() == 0 {
        Seq::empty()
    } else if s.len() >= 3 && s[0] == '%' && hex_value(s[1]).is_some() && hex_value(s[2]).is_some() {
        seq![(hex_value(s[1]).unwrap() * 16 + hex_value(s[2]).unwrap()) as u8] + pct_decode(
            s.subrange(3, s.len() as int),
        )
    } else {
        encode_scalar(s[0] as u32) + pct_decode(s.drop_first())
    }
}

proof fn lemma_pct_encode_push(bytes: Seq<u8>, b: u8)
    ensures
        pct_encode(bytes.push(b)) == pct_encode(bytes) + encode_byte(b),
    decreases bytes.len(),
{
    if bytes.len() == 0 {
        assert(bytes.push(b).drop_first() =~= Seq::<u8>::empty());
        assert(pct_encode(Seq::<u8>::empty()) =~= Seq::<char>::empty());
        assert(pct_encode(bytes) =~= Seq::<char>::empty());
        assert(pct_encode(bytes.push(b)) =~= encode_byte(b));
    } else {
        assert(bytes.push(b).drop_first() =~= bytes.drop_first().push(b));
        lemma_pct_encode_push(bytes.drop_first(), b);
        assert(pct_encode(bytes.push(b)) =~= pct_encode(bytes) + encode_byte(b));
    }
}

proof fn lemma_byte_round_trip(b: u8, rest: Seq<char>)
    ensures
        pct_decode(encode_byte(b) + rest) == seq![b] + pct_decode(rest),
{
    let s = encode_byte(b) + rest;
    if is_unreserved(b) {
        assert(s[0] == b as char);
        assert((b as char) as u32 == b as u32);
        assert(s.drop_first() =~= rest);
        let u = b as u32;
        assert(((u & 0x7F) as u8) == b) by (bit_vector)
            requires
                u == b as u32,
                b < 128u8,
        ;
        assert(encode_scalar(b as u32) =~= seq![b]);
    } else {
        let hi = b / 16;
        let lo = b % 16;
        assert(s[1] == hex_char(hi));
        assert(s[2] == hex_char(lo));
        assert(hex_value(hex_char(hi)) == Some(hi));
        assert(hex_value(hex_char(lo)) == Some(lo));
        assert(s.subrange(3, s.len() as int) =~= rest);
        assert(seq![(hi * 16 + lo) as u8] =~= seq![b]);
    }
}

/// Decoding what was encoded gives back the bytes.
pub proof fn lemma_pct_round_trip(bytes: Seq<u8>)
    ensures
        pct_decode(pct_encode(bytes)) == bytes,
    decreases bytes.len(),
{
    if bytes.len() > 0 {
        lemma_pct_round_trip(bytes.drop_first());
        lemma_byte_round_trip(bytes[0], pct_encode(bytes.drop_first()));
        assert(seq![bytes[0]] + bytes.drop_first() =~= bytes);
    }
}

/// Percent-encoding round-trips: encoding a text, then decoding the
/// percent escapes and reading the bytes as UTF-8, gives back the text.
pub proof fn law_url_encoding_round_trip(text: Seq<char>)
    ensures
        decode_utf8(pct_decode(url_encoded(text))) == text,
{
    lemma_pct_round_trip(encode_utf8(text));
    encode_utf8_decode_utf8(text);
}

/// The characters an encoding may hold: ASCII letters and digits, `-_.~`
/// and `%`; in particular no `/`, `&`, `=`, `#`, `?` or space.
pub open spec fn is_encoded_char(c: char) -> bool {
    ('0' <= c && c <= '9') || ('A' <= c && c <= 'Z') || ('a' <= c && c <= 'z') || c == '-' || c
        == '_' || c == '.' || c == '~' || c == '%'
}

proof fn lemma_pct_encode_chars(bytes: Seq<u8>)
    ensures
        forall|i: int| 0 <= i < pct_encode(bytes).len() ==> is_encoded_char(#[trigger] pct_encode(bytes)[i]),
    decreases bytes.len(),
{
    if bytes.len() > 0 {
        lemma_pct_encode_chars(bytes.drop_first());
        let b = bytes[0];
        let head = encode_byte(b);
        if is_unreserved(b) {
            assert((b as char) as u32 == b as u32);
        }
        assert(forall|i: int| 0 <= i < head.len() ==> is_encoded_char(#[trigger] head[i]));
        let rest = pct_encode(bytes.drop_first());
        assert(pct_encode(bytes) == head + rest);
        assert forall|i: int| 0 <= i < pct_encode(bytes).len() implies is_encoded_char(
            #[trigger] pct_encode(bytes)[i],
        ) by {
            if i >= head.len() {
                assert(pct_encode(bytes)[i] == rest[i - head.len()]);
            }
        }
    }
}

/// Free text cannot inject URL structure: its encoding holds only ASCII
/// letters, digits, `-_.~` and `%`.
pub proof fn law_encoding_has_no_delimiters(text: Seq<char>)
    ensures
        forall|i: int|
            0 <= i < url_encoded(text).len() ==> is_encoded_char(#[trigger] url_encoded(text)[i]),
{
    lemma_pct_encode_chars(encode_utf8(text));
}

fn hex_digit(n: u8) -> (c: char)
    requires
        n < 16,
    ensures
        c == hex_char(n),
{
    if n < 10 {
        (n + 48) as char
    } else {
        (n + 55) as char
    }
}

/// Percent-encodes `s` for use in a URL path segment or query value.
pub fn urlencoded(s: &str) -> (r: String)
    ensures
        r@ == url_encoded(s@),
{
    let bytes = s.as_bytes();
    let mut r = String::new();
    let mut i: usize = 0;
    while i < bytes.len()
        invariant
            bytes@ == encode_utf8(s@),
            i <= bytes@.len(),
            r@ == pct_encode(bytes@.subrange(0, i as int)),
        decreases bytes@.len() - i,
    {
        let b = bytes[i];
        proof {
            lemma_pct_encode_push(bytes@.subrange(0, i as int), b);
            assert(bytes@.subrange(0, i as int).push(b) =~= bytes@.subrange(0, i + 1));
        }
        if (0x30 <= b && b <= 0x39) || (0x41 <= b && b <= 0x5a) || (0x61 <= b && b <= 0x7a)
            || b == 0x2d || b == 0x5f || b == 0x2e || b == 0x7e {
            r.push(b as char);
        } else {
            r.push('%');
            r.push(hex_digit(b / 16));
            r.push(hex_digit(b % 16));
        }
        assert(r@ =~= pct_encode(bytes@.subrange(0, i + 1)));
        i = i + 1;
    }
    assert(bytes@.subrange(0, bytes@.len() as int) =~= bytes@);
    r
}

} // verus!
