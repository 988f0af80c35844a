//! Percent-encoding of one segment of a URL path.
//!
//! A path parameter is written into the path byte by byte, in UTF-8. A byte
//! that could end the path or is not printable ASCII is written as `%` and its
//! two upper-case hexadecimal digits; every other byte stands for itself.

use vstd::prelude::*;
use vstd::string::*;
use vstd::utf8::*;

verus! {

/// Whether a byte is escaped in a path segment: the control characters, the
/// bytes of 0x7F and above, and space, `"`, `#`, `<`, `>`, `?`, `` ` ``, `{`, `}`.
#[verifier::allow_in_spec]
pub fn must_escape(b: u8) -> bool
    returns
        b < 0x20 || b >= 0x7f || b == 0x20 || b == 0x22 || b == 0x23 || b == 0x3c || b == 0x3e
            || b == 0x3f || b == 0x60 || b == 0x7b || b == 0x7d,
{
    b < 0x20 || b >= 0x7f || b == 0x20 || b == 0x22 || b == 0x23 || b == 0x3c || b == 0x3e
        || b == 0x3f || b == 0x60 || b == 0x7b || b == 0x7d
}

/// The upper-case hexadecimal digit for a value below sixteen.
pub open spec fn hex_digit(n: u8) -> char
    recommends
        n < 16,
{
    "0123456789ABCDEF"@[n as int]
}

/// What one byte of a path segment is written as.
pub open spec fn escaped(b: u8) -> Seq<char> {
    if must_escape(b) {
        seq!['%', hex_digit(b / 16), hex_digit(b % 16)]
    } else {
        seq![b as char]
    }
}

/// What a run of bytes is written as: each byte's text, one after the other.
pub open spec fn percent_encoded(bytes: Seq<u8>) -> Seq<char> {
    bytes.map_values(|b: u8| escaped(b)).flatten()
}

/// The percent-encoding of the text `s` as a path segment.
pub open spec fn encode_path_spec(s: Seq<char>) -> Seq<char> {
    percent_encoded(encode_utf8(s))
}

/// The character for a hexadecimal digit.
fn hex_char(n: u8) -> (c: char)
    requires
        n < 16,
    ensures
        c == hex_digit(n),
{
    proof {
        reveal_strlit("0123456789ABCDEF");
    }
    if n < 10 {
        (0x30 + n) as char
    } else {
        (0x37 + n) as char
    }
}

/// Encoding one more byte adds that byte's text at the end.
proof fn lemma_percent_encoded_push(bytes: Seq<u8>, b: u8)
    ensures
        percent_encoded(bytes.push(b)) == percent_encoded(bytes) + escaped(b),
{
    let f = |b: u8| escaped(b);
    assert(bytes.push(b).map_values(f) =~= bytes.map_values(f).push(escaped(b)));
    bytes.map_values(f).lemma_flatten_push(escaped(b));
}

/// Whether a text can stand in a path as it is: plain ASCII with nothing in
/// it that is escaped.
pub open spec fn is_plain(s: Seq<char>) -> bool {
    forall|i: int| 0 <= i < s.len() ==> '\0' <= #[trigger] s[i] <= '\u{7f}' && !must_escape(s[i] as u8)
}

/// Bytes of which none is escaped are written as the characters they are.
proof fn lemma_percent_encoded_plain(bytes: Seq<u8>)
    requires
        forall|i: int| 0 <= i < bytes.len() ==> !must_escape(#[trigger] bytes[i]),
    ensures
        percent_encoded(bytes) == bytes.map_values(|b: u8| b as char),
    decreases bytes.len(),
{
    if bytes.len() == 0 {
        assert(percent_encoded(bytes) =~= Seq::<char>::empty());
        assert(bytes.map_values(|b: u8| b as char) =~= Seq::<char>::empty());
    } else {
        let front = bytes.drop_last();
        lemma_percent_encoded_plain(front);
        lemma_percent_encoded_push(front, bytes.last());
        assert(front.push(bytes.last()) =~= bytes);
        assert(front.map_values(|b: u8| b as char) + seq![bytes.last() as char]
            =~= bytes.map_values(|b: u8| b as char));
    }
}

/// A plain text is its own encoding.
pub proof fn lemma_plain_is_unchanged(s: Seq<char>)
    requires
        is_plain(s),
    ensures
        encode_path_spec(s) == s,
{
    assert(is_ascii_chars(s));
    is_ascii_chars_encode_utf8(s);
    let bytes = encode_utf8(s);
    assert forall|i: int| 0 <= i < bytes.len() implies !must_escape(#[trigger] bytes[i]) by {
        assert(bytes[i] == s[i] as u8);
    }
    lemma_percent_encoded_plain(bytes);
    assert(bytes.map_values(|b: u8| b as char) =~= s) by {
        assert forall|i: int| 0 <= i < s.len() implies bytes[i] as char == s[i] by {
            assert(bytes[i] == s[i] as u8);
        }
    }
}

/// What a run of bytes is written as is plain, whatever the bytes are.
proof fn lemma_percent_encoded_is_plain(bytes: Seq<u8>)
    ensures
        is_plain(percent_encoded(bytes)),
    decreases bytes.len(),
{
    if bytes.len() == 0 {
        assert(percent_encoded(bytes) =~= Seq::<char>::empty());
    } else {
        let front = bytes.drop_last();
        let b = bytes.last();
        lemma_percent_encoded_is_plain(front);
        lemma_percent_encoded_push(front, b);
        assert(front.push(b) =~= bytes);
        reveal_strlit("0123456789ABCDEF");
        assert(is_plain(escaped(b))) by {
            assert(b / 16 < 16 && b % 16 < 16);
        }
    }
}

/// An encoded segment is plain: it holds nothing that would have to be
/// escaped, so it can stand in a path.
pub proof fn lemma_encoded_is_plain(s: Seq<char>)
    ensures
        is_plain(encode_path_spec(s)),
{
    lemma_percent_encoded_is_plain(encode_utf8(s));
}

/// Encoding a second time changes nothing.
pub proof fn lemma_encoding_twice_is_encoding_once(s: Seq<char>)
    ensures
        encode_path_spec(encode_path_spec(s)) == encode_path_spec(s),
{
    lemma_encoded_is_plain(s);
    lemma_plain_is_unchanged(encode_path_spec(s));
}

/// Percent-encodes a path parameter so that it can stand as one segment of a
/// URL path.
pub fn encode_path(pc: &str) -> (encoded: String)
    ensures
        encoded@ == encode_path_spec(pc@),
{
    let bytes = pc.as_bytes();
    let mut encoded = String::new();
    let mut i: usize = 0;
    while i < bytes.len()
        invariant
            i <= bytes.len(),
            encoded@ == percent_encoded(bytes@.take(i as int)),
        decreases bytes.len() - i,
    {
        let b = bytes[i];
        proof {
            lemma_percent_encoded_push(bytes@.take(i as int), b);
            assert(bytes@.take(i as int).push(b) =~= bytes@.take(i + 1));
        }
        if must_escape(b) {
            encoded.push('%');
            encoded.push(hex_char(b / 16));
            encoded.push(hex_char(b % 16));
        } else {
            encoded.push(b as char);
        }
        i += 1;
    }
    assert(bytes@.take(i as int) =~= bytes@);
    encoded
}

} // verus!
