//! Text encodings used by the OAuth flow: lowercase hex, the
//! `application/x-www-form-urlencoded` byte serializer, and random hex
//! strings.

use vstd::prelude::*;
use vstd::utf8::{encode_utf8, is_ascii_chars, is_ascii_chars_encode_utf8};

verus! {

/// The hex digit for `v < 16`, lowercase.
pub open spec fn hex_digit_lower(v: int) -> char {
    seq!['0', '1', '2', '3', '4', '5', '6', '7', '8', '9', 'a', 'b', 'c', 'd', 'e', 'f'][v]
}

/// The hex digit for `v < 16`, uppercase.
pub open spec fn hex_digit_upper(v: int) -> char {
    seq!['0', '1', '2', '3', '4', '5', '6', '7', '8', '9', 'A', 'B', 'C', 'D', 'E', 'F'][v]
}

/// Lowercase hex of a byte string: two digits per byte, high nibble first.
pub open spec fn hex_lower(bytes: Seq<u8>) -> Seq<char>
    decreases bytes.len(),
{
    if bytes.len() == 0 {
        Seq::<char>::empty()
    } else {
        seq![hex_digit_lower((bytes[0] / 16) as int), hex_digit_lower((bytes[0] % 16) as int)] + hex_lower(
            bytes.drop_first(),
        )
    }
}

/// Bytes that the form-urlencoded serializer passes through unchanged:
/// ASCII letters, digits, and `*`, `-`, `.`, `_`.
pub open spec fn form_unreserved(b: u8) -> bool {
    b == 42 || b == 45 || b == 46 || (48 <= b <= 57) || (65 <= b <= 90) || b == 95 || (97 <= b
        <= 122)
}

/// The form-urlencoded serialization of one byte: unreserved bytes as
/// themselves, a space as `+`, anything else as `%XX` in uppercase hex.
pub open spec fn form_encode_byte(b: u8) -> Seq<char> {
    if form_unreserved(b) {
        seq![b as char]
    } else if b == 32 {
        seq!['+']
    } else {
        seq!['%', hex_digit_upper((b / 16) as int), hex_digit_upper((b % 16) as int)]
    }
}

/// The form-urlencoded serialization of a byte string.
pub open spec fn form_encode_bytes(bytes: Seq<u8>) -> Seq<char>
    decreases bytes.len(),
{
    if bytes.len() == 0 {
        Seq::<char>::empty()
    } else {
        form_encode_byte(bytes[0]) + form_encode_bytes(bytes.drop_first())
    }
}

/// The form-urlencoded serialization of a string's UTF-8 bytes.
pub open spec fn form_encode(s: Seq<char>) -> Seq<char> {
    form_encode_bytes(encode_utf8(s))
}

/// Serializes `s` with `form_urlencoded::byte_serialize` over its UTF-8
/// bytes. Trusted: the result is claimed to be [`form_encode`], which
/// transcribes that crate's serializer (unreserved bytes kept, space to `+`,
/// other bytes to uppercase `%XX`).
#[verifier::external_body]
pub(crate) fn urlencoding(s: &str) -> (encoded: String)
    ensures
        encoded@ == form_encode(s@),
{
    form_urlencoded::byte_serialize(s.as_bytes()).collect()
}

/// Lowercase hex encoding with `hex::encode`. Trusted: the result is
/// claimed to be [`hex_lower`] of the bytes, as that crate's documentation
/// and source give it.
#[verifier::external_body]
pub(crate) fn hex_encode(bytes: &[u8]) -> (encoded: String)
    ensures
        encoded@ == hex_lower(bytes@),
{
    hex::encode(bytes)
}

proof fn lemma_hex_digit_lower_injective(v: int, w: int)
    requires
        0 <= v < 16,
        0 <= w < 16,
        hex_digit_lower(v) == hex_digit_lower(w),
    ensures
        v == w,
{
}

/// Lowercase hex is one to one: different byte strings have different hex.
pub proof fn lemma_hex_lower_injective(a: Seq<u8>, b: Seq<u8>)
    requires
        hex_lower(a) == hex_lower(b),
    ensures
        a == b,
    decreases a.len(),
{
    lemma_hex_lower_len(a);
    lemma_hex_lower_len(b);
    if a.len() > 0 {
        let ha = hex_lower(a);
        let hb = hex_lower(b);
        assert(ha[0] == hb[0]);
        assert(ha[1] == hb[1]);
        lemma_hex_digit_lower_injective((a[0] / 16) as int, (b[0] / 16) as int);
        lemma_hex_digit_lower_injective((a[0] % 16) as int, (b[0] % 16) as int);
        assert(a[0] == b[0]);
        assert(hex_lower(a.drop_first()) =~= ha.skip(2));
        assert(hex_lower(b.drop_first()) =~= hb.skip(2));
        lemma_hex_lower_injective(a.drop_first(), b.drop_first());
        assert(a =~= seq![a[0]] + a.drop_first());
        assert(b =~= seq![b[0]] + b.drop_first());
    } else {
        assert(a =~= b);
    }
}

/// A hex digit in either case.
pub open spec fn is_hex_digit(c: char) -> bool {
    ('0' <= c <= '9') || ('a' <= c <= 'f') || ('A' <= c <= 'F')
}

/// Text that `hex::decode` accepts: an even number of hex digits, in either
/// case.
pub open spec fn is_hex_text(s: Seq<char>) -> bool {
    s.len() % 2 == 0 && forall|i: int| 0 <= i < s.len() ==> is_hex_digit(#[trigger] s[i])
}

/// `c` with an ASCII capital letter turned into its small letter.
pub open spec fn ascii_lower_char(c: char) -> char {
    if 'A' <= c <= 'Z' {
        ((c as u32) + 32) as char
    } else {
        c
    }
}

/// `s` with its ASCII capitals turned into small letters.
pub open spec fn ascii_lower(s: Seq<char>) -> Seq<char> {
    s.map_values(|c: char| ascii_lower_char(c))
}

/// Decodes hex text with `hex::decode`. Trusted: as that crate's source
/// shows, it succeeds exactly on [`is_hex_text`], and then gives the bytes
/// whose lowercase hex is the text in lowercase; the error is not kept.
#[verifier::external_body]
pub(crate) fn hex_decode(text: &str) -> (bytes: Option<Vec<u8>>)
    ensures
        bytes is Some <==> is_hex_text(text@),
        bytes matches Some(b) ==> hex_lower(b@) == ascii_lower(text@),
{
    hex::decode(text).ok()
}

/// One random byte from `rand::random`. Trusted, and nothing is claimed of
/// the value: any byte may come back.
#[verifier::external_body]
fn random_byte() -> u8 {
    rand::random::<u8>()
}

/// The length of a hex encoding is twice the number of bytes.
pub proof fn lemma_hex_lower_len(bytes: Seq<u8>)
    ensures
        hex_lower(bytes).len() == 2 * bytes.len(),
    decreases bytes.len(),
{
    if bytes.len() > 0 {
        lemma_hex_lower_len(bytes.drop_first());
    }
}

/// `len` random bytes, hex-encoded: a string of `2 * len` lowercase hex
/// digits.
pub fn generate_random_hex(len: usize) -> (hex: String)
    ensures
        exists|bytes: Seq<u8>| bytes.len() == len && hex@ == hex_lower(bytes),
        hex@.len() == 2 * len,
{
    let mut bytes: Vec<u8> = Vec::new();
    let mut i: usize = 0;
    while i < len
        invariant
            i <= len,
            bytes@.len() == i,
        decreases len - i,
    {
        bytes.push(random_byte());
        i = i + 1;
    }
    let hex = hex_encode(bytes.as_slice());
    proof {
        lemma_hex_lower_len(bytes@);
        assert(bytes@.len() == len && hex@ == hex_lower(bytes@));
    }
    hex
}


/// Characters that form-urlencoding leaves as they are.
pub open spec fn form_safe_char(c: char) -> bool {
    c == '*' || c == '-' || c == '.' || c == '_' || ('0' <= c <= '9') || ('A' <= c <= 'Z') || ('a'
        <= c <= 'z')
}

proof fn lemma_form_encode_unreserved_bytes(bytes: Seq<u8>)
    requires
        forall|i: int| 0 <= i < bytes.len() ==> form_unreserved(#[trigger] bytes[i]),
    ensures
        form_encode_bytes(bytes) =~= Seq::new(bytes.len(), |i: int| bytes[i] as char),
    decreases bytes.len(),
{
    if bytes.len() > 0 {
        let rest = bytes.drop_first();
        assert forall|i: int| 0 <= i < rest.len() implies form_unreserved(#[trigger] rest[i]) by {
            assert(rest[i] == bytes[i + 1]);
        }
        lemma_form_encode_unreserved_bytes(rest);
    }
}

/// A string of form-safe characters is its own form-urlencoding.
pub proof fn law_form_encode_keeps_safe_strings(s: Seq<char>)
    requires
        forall|i: int| 0 <= i < s.len() ==> form_safe_char(#[trigger] s[i]),
    ensures
        form_encode(s) == s,
{
    assert(is_ascii_chars(s)) by {
        assert forall|i: int| 0 <= i < s.len() implies '\0' <= #[trigger] s[i] <= '\u{7f}' by {
            assert(form_safe_char(s[i]));
        }
    }
    is_ascii_chars_encode_utf8(s);
    let bytes = encode_utf8(s);
    assert forall|i: int| 0 <= i < bytes.len() implies form_unreserved(#[trigger] bytes[i]) by {
        assert(s[i] as u8 == bytes[i]);
        assert(form_safe_char(s[i]));
    }
    lemma_form_encode_unreserved_bytes(bytes);
    assert forall|i: int| 0 <= i < s.len() implies #[trigger] form_encode(s)[i] == s[i] by {
        assert(s[i] as u8 == bytes[i]);
        assert(form_safe_char(s[i]));
    }
    assert(form_encode(s) =~= s);
}

proof fn lemma_hex_lower_safe(bytes: Seq<u8>)
    ensures
        forall|i: int| 0 <= i < hex_lower(bytes).len() ==> form_safe_char(#[trigger] hex_lower(bytes)[i]),
    decreases bytes.len(),
{
    if bytes.len() > 0 {
        let rest = bytes.drop_first();
        lemma_hex_lower_safe(rest);
        let h = hex_lower(bytes);
        let hi = (bytes[0] / 16) as int;
        let lo = (bytes[0] % 16) as int;
        assert forall|i: int| 0 <= i < h.len() implies form_safe_char(#[trigger] h[i]) by {
            if i == 0 {
                assert(h[0] == hex_digit_lower(hi));
            } else if i == 1 {
                assert(h[1] == hex_digit_lower(lo));
            } else {
                assert(h[i] == hex_lower(rest)[i - 2]);
            }
        }
    }
}

/// Lowercase hex is its own form-urlencoding: a hex `state` appears in a
/// URL's query exactly as it is stored.
pub proof fn law_hex_survives_form_encoding(bytes: Seq<u8>)
    ensures
        form_encode(hex_lower(bytes)) == hex_lower(bytes),
{
    lemma_hex_lower_safe(bytes);
    law_form_encode_keeps_safe_strings(hex_lower(bytes));
}


/// A character that can appear in form-urlencoded output.
pub open spec fn form_output_char(c: char) -> bool {
    form_safe_char(c) || c == '+' || c == '%'
}

proof fn lemma_form_encode_bytes_charset(bytes: Seq<u8>)
    ensures
        forall|i: int| 0 <= i < form_encode_bytes(bytes).len() ==> form_output_char(#[trigger] form_encode_bytes(bytes)[i]),
    decreases bytes.len(),
{
    if bytes.len() > 0 {
        let rest = bytes.drop_first();
        lemma_form_encode_bytes_charset(rest);
        let head = form_encode_byte(bytes[0]);
        let all = form_encode_bytes(bytes);
        assert(all == head + form_encode_bytes(rest));
        let b = bytes[0];
        assert forall|i: int| 0 <= i < all.len() implies form_output_char(#[trigger] all[i]) by {
            if i < head.len() {
                if form_unreserved(b) {
                    assert(head[0] == b as char);
                } else if b == 32 {
                } else {
                    let hi = (b / 16) as int;
                    let lo = (b % 16) as int;
                    assert(0 <= hi < 16 && 0 <= lo < 16);
                    assert(head[1] == hex_digit_upper(hi));
                    assert(head[2] == hex_digit_upper(lo));
                }
            } else {
                assert(all[i] == form_encode_bytes(rest)[i - head.len()]);
            }
        }
    }
}

/// Form-urlencoded output holds only letters, digits, `*`, `-`, `.`, `_`,
/// `+` and `%`: no `&`, `=` or other character that could split a query.
pub proof fn law_form_encode_charset(s: Seq<char>)
    ensures
        forall|i: int| 0 <= i < form_encode(s).len() ==> form_output_char(#[trigger] form_encode(s)[i]),
{
    lemma_form_encode_bytes_charset(encode_utf8(s));
}

/// An ASCII hex digit, as a byte, in either case.
pub open spec fn is_hex_byte(b: u8) -> bool {
    (48 <= b <= 57) || (65 <= b <= 70) || (97 <= b <= 102)
}

/// The value of an ASCII hex digit byte.
pub open spec fn hex_byte_value(b: u8) -> int {
    if 48 <= b <= 57 {
        b - 48
    } else if 65 <= b <= 70 {
        b - 55
    } else {
        b - 87
    }
}

/// Form-urlencoded decoding of a byte string, as `form_urlencoded::parse`
/// does it to names and values: `+` becomes a space, `%` and two hex digits
/// become the byte they spell, and any other byte (a `%` without two hex
/// digits after it too) stays as it is.
pub open spec fn form_decode_bytes(bytes: Seq<u8>) -> Seq<u8>
    decreases bytes.len(),
{
    if bytes.len() == 0 {
        Seq::<u8>::empty()
    } else if bytes[0] == 43 {
        seq![32u8] + form_decode_bytes(bytes.drop_first())
    } else if bytes[0] == 37 && bytes.len() >= 3 && is_hex_byte(bytes[1]) && is_hex_byte(bytes[2]) {
        seq![(hex_byte_value(bytes[1]) * 16 + hex_byte_value(bytes[2])) as u8] + form_decode_bytes(
            bytes.skip(3),
        )
    } else {
        seq![bytes[0]] + form_decode_bytes(bytes.drop_first())
    }
}

/// The bytes of a string of ASCII characters, one per character.
pub open spec fn ascii_bytes(chars: Seq<char>) -> Seq<u8> {
    chars.map_values(|c: char| c as u8)
}

proof fn lemma_hex_digit_upper_decodes(v: int)
    requires
        0 <= v < 16,
    ensures
        is_hex_byte(hex_digit_upper(v) as u8),
        hex_byte_value(hex_digit_upper(v) as u8) == v,
{
}

/// Decoding the bytes of a form-urlencoded byte string gives the byte
/// string back.
pub proof fn lemma_form_decode_undoes_encode(bytes: Seq<u8>)
    ensures
        form_decode_bytes(ascii_bytes(form_encode_bytes(bytes))) == bytes,
    decreases bytes.len(),
{
    if bytes.len() == 0 {
        assert(ascii_bytes(form_encode_bytes(bytes)) =~= Seq::<u8>::empty());
    } else {
        let b = bytes[0];
        let rest = bytes.drop_first();
        let chunk = form_encode_byte(b);
        let tail = form_encode_bytes(rest);
        let all = ascii_bytes(form_encode_bytes(bytes));
        assert(form_encode_bytes(bytes) == chunk + tail);
        assert(all =~= ascii_bytes(chunk) + ascii_bytes(tail));
        lemma_form_decode_undoes_encode(rest);
        if form_unreserved(b) {
            assert(all[0] == b);
            assert(all.drop_first() =~= ascii_bytes(tail));
        } else if b == 32 {
            assert(all[0] == 43);
            assert(all.drop_first() =~= ascii_bytes(tail));
        } else {
            let hi = (b / 16) as int;
            let lo = (b % 16) as int;
            lemma_hex_digit_upper_decodes(hi);
            lemma_hex_digit_upper_decodes(lo);
            assert(all[0] == 37);
            assert(all[1] == hex_digit_upper(hi) as u8);
            assert(all[2] == hex_digit_upper(lo) as u8);
            assert(all.skip(3) =~= ascii_bytes(tail));
            assert(hi * 16 + lo == b);
        }
        assert(form_decode_bytes(all) =~= bytes);
    }
}

/// Decoding the bytes of a string of form-safe characters changes nothing.
pub proof fn lemma_form_decode_keeps_safe_bytes(chars: Seq<char>)
    requires
        forall|i: int| 0 <= i < chars.len() ==> form_safe_char(#[trigger] chars[i]),
    ensures
        form_decode_bytes(ascii_bytes(chars)) == ascii_bytes(chars),
    decreases chars.len(),
{
    let all = ascii_bytes(chars);
    if chars.len() > 0 {
        let rest = chars.drop_first();
        assert forall|i: int| 0 <= i < rest.len() implies form_safe_char(#[trigger] rest[i]) by {
            assert(rest[i] == chars[i + 1]);
        }
        lemma_form_decode_keeps_safe_bytes(rest);
        assert(form_safe_char(chars[0]));
        assert(all.drop_first() =~= ascii_bytes(rest));
        assert(form_decode_bytes(all) =~= all);
    } else {
        assert(all =~= Seq::<u8>::empty());
    }
}

} // verus!
