//! Encodings the client relies on: base64, UTF-8, Unicode case mapping and
//! `application/x-www-form-urlencoded` components.

use base64::Engine;
use vstd::prelude::*;
use vstd::utf8::{decode_utf8, encode_utf8, valid_utf8};

verus! {

/// The character of a 6-bit value in the standard base64 alphabet.
pub open spec fn base64_char(v: int) -> char {
    if v < 26 {
        (65 + v) as char
    } else if v < 52 {
        (71 + v) as char
    } else if v < 62 {
        (v - 4) as char
    } else if v == 62 {
        '+'
    } else {
        '/'
    }
}

/// Standard padded base64 (RFC 4648): each group of three bytes becomes four characters;
/// a final group of one or two bytes becomes two or three characters and `=` padding.
pub open spec fn base64_text(bytes: Seq<u8>) -> Seq<char>
    decreases bytes.len(),
{
    if bytes.len() == 0 {
        Seq::empty()
    } else if bytes.len() == 1 {
        let n = bytes[0] as int;
        seq![base64_char(n / 4), base64_char((n % 4) * 16), '=', '=']
    } else if bytes.len() == 2 {
        let n = bytes[0] as int * 256 + bytes[1] as int;
        seq![base64_char(n / 1024), base64_char((n / 16) % 64), base64_char((n % 16) * 4), '=']
    } else {
        let n = bytes[0] as int * 65536 + bytes[1] as int * 256 + bytes[2] as int;
        seq![base64_char(n / 262144), base64_char((n / 4096) % 64), base64_char((n / 64) % 64), base64_char(n % 64)]
            + base64_text(bytes.subrange(3, bytes.len() as int))
    }
}

/// What the standard padded base64 engine decodes from the given text: the bytes whose
/// standard base64 the text is, if it is one. The engine requires canonical padding and
/// rejects trailing bits, so it accepts exactly the texts that `base64_text` produces, and
/// those bytes are unique (`base64_text_is_injective`).
pub open spec fn base64_decoded(text: Seq<char>) -> Option<Seq<u8>> {
    if exists|b: Seq<u8>| #[trigger] base64_text(b) == text {
        Some(choose|b: Seq<u8>| #[trigger] base64_text(b) == text)
    } else {
        None
    }
}

/// What `str::to_lowercase` yields (full Unicode case mapping).
pub uninterp spec fn spec_to_lowercase(s: Seq<char>) -> Seq<char>;

/// What `str::to_uppercase` yields (full Unicode case mapping).
pub uninterp spec fn spec_to_uppercase(s: Seq<char>) -> Seq<char>;

/// A byte that `application/x-www-form-urlencoded` serialization writes as itself:
/// `*`, `-`, `.`, `_`, ASCII digits and ASCII letters.
pub open spec fn form_unreserved(b: u8) -> bool {
    b == 0x2A || b == 0x2D || b == 0x2E || b == 0x5F || (0x30 <= b && b <= 0x39) || (0x41 <= b
        && b <= 0x5A) || (0x61 <= b && b <= 0x7A)
}

/// An upper-case hexadecimal digit.
pub open spec fn hex_upper(d: int) -> char {
    if d < 10 {
        (48 + d) as char
    } else {
        (55 + d) as char
    }
}

/// What form serialization writes for one byte: the byte itself when unreserved, `+` for a
/// space, `%XX` in upper-case hexadecimal otherwise.
pub open spec fn form_byte(b: u8) -> Seq<char> {
    if form_unreserved(b) {
        seq![b as char]
    } else if b == 0x20 {
        seq!['+']
    } else {
        seq!['%', hex_upper(b as int / 16), hex_upper(b as int % 16)]
    }
}

/// The form serialization of a byte string, byte by byte.
pub open spec fn form_bytes(bytes: Seq<u8>) -> Seq<char>
    decreases bytes.len(),
{
    if bytes.len() == 0 {
        Seq::empty()
    } else {
        form_byte(bytes[0]) + form_bytes(bytes.drop_first())
    }
}

/// The form serialization of a string's UTF-8 bytes.
pub open spec fn form_encoded(s: Seq<char>) -> Seq<char> {
    form_bytes(encode_utf8(s))
}

/// One serialized pair: the encoded name, `=`, the encoded value.
pub open spec fn form_pair_text(pair: (Seq<char>, Seq<char>)) -> Seq<char> {
    form_encoded(pair.0) + seq!['='] + form_encoded(pair.1)
}

/// Serialized pairs joined with `&`.
pub open spec fn form_query_text(pairs: Seq<(Seq<char>, Seq<char>)>) -> Seq<char>
    decreases pairs.len(),
{
    if pairs.len() == 0 {
        Seq::empty()
    } else if pairs.len() == 1 {
        form_pair_text(pairs[0])
    } else {
        form_query_text(pairs.drop_last()) + seq!['&'] + form_pair_text(pairs.last())
    }
}

/// The views of name/value pairs.
pub open spec fn pair_views(pairs: Seq<(String, String)>) -> Seq<(Seq<char>, Seq<char>)> {
    pairs.map_values(|p: (String, String)| (p.0@, p.1@))
}

/// Calls `base64::engine::general_purpose::STANDARD.encode`. Trusted: the result is the
/// standard padded base64 of the bytes, as `base64_text` spells it out.
#[verifier::external_body]
pub(crate) fn base64_encode(bytes: &[u8]) -> (r: String)
    ensures
        r@ == base64_text(bytes@),
{
    base64::engine::general_purpose::STANDARD.encode(bytes)
}

/// Calls `base64::engine::general_purpose::STANDARD.decode` on the bytes of the text.
/// Trusted: the engine (canonical padding, no trailing bits) accepts the text exactly when it
/// is the standard base64 of some bytes, and then gives those bytes; where it reports an
/// error, the error is its display text, of which nothing more is said.
#[verifier::external_body]
pub(crate) fn base64_decode(text: &str) -> (r: Result<Vec<u8>, String>)
    ensures
        r is Err <==> base64_decoded(text@) is None,
        r matches Ok(v) ==> base64_text(v@) == text@,
{
    match base64::engine::general_purpose::STANDARD.decode(text) {
        Ok(bytes) => Ok(bytes),
        Err(e) => Err(format!("{}", e)),
    }
}

/// Calls `String::from_utf8`. Trusted, as its documentation states: the bytes are
/// accepted exactly when they are valid UTF-8, and the string holds the decoded characters.
/// The error is the display text of the reported error, of which nothing more is said.
#[verifier::external_body]
pub(crate) fn string_from_utf8(bytes: Vec<u8>) -> (r: Result<String, String>)
    ensures
        r is Ok <==> valid_utf8(bytes@),
        r matches Ok(s) ==> s@ == decode_utf8(bytes@),
{
    match String::from_utf8(bytes) {
        Ok(s) => Ok(s),
        Err(e) => Err(format!("{}", e)),
    }
}

/// Calls `str::to_lowercase`. Trusted: the result is the named Unicode lower-case mapping.
#[verifier::external_body]
pub(crate) fn to_lowercase(s: &str) -> (r: String)
    ensures
        r@ == spec_to_lowercase(s@),
{
    s.to_lowercase()
}

/// Calls `str::to_uppercase`. Trusted: the result is the named Unicode upper-case mapping.
#[verifier::external_body]
pub(crate) fn to_uppercase(s: &str) -> (r: String)
    ensures
        r@ == spec_to_uppercase(s@),
{
    s.to_uppercase()
}

/// Serializes the pairs with `url::form_urlencoded::Serializer` (on an empty string, with
/// no encoding override): `extend_pairs`, then `finish`. Trusted, as the crate's source
/// shows: each pair is appended as its name's UTF-8 bytes through `byte_serialize`, `=`,
/// and its value likewise, with `&` before every pair but the first.
#[verifier::external_body]
pub(crate) fn form_query(pairs: &Vec<(String, String)>) -> (r: String)
    ensures
        r@ == form_query_text(pair_views(pairs@)),
{
    let mut serializer = url::form_urlencoded::Serializer::new(String::new());
    serializer.extend_pairs(pairs.iter());
    serializer.finish()
}


proof fn lemma_base64_char(v: int, w: int)
    requires
        0 <= v < 64,
        0 <= w < 64,
    ensures
        base64_char(v) != '=',
        base64_char(v) == base64_char(w) ==> v == w,
{
    assert(base64_char(v) as u32 == (if v < 26 { 65 + v } else if v < 52 { 71 + v } else if v < 62 { v - 4 } else if v == 62 { 43 } else { 47 }));
    assert(base64_char(w) as u32 == (if w < 26 { 65 + w } else if w < 52 { 71 + w } else if w < 62 { w - 4 } else if w == 62 { 43 } else { 47 }));
    assert('=' as u32 == 61);
}

proof fn lemma_group3(a0: u8, a1: u8, a2: u8, b0: u8, b1: u8, b2: u8)
    by (bit_vector)
    requires
        (a0 as u32 * 65536 + a1 as u32 * 256 + a2 as u32) / 262144 == (b0 as u32 * 65536 + b1 as u32 * 256 + b2 as u32) / 262144,
        ((a0 as u32 * 65536 + a1 as u32 * 256 + a2 as u32) / 4096) % 64 == ((b0 as u32 * 65536 + b1 as u32 * 256 + b2 as u32) / 4096) % 64,
        ((a0 as u32 * 65536 + a1 as u32 * 256 + a2 as u32) / 64) % 64 == ((b0 as u32 * 65536 + b1 as u32 * 256 + b2 as u32) / 64) % 64,
        (a0 as u32 * 65536 + a1 as u32 * 256 + a2 as u32) % 64 == (b0 as u32 * 65536 + b1 as u32 * 256 + b2 as u32) % 64,
    ensures
        a0 == b0 && a1 == b1 && a2 == b2,
{
}

proof fn lemma_group2(a0: u8, a1: u8, b0: u8, b1: u8)
    by (bit_vector)
    requires
        (a0 as u32 * 256 + a1 as u32) / 1024 == (b0 as u32 * 256 + b1 as u32) / 1024,
        ((a0 as u32 * 256 + a1 as u32) / 16) % 64 == ((b0 as u32 * 256 + b1 as u32) / 16) % 64,
        ((a0 as u32 * 256 + a1 as u32) % 16) * 4 == ((b0 as u32 * 256 + b1 as u32) % 16) * 4,
    ensures
        a0 == b0 && a1 == b1,
{
}

proof fn lemma_group1(a0: u8, b0: u8)
    by (bit_vector)
    requires
        (a0 as u32) / 4 == (b0 as u32) / 4,
        ((a0 as u32) % 4) * 16 == ((b0 as u32) % 4) * 16,
    ensures
        a0 == b0,
{
}

proof fn lemma_base64_text_len(x: Seq<u8>)
    ensures
        x.len() == 0 ==> base64_text(x).len() == 0,
        1 <= x.len() <= 2 ==> base64_text(x).len() == 4,
        x.len() > 3 ==> base64_text(x).len() > 4,
        x.len() == 3 ==> base64_text(x).len() == 4,
    decreases x.len(),
{
    if x.len() >= 3 {
        let rest = x.subrange(3, x.len() as int);
        lemma_base64_text_len(rest);
    }
}

/// Decoding the standard base64 of some bytes gives those bytes back.
pub proof fn base64_decodes_its_encoding(bytes: Seq<u8>)
    ensures
        base64_decoded(base64_text(bytes)) == Some(bytes),
{
    let t = base64_text(bytes);
    assert(exists|b: Seq<u8>| #[trigger] base64_text(b) == t);
    let c = choose|b: Seq<u8>| #[trigger] base64_text(b) == t;
    base64_text_is_injective(c, bytes);
}

/// Standard base64 is one-to-one: different byte strings have different texts.
pub proof fn base64_text_is_injective(a: Seq<u8>, b: Seq<u8>)
    requires
        base64_text(a) == base64_text(b),
    ensures
        a == b,
    decreases a.len(),
{
    let t = base64_text(a);
    lemma_base64_text_len(a);
    lemma_base64_text_len(b);
    if a.len() == 0 || b.len() == 0 {
        assert(a =~= b);
    } else if a.len() <= 2 && b.len() <= 2 {
        if a.len() == 1 && b.len() == 1 {
            let n = a[0] as int;
            let m = b[0] as int;
            assert(t[0] == base64_char(n / 4) && t[0] == base64_char(m / 4));
            assert(t[1] == base64_char((n % 4) * 16) && t[1] == base64_char((m % 4) * 16));
            lemma_base64_char(n / 4, m / 4);
            lemma_base64_char((n % 4) * 16, (m % 4) * 16);
            lemma_group1(a[0], b[0]);
            assert(a =~= b);
        } else if a.len() == 2 && b.len() == 2 {
            let n = a[0] as int * 256 + a[1] as int;
            let m = b[0] as int * 256 + b[1] as int;
            assert(t[0] == base64_char(n / 1024) && t[0] == base64_char(m / 1024));
            assert(t[1] == base64_char((n / 16) % 64) && t[1] == base64_char((m / 16) % 64));
            assert(t[2] == base64_char((n % 16) * 4) && t[2] == base64_char((m % 16) * 4));
            lemma_base64_char(n / 1024, m / 1024);
            lemma_base64_char((n / 16) % 64, (m / 16) % 64);
            lemma_base64_char((n % 16) * 4, (m % 16) * 4);
            lemma_group2(a[0], a[1], b[0], b[1]);
            assert(a =~= b);
        } else if a.len() == 2 {
            let n = a[0] as int * 256 + a[1] as int;
            lemma_base64_char((n % 16) * 4, 0);
            assert(t[2] == base64_char((n % 16) * 4));
            assert(t[2] == '=');
        } else {
            let m = b[0] as int * 256 + b[1] as int;
            lemma_base64_char((m % 16) * 4, 0);
            assert(t[2] == base64_char((m % 16) * 4));
            assert(t[2] == '=');
        }
    } else if a.len() <= 2 || b.len() <= 2 {
        let x = if a.len() >= 3 { a } else { b };
        let n = x[0] as int * 65536 + x[1] as int * 256 + x[2] as int;
        lemma_base64_char(n % 64, 0);
        assert(base64_text(x)[3] == base64_char(n % 64));
        assert(t[3] == '=');
    } else {
        let n = a[0] as int * 65536 + a[1] as int * 256 + a[2] as int;
        let m = b[0] as int * 65536 + b[1] as int * 256 + b[2] as int;
        let ra = a.subrange(3, a.len() as int);
        let rb = b.subrange(3, b.len() as int);
        let ha = seq![base64_char(n / 262144), base64_char((n / 4096) % 64), base64_char((n / 64) % 64), base64_char(n % 64)];
        let hb = seq![base64_char(m / 262144), base64_char((m / 4096) % 64), base64_char((m / 64) % 64), base64_char(m % 64)];
        assert(t == ha + base64_text(ra));
        assert(t == hb + base64_text(rb));
        assert(t[0] == ha[0] && t[0] == hb[0]);
        assert(t[1] == ha[1] && t[1] == hb[1]);
        assert(t[2] == ha[2] && t[2] == hb[2]);
        assert(t[3] == ha[3] && t[3] == hb[3]);
        lemma_base64_char(n / 262144, m / 262144);
        lemma_base64_char((n / 4096) % 64, (m / 4096) % 64);
        lemma_base64_char((n / 64) % 64, (m / 64) % 64);
        lemma_base64_char(n % 64, m % 64);
        lemma_group3(a[0], a[1], a[2], b[0], b[1], b[2]);
        assert(base64_text(ra) =~= t.subrange(4, t.len() as int));
        assert(base64_text(rb) =~= t.subrange(4, t.len() as int));
        base64_text_is_injective(ra, rb);
        assert(a =~= a.subrange(0, 3) + ra);
        assert(b =~= b.subrange(0, 3) + rb);
        assert(a.subrange(0, 3) =~= b.subrange(0, 3));
    }
}

} // verus!
