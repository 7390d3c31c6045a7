//! Payload encoding: the content identifier (a truncated SHA-256 digest in
//! uppercase hex), the derived payload file name, and the base64 text form
//! of the artifact bytes — padded for the Python dialect, unpadded for the
//! Rust dialect.

use vstd::prelude::*;

use crate::lang::Language;
use crate::triple::ext_of;

verus! {

/// SHA-256 digest of a byte sequence: the 32 digest bytes. The digest is a
/// function of the input bytes alone.
pub uninterp spec fn sha256_of(b: Seq<u8>) -> Seq<u8>;

/// Base64 text of a byte sequence, padded (RFC 4648) when `padded` and
/// unpadded otherwise; a function of the input bytes alone.
pub uninterp spec fn base64_of(padded: bool, b: Seq<u8>) -> Seq<char>;

/// Relies on sha2::Sha256::digest: a 32-byte digest that depends on the
/// input bytes alone.
#[verifier::external_body]
fn sha256(b: &Vec<u8>) -> (r: Vec<u8>)
    ensures
        r@ == sha256_of(b@),
        r@.len() == 32,
{
    <sha2::Sha256 as sha2::digest::Digest>::digest(b.as_slice()).to_vec()
}

/// One uppercase hexadecimal digit for a value below sixteen.
pub open spec fn hex_digit(d: u8) -> char {
    if d == 0 {
        '0'
    } else if d == 1 {
        '1'
    } else if d == 2 {
        '2'
    } else if d == 3 {
        '3'
    } else if d == 4 {
        '4'
    } else if d == 5 {
        '5'
    } else if d == 6 {
        '6'
    } else if d == 7 {
        '7'
    } else if d == 8 {
        '8'
    } else if d == 9 {
        '9'
    } else if d == 10 {
        'A'
    } else if d == 11 {
        'B'
    } else if d == 12 {
        'C'
    } else if d == 13 {
        'D'
    } else if d == 14 {
        'E'
    } else {
        'F'
    }
}

/// Uppercase hexadecimal text of a byte sequence: two digits per byte, high
/// nibble first.
pub open spec fn hex_upper_of(b: Seq<u8>) -> Seq<char> {
    Seq::new(
        b.len() * 2,
        |i: int|
            if i % 2 == 0 {
                hex_digit(b[i / 2] / 16)
            } else {
                hex_digit(b[i / 2] % 16)
            },
    )
}

/// Relies on data_encoding::HEXUPPER.encode: uppercase hexadecimal with the
/// RFC 4648 symbols "0123456789ABCDEF", two digits per byte, high nibble
/// first. The length bound keeps the call from its documented panic.
#[verifier::external_body]
fn hex_upper(b: &Vec<u8>) -> (r: String)
    requires
        b@.len() <= usize::MAX / 512,
    ensures
        r@ == hex_upper_of(b@),
{
    data_encoding::HEXUPPER.encode(b.as_slice())
}

/// A symbol of the RFC 4648 base64 alphabet: the letters, the digits, `+`
/// and `/` (padding `=` is not a symbol).
pub open spec fn is_base64_symbol(c: char) -> bool {
    ||| (65 <= c as u32 && c as u32 <= 90)  // 'A' to 'Z'
    ||| (97 <= c as u32 && c as u32 <= 122)  // 'a' to 'z'
    ||| (48 <= c as u32 && c as u32 <= 57)  // '0' to '9'
    ||| c == '+'
    ||| c == '/'
}

/// Relies on data_encoding::BASE64.encode: RFC 4648 padded base64, a
/// function of the input bytes alone, four output characters per full or
/// partial group of three input bytes, each an alphabet symbol or the
/// padding character. The length bound keeps the call from its documented
/// panic.
#[verifier::external_body]
fn base64_padded(b: &Vec<u8>) -> (r: String)
    requires
        b@.len() <= usize::MAX / 512,
    ensures
        r@ == base64_of(true, b@),
        r@.len() == 4 * ((b@.len() + 2) / 3),
        forall|i: int|
            0 <= i < r@.len() ==> is_base64_symbol(#[trigger] r@[i]) || r@[i] == '=',
{
    data_encoding::BASE64.encode(b.as_slice())
}

/// Relies on data_encoding::BASE64_NOPAD.encode: RFC 4648 base64 without
/// padding, a function of the input bytes alone, one alphabet symbol per six
/// input bits, rounded up, and no padding character. The length bound keeps
/// the call from its documented panic.
#[verifier::external_body]
fn base64_nopad(b: &Vec<u8>) -> (r: String)
    requires
        b@.len() <= usize::MAX / 512,
    ensures
        r@ == base64_of(false, b@),
        r@.len() == (4 * b@.len() + 2) / 3,
        forall|i: int| 0 <= i < r@.len() ==> is_base64_symbol(#[trigger] r@[i]),
{
    data_encoding::BASE64_NOPAD.encode(b.as_slice())
}

/// Relies on data_encoding::BASE64.decode: decoding inverts encoding (the
/// crate documents that encoding followed by decoding gives the initial
/// data). The length bound keeps the call from its documented panic.
#[verifier::external_body]
fn base64_decode_padded(s: &str) -> (r: Option<Vec<u8>>)
    requires
        s@.len() <= usize::MAX / 32,
    ensures
        forall|b: Seq<u8>|
            s@ == #[trigger] base64_of(true, b) ==> r is Some && r.unwrap()@ == b,
{
    data_encoding::BASE64.decode(s.as_bytes()).ok()
}

/// Relies on data_encoding::BASE64_NOPAD.decode: decoding inverts encoding
/// (the crate documents that encoding followed by decoding gives the initial
/// data). The length bound keeps the call from its documented panic.
#[verifier::external_body]
fn base64_decode_nopad(s: &str) -> (r: Option<Vec<u8>>)
    requires
        s@.len() <= usize::MAX / 32,
    ensures
        forall|b: Seq<u8>|
            s@ == #[trigger] base64_of(false, b) ==> r is Some && r.unwrap()@ == b,
{
    data_encoding::BASE64_NOPAD.decode(s.as_bytes()).ok()
}

/// Whether a dialect's payload text carries base64 padding: the Python
/// dialect does, the Rust dialect leaves it off.
pub open spec fn uses_padding(lang: Language) -> bool {
    lang == Language::Python
}

/// The content identifier of a byte sequence: the first eight characters of
/// the uppercase hex form of its SHA-256 digest.
pub open spec fn ident_of(b: Seq<u8>) -> Seq<char> {
    hex_upper_of(sha256_of(b)).take(8)
}

/// The payload's launcher-internal file name: the literal prefix "bin", the
/// content identifier, and the triple's platform extension.
pub open spec fn payload_name_of(b: Seq<u8>, t: Seq<char>) -> Seq<char> {
    "bin"@ + ident_of(b) + ext_of(t)
}

/// Determinism of the content identifier: it is a function of the artifact
/// bytes alone, so the same bytes give the same eight-character digest
/// prefix, on every run.
pub proof fn lemma_identifier_deterministic(b1: Seq<u8>, b2: Seq<u8>)
    requires
        b1 == b2,
    ensures
        ident_of(b1) == ident_of(b2),
{
}

/// Computes the content identifier of the artifact bytes. The result is a
/// function of the bytes alone, so the identifier is deterministic: the same
/// bytes give the same eight-character digest prefix on every run.
pub fn content_identifier(b: &Vec<u8>) -> (r: String)
    ensures
        r@ == ident_of(b@),
        r@.len() == 8,
{
    let digest = sha256(b);
    let hex = hex_upper(&digest);
    let short = hex.as_str().substring_char(0, 8);
    proof {
        assert(hex@.subrange(0, 8) =~= hex@.take(8));
    }
    short.to_owned()
}

/// Derives the launcher-internal file name for the payload, from the
/// artifact bytes and the compilation triple.
pub fn payload_file_name(b: &Vec<u8>, triple: &str) -> (r: String)
    ensures
        r@ == payload_name_of(b@, triple@),
        r@.len() == 11 + ext_of(triple@).len(),
{
    let mut name: String = "bin".to_owned();
    let ident = content_identifier(b);
    name.append(ident.as_str());
    name.append(crate::triple::extension_for(triple));
    proof {
        reveal_strlit("bin");
    }
    name
}

/// Encodes the artifact bytes as payload text in the dialect's base64 form.
pub fn encode_payload(b: &Vec<u8>, lang: Language) -> (r: String)
    requires
        b@.len() <= usize::MAX / 512,
    ensures
        r@ == base64_of(uses_padding(lang), b@),
        uses_padding(lang) ==> r@.len() == 4 * ((b@.len() + 2) / 3),
        !uses_padding(lang) ==> r@.len() == (4 * b@.len() + 2) / 3,
        forall|i: int|
            0 <= i < r@.len() ==> is_base64_symbol(#[trigger] r@[i]) || r@[i] == '=',
        !uses_padding(lang) ==> forall|i: int|
            0 <= i < r@.len() ==> is_base64_symbol(#[trigger] r@[i]),
{
    match lang {
        Language::Python => base64_padded(b),
        Language::Rust => base64_nopad(b),
    }
}

/// Decodes payload text back to bytes. Round trip: on the text that
/// `encode_payload` produced for some bytes in the same dialect, decoding
/// succeeds and gives back exactly those bytes.
pub fn decode_payload(s: &str, lang: Language) -> (r: Option<Vec<u8>>)
    requires
        s@.len() <= usize::MAX / 32,
    ensures
        forall|b: Seq<u8>|
            s@ == #[trigger] base64_of(uses_padding(lang), b) ==> r is Some && r.unwrap()@ == b,
{
    match lang {
        Language::Python => base64_decode_padded(s),
        Language::Rust => base64_decode_nopad(s),
    }
}

/// Round-trip decodability, checked end to end: for any artifact bytes and
/// either dialect, decoding the payload text that encoding produced
/// succeeds and gives back exactly the original bytes.
pub fn payload_round_trip(b: &Vec<u8>, lang: Language) -> (r: Option<Vec<u8>>)
    requires
        b@.len() <= usize::MAX / 512,
    ensures
        r matches Some(decoded) && decoded@ == b@,
{
    let text = encode_payload(b, lang);
    proof {
        assert(32 * text@.len() <= usize::MAX) by (nonlinear_arith)
            requires
                b@.len() <= usize::MAX / 512,
                text@.len() == 4 * ((b@.len() + 2) / 3) || text@.len() == (4 * b@.len() + 2) / 3,
        ;
    }
    decode_payload(text.as_str(), lang)
}

} // verus!
