use base64::Engine;
use vstd::prelude::*;

use crate::error::{AppError, ErrorKind};

verus! {

/// A character of the Bitcoin Base58 alphabet.
pub open spec fn is_base58_char(c: char) -> bool {
    ('1' <= c && c <= '9') || ('A' <= c && c <= 'H') || ('J' <= c && c <= 'N')
        || ('P' <= c && c <= 'Z') || ('a' <= c && c <= 'k') || ('m' <= c && c <= 'z')
}

/// A character of the standard Base64 alphabet, padding included.
pub open spec fn is_base64_char(c: char) -> bool {
    ('A' <= c && c <= 'Z') || ('a' <= c && c <= 'z') || ('0' <= c && c <= '9') || c == '+'
        || c == '/' || c == '='
}

pub open spec fn all_base58(s: Seq<char>) -> bool {
    forall|i: int| 0 <= i < s.len() ==> is_base58_char(#[trigger] s[i])
}

pub open spec fn all_base64(s: Seq<char>) -> bool {
    forall|i: int| 0 <= i < s.len() ==> is_base64_char(#[trigger] s[i])
}

/// Whether some byte sequence has `t` as its Base58 text.
pub open spec fn base58_decodes(t: Seq<char>) -> bool {
    exists|v: Seq<u8>| base58_of(v) == t
}

/// The byte sequence whose Base58 text is `t`, where there is one.
pub open spec fn base58_bytes(t: Seq<char>) -> Seq<u8> {
    choose|v: Seq<u8>| base58_of(v) == t
}

/// Whether some byte sequence has `t` as its Base64 text.
pub open spec fn base64_decodes(t: Seq<char>) -> bool {
    exists|v: Seq<u8>| base64_of(v) == t
}

/// The byte sequence whose Base64 text is `t`, where there is one.
pub open spec fn base64_bytes(t: Seq<char>) -> Seq<u8> {
    choose|v: Seq<u8>| base64_of(v) == t
}

/// The Base58 text (Bitcoin alphabet) of a byte sequence.
pub uninterp spec fn base58_of(b: Seq<u8>) -> Seq<char>;

/// The standard, padded Base64 text of a byte sequence.
pub uninterp spec fn base64_of(b: Seq<u8>) -> Seq<char>;

/// `bs58::decode::Error`, carried opaquely as the failure of a Base58 decode.
#[verifier::external_type_specification]
#[verifier::external_body]
pub struct ExBase58Error(bs58::decode::Error);

/// `base64::DecodeError`, carried opaquely as the failure of a Base64 decode.
#[verifier::external_type_specification]
#[verifier::external_body]
pub struct ExBase64Error(base64::DecodeError);

/// Relies on `bs58::encode(..).into_string()`: the Base58 text of the bytes,
/// written in the Bitcoin alphabet.
#[verifier::external_body]
fn bs58_encode(b: &[u8]) -> (r: String)
    ensures
        r@ == base58_of(b@),
        all_base58(r@),
{
    bs58::encode(b).into_string()
}

/// Relies on `bs58::decode(..).into_vec()`: it succeeds exactly on text in the
/// Bitcoin alphabet, and then returns the one byte sequence whose Base58 text
/// is that text (leading '1's stand for leading zero bytes).
#[verifier::external_body]
fn bs58_decode(s: &str) -> (r: Result<Vec<u8>, bs58::decode::Error>)
    ensures
        r is Ok <==> all_base58(s@),
        r matches Ok(v) ==> base58_of(v@) == s@,
        (exists|v: Seq<u8>| base58_of(v) == s@) ==> r is Ok,
        r matches Ok(w) ==> forall|v: Seq<u8>| base58_of(v) == s@ ==> w@ == v,
{
    bs58::decode(s).into_vec()
}

/// Relies on `BASE64_STANDARD.encode`: the standard, padded Base64 text of the
/// bytes.
#[verifier::external_body]
fn b64_encode(b: &[u8]) -> (r: String)
    ensures
        r@ == base64_of(b@),
        all_base64(r@),
{
    base64::prelude::BASE64_STANDARD.encode(b)
}

/// Relies on `BASE64_STANDARD.decode`: this engine requires canonical padding
/// and zero trailing bits, so it accepts exactly the texts that its encoder
/// writes, and returns the bytes that were encoded.
#[verifier::external_body]
fn b64_decode(s: &str) -> (r: Result<Vec<u8>, base64::DecodeError>)
    ensures
        r matches Ok(v) ==> base64_of(v@) == s@,
        (exists|v: Seq<u8>| base64_of(v) == s@) ==> r is Ok,
        r matches Ok(w) ==> forall|v: Seq<u8>| base64_of(v) == s@ ==> w@ == v,
{
    base64::prelude::BASE64_STANDARD.decode(s)
}

/// Base58 text of `bytes`; every character is in the Bitcoin alphabet.
pub fn to_base58(bytes: &[u8]) -> (r: String)
    ensures
        r@ == base58_of(bytes@),
        all_base58(r@),
{
    bs58_encode(bytes)
}

/// Decodes Base58 text. It is the inverse of `to_base58`: the bytes whose
/// text `text` is come back, and text that is no such encoding (for one, text
/// with a character outside the alphabet) is refused with `InvalidEncoding`.
pub fn from_base58(text: &str) -> (r: Result<Vec<u8>, AppError>)
    ensures
        r is Ok <==> base58_decodes(text@),
        r matches Ok(v) ==> base58_of(v@) == text@ && v@ == base58_bytes(text@),
        forall|v: Seq<u8>| base58_of(v) == text@ ==> (r matches Ok(w) && w@ == v),
        !all_base58(text@) ==> r is Err,
        r matches Err(e) ==> e.0 == ErrorKind::InvalidEncoding,
{
    match bs58_decode(text) {
        Ok(v) => {
            assert(base58_of(base58_bytes(text@)) == text@);
            Ok(v)
        },
        Err(_) => Err(AppError(ErrorKind::InvalidEncoding)),
    }
}

/// Standard, padded Base64 text of `bytes`; every character is in the
/// Base64 alphabet.
pub fn to_base64(bytes: &[u8]) -> (r: String)
    ensures
        r@ == base64_of(bytes@),
        all_base64(r@),
{
    b64_encode(bytes)
}

/// Decodes standard, padded Base64 text. It is the inverse of `to_base64`:
/// the bytes whose text `text` is come back, and any other text is refused
/// with `InvalidEncoding`.
pub fn from_base64(text: &str) -> (r: Result<Vec<u8>, AppError>)
    ensures
        r is Ok <==> base64_decodes(text@),
        r matches Ok(v) ==> base64_of(v@) == text@ && v@ == base64_bytes(text@),
        forall|v: Seq<u8>| base64_of(v) == text@ ==> (r matches Ok(w) && w@ == v),
        r matches Err(e) ==> e.0 == ErrorKind::InvalidEncoding,
{
    match b64_decode(text) {
        Ok(v) => {
            assert(base64_of(base64_bytes(text@)) == text@);
            Ok(v)
        },
        Err(_) => Err(AppError(ErrorKind::InvalidEncoding)),
    }
}

} // verus!
