//! Identities derived from text: the MD5 digest in hexadecimal, the quoted
//! form of a string, and the decoding of base64-wrapped addresses.
use vstd::prelude::*;
use vstd::utf8::{decode_utf8, valid_utf8};

use crate::text::{hex_lower, push_char, to_hex_lower};

verus! {

/// The MD5 digest of `data`, as `md5::compute` gives it.
pub uninterp spec fn md5_digest(data: Seq<u8>) -> Seq<u8>;

/// `data` quoted as `Debug` writes a `str`: between double quotes, with
/// special characters escaped.
pub uninterp spec fn str_debug(data: Seq<char>) -> Seq<char>;

/// What `base64::decode` (standard alphabet, canonical padding) makes of the
/// UTF-8 bytes of `input`: the decoded bytes, or `None` where it reports an
/// error.
pub uninterp spec fn base64_standard_decode(input: Seq<char>) -> Option<Seq<u8>>;

/// Computes `md5::compute(data)` and hands out the sixteen digest bytes; the
/// contract claims they are the named digest of `data`, sixteen long as the
/// digest type fixes.
#[verifier::external_body]
fn md5_of(data: &[u8]) -> (r: Vec<u8>)
    ensures
        r@ == md5_digest(data@),
        r@.len() == 16,
{
    md5::compute(data).0.to_vec()
}

/// Writes `s` with `format!("{:?}", s)`; the contract claims the result is the
/// named quoted form of `s`.
#[verifier::external_body]
fn debug_of_str(s: &str) -> (r: String)
    ensures
        r@ == str_debug(s@),
{
    format!("{:?}", s)
}

#[verifier::external_type_specification]
#[verifier::external_body]
pub struct ExDecodeError(base64::DecodeError);

/// Calls `base64::decode` on the bytes of `input`; the contract claims it
/// succeeds exactly when the named decoding exists, with that result.
#[verifier::external_body]
#[allow(deprecated)]
fn base64_decode(input: &str) -> (r: Result<Vec<u8>, base64::DecodeError>)
    ensures
        r is Ok <==> base64_standard_decode(input@) is Some,
        r matches Ok(v) ==> base64_standard_decode(input@) == Some(v@),
{
    base64::decode(input)
}

/// Calls `String::from_utf8`; it succeeds exactly on valid UTF-8, giving the
/// characters that the bytes encode.
#[verifier::external_body]
fn utf8_to_string(bytes: Vec<u8>) -> (r: Option<String>)
    ensures
        r is Some <==> valid_utf8(bytes@),
        r matches Some(s) ==> s@ == decode_utf8(bytes@),
{
    String::from_utf8(bytes).ok()
}

/// The UTF-8 encoding of `s`.
pub open spec fn utf8(s: Seq<char>) -> Seq<u8> {
    vstd::utf8::encode_utf8(s)
}

/// The MD5 digest of the UTF-8 encoding of `s` in lower-case hexadecimal
/// (`format!("{:x}", md5::compute(s))`).
pub open spec fn md5_hex(s: Seq<char>) -> Seq<char> {
    hex_lower(md5_digest(utf8(s)))
}

/// The MD5 digest of `s` in lower-case hexadecimal, 32 characters.
pub fn md5_hex_of(s: &str) -> (r: String)
    ensures
        r@ == md5_hex(s@),
        r@.len() == 32,
{
    let bytes = s.as_bytes();
    let digest = md5_of(bytes);
    to_hex_lower(&digest)
}

/// `Debug` of an optional string: `None`, or `Some(` the quoted string `)`.
pub open spec fn option_debug(o: Option<Seq<char>>) -> Seq<char> {
    match o {
        None => seq!['N', 'o', 'n', 'e'],
        Some(s) => seq!['S', 'o', 'm', 'e', '('] + str_debug(s) + seq![')'],
    }
}

/// Writes an optional string as `format!("{:?}", o)` does.
pub fn option_debug_of(o: &Option<String>) -> (r: String)
    ensures
        r@ == option_debug(crate::model::opt_view(o)),
{
    let mut r = String::new();
    match o {
        None => {
            push_char(&mut r, 'N');
            push_char(&mut r, 'o');
            push_char(&mut r, 'n');
            push_char(&mut r, 'e');
        },
        Some(s) => {
            push_char(&mut r, 'S');
            push_char(&mut r, 'o');
            push_char(&mut r, 'm');
            push_char(&mut r, 'e');
            push_char(&mut r, '(');
            let q = debug_of_str(s.as_str());
            r.append(q.as_str());
            push_char(&mut r, ')');
        },
    }
    assert(r@ =~= option_debug(crate::model::opt_view(o)));
    r
}

/// Why an image-proxy address could not be read.
#[derive(PartialEq, Eq, Structural, Clone, Copy, Debug)]
pub enum ProxyUrlError {
    /// The address is not valid base64.
    Base64,
    /// The decoded bytes are not UTF-8.
    Utf8,
}

/// `s` with every `from` replaced by `to`.
pub open spec fn replace_char(s: Seq<char>, from: char, to: char) -> Seq<char> {
    s.map_values(|c: char| if c == from { to } else { c })
}

/// Outcome of decoding an image-proxy address `encoded`: `_` stands for `/`,
/// the result is base64 of the UTF-8 bytes of the target address.
pub open spec fn proxy_target(encoded: Seq<char>) -> Result<Seq<char>, ProxyUrlError> {
    match base64_standard_decode(replace_char(encoded, '_', '/')) {
        None => Err(ProxyUrlError::Base64),
        Some(bytes) => if valid_utf8(bytes) {
            Ok(decode_utf8(bytes))
        } else {
            Err(ProxyUrlError::Utf8)
        },
    }
}

/// `s` with every `from` replaced by `to`.
pub fn replace_char_in(s: &str, from: char, to: char) -> (r: String)
    ensures
        r@ == replace_char(s@, from, to),
{
    let v = crate::text::chars_of(s);
    let mut r = String::new();
    let mut i: usize = 0;
    while i < v.len()
        invariant
            v@ == s@,
            0 <= i <= v.len(),
            r@ == replace_char(s@, from, to).take(i as int),
        decreases v.len() - i,
    {
        let c = if v[i] == from {
            to
        } else {
            v[i]
        };
        push_char(&mut r, c);
        assert(replace_char(s@, from, to).take(i + 1) =~= replace_char(s@, from, to).take(
            i as int,
        ).push(c));
        i = i + 1;
    }
    assert(replace_char(s@, from, to).take(v.len() as int) =~= replace_char(s@, from, to));
    r
}

/// Decodes the address behind an image-proxy request: `_` is read as `/`,
/// then base64, then UTF-8.
pub fn decode_proxy_target(encoded: &str) -> (r: Result<String, ProxyUrlError>)
    ensures
        match (r, proxy_target(encoded@)) {
            (Ok(s), Ok(t)) => s@ == t,
            (Err(e), Err(f)) => e == f,
            _ => false,
        },
{
    let slashed = replace_char_in(encoded, '_', '/');
    match base64_decode(slashed.as_str()) {
        Err(_) => Err(ProxyUrlError::Base64),
        Ok(bytes) => match utf8_to_string(bytes) {
            Some(s) => Ok(s),
            None => Err(ProxyUrlError::Utf8),
        },
    }
}

/// The name an attachment is cached under: the MD5 hexadecimal of the
/// address exactly as the request carried it.
pub fn attachment_cache_id(encoded: &str) -> (r: String)
    ensures
        r@ == md5_hex(encoded@),
{
    md5_hex_of(encoded)
}

/// After decoding, no `_` is left to stand for `/`.
pub proof fn lemma_replace_char_removes(s: Seq<char>, from: char, to: char)
    requires
        from != to,
    ensures
        !replace_char(s, from, to).contains(from),
{
    let r = replace_char(s, from, to);
    assert forall|i: int| 0 <= i < r.len() implies r[i] != from by {}
}

} // verus!
