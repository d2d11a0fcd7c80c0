//! Digests and text encodings that request signing rests on.
//!
//! The digests themselves come from outside crates and are named, not
//! restated; the hex and percent encodings are short enough to state
//! exactly.

use base64::Engine;
use hmac::KeyInit;
use hmac::Mac;
use sha2::Digest;
use vstd::prelude::*;
use vstd::string::StringSliceAdditionalSpecFns;

verus! {

/// The character for a nibble in lowercase hex.
pub open spec fn hex_lower_char(d: int) -> char {
    if d < 10 {
        crate::fixed::digit_char(d)
    } else if d == 10 {
        'a'
    } else if d == 11 {
        'b'
    } else if d == 12 {
        'c'
    } else if d == 13 {
        'd'
    } else if d == 14 {
        'e'
    } else {
        'f'
    }
}

/// The character for a nibble in uppercase hex.
pub open spec fn hex_upper_char(d: int) -> char {
    if d < 10 {
        crate::fixed::digit_char(d)
    } else if d == 10 {
        'A'
    } else if d == 11 {
        'B'
    } else if d == 12 {
        'C'
    } else if d == 13 {
        'D'
    } else if d == 14 {
        'E'
    } else {
        'F'
    }
}

/// Exec form of `hex_lower_char`.
pub fn hex_char_lower(d: u8) -> (c: char)
    requires
        d < 16,
    ensures
        c == hex_lower_char(d as int),
{
    match d {
        0 => '0',
        1 => '1',
        2 => '2',
        3 => '3',
        4 => '4',
        5 => '5',
        6 => '6',
        7 => '7',
        8 => '8',
        9 => '9',
        10 => 'a',
        11 => 'b',
        12 => 'c',
        13 => 'd',
        14 => 'e',
        _ => 'f',
    }
}

/// Lowercase hex encoding: two digits for each byte, high nibble first.
pub open spec fn spec_hex_lower(data: Seq<u8>) -> Seq<char>
    decreases data.len(),
{
    if data.len() == 0 {
        Seq::empty()
    } else {
        seq![
            hex_lower_char(data.first() as int / 16),
            hex_lower_char(data.first() as int % 16),
        ] + spec_hex_lower(data.drop_first())
    }
}

/// What HMAC-SHA256 computes for a key and a message.
pub uninterp spec fn hmac_sha256_of(key: Seq<u8>, msg: Seq<u8>) -> Seq<u8>;

/// What HMAC-SHA512 computes for a key and a message.
pub uninterp spec fn hmac_sha512_of(key: Seq<u8>, msg: Seq<u8>) -> Seq<u8>;

/// What SHA-512 computes for a message.
pub uninterp spec fn sha512_of(msg: Seq<u8>) -> Seq<u8>;

/// What the standard base64 alphabet with padding encodes a byte string to.
pub uninterp spec fn b64_of(data: Seq<u8>) -> Seq<char>;

/// Relies on hmac's `Hmac<Sha256>`: a 32-byte tag over the message,
/// determined by key and message alone. HMAC accepts keys of any length.
#[verifier::external_body]
pub fn hmac_sha256(key: &[u8], msg: &[u8]) -> (r: Vec<u8>)
    ensures
        r@ == hmac_sha256_of(key@, msg@),
        r@.len() == 32,
{
    let mut mac = <hmac::Hmac<sha2::Sha256> as hmac::KeyInit>::new_from_slice(key)
        .expect("HMAC accepts any key length");
    mac.update(msg);
    mac.finalize().into_bytes().to_vec()
}

/// Relies on hmac's `Hmac<Sha512>`: a 64-byte tag over the message,
/// determined by key and message alone.
#[verifier::external_body]
pub fn hmac_sha512(key: &[u8], msg: &[u8]) -> (r: Vec<u8>)
    ensures
        r@ == hmac_sha512_of(key@, msg@),
        r@.len() == 64,
{
    let mut mac = <hmac::Hmac<sha2::Sha512> as hmac::KeyInit>::new_from_slice(key)
        .expect("HMAC accepts any key length");
    mac.update(msg);
    mac.finalize().into_bytes().to_vec()
}

/// Relies on sha2's `Sha512`: a 64-byte digest of the message.
#[verifier::external_body]
pub fn sha512(msg: &[u8]) -> (r: Vec<u8>)
    ensures
        r@ == sha512_of(msg@),
        r@.len() == 64,
{
    sha2::Sha512::digest(msg).to_vec()
}

/// Relies on hex's `encode`: two lowercase hex digits per byte.
#[verifier::external_body]
pub fn hex_encode(data: &[u8]) -> (r: String)
    ensures
        r@ == spec_hex_lower(data@),
{
    hex::encode(data)
}

/// Relies on base64's standard engine with padding.
#[verifier::external_body]
pub fn base64_encode(data: &[u8]) -> (r: String)
    ensures
        r@ == b64_of(data@),
{
    base64::engine::general_purpose::STANDARD.encode(data)
}

/// Relies on base64's standard engine, whose decoder demands canonical
/// padding: it succeeds exactly on the canonical encoding of some byte
/// string, and then returns that byte string.
#[verifier::external_body]
pub fn base64_decode(data: &str) -> (r: Option<Vec<u8>>)
    ensures
        r matches Some(b) ==> data@ == b64_of(b@),
        r is None ==> !exists|b: Seq<u8>| data@ == #[trigger] b64_of(b),
{
    base64::engine::general_purpose::STANDARD.decode(data).ok()
}

/// A byte that percent encoding leaves as it stands.
pub open spec fn url_unreserved(b: u8) -> bool {
    ||| (48 <= b <= 57)  // digits
    ||| (65 <= b <= 90)  // upper case letters
    ||| (97 <= b <= 122)  // lower case letters
    ||| b == 45  // -
    ||| b == 46  // .
    ||| b == 95  // _
    ||| b == 126  // ~

}

/// Percent encoding of a byte string: unreserved bytes stand as they are,
/// every other byte becomes a percent sign and two uppercase hex digits.
pub open spec fn spec_urlencode(data: Seq<u8>) -> Seq<char>
    decreases data.len(),
{
    if data.len() == 0 {
        Seq::empty()
    } else if url_unreserved(data.first()) {
        seq![data.first() as char] + spec_urlencode(data.drop_first())
    } else {
        seq![
            '%',
            hex_upper_char(data.first() as int / 16),
            hex_upper_char(data.first() as int % 16),
        ] + spec_urlencode(data.drop_first())
    }
}

/// Relies on urlencoding's `encode`: percent-encodes every byte except
/// alphanumerics and `-`, `.`, `_`, `~`, with uppercase hex digits.
#[verifier::external_body]
pub fn urlencode(data: &str) -> (r: String)
    ensures
        r@ == spec_urlencode(data.spec_bytes()),
{
    urlencoding::encode(data).into_owned()
}

} // verus!
