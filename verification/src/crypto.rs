//! Credential sealing and unsealing with AES-256-GCM.
//!
//! A sealed value is the twelve-byte nonce followed by the ciphertext and
//! tag. The cipher itself is an outside primitive; what it returns for a
//! key, nonce and message is named, and unsealing what was sealed under the
//! same key returns the message.

use aes_gcm::aead::Aead;
use aes_gcm::KeyInit;
use vstd::prelude::*;
use vstd::slice::slice_subrange;
use vstd::utf8::{decode_utf8, valid_utf8};

use crate::types::Credentials;

verus! {

/// Length of the AES-GCM nonce that leads a sealed value.
pub const NONCE_SIZE: usize = 12;

/// What AES-256-GCM produces for a key, nonce and plaintext.
pub uninterp spec fn aead_seal(key: Seq<u8>, nonce: Seq<u8>, plaintext: Seq<u8>) -> Seq<u8>;

/// What AES-256-GCM decryption returns for a key, nonce and ciphertext:
/// the plaintext, or nothing when the tag does not verify.
pub uninterp spec fn aead_open(key: Seq<u8>, nonce: Seq<u8>, ciphertext: Seq<u8>) -> Option<
    Seq<u8>,
>;

/// Relies on rand's `fill` over the thread generator for a fresh nonce.
#[verifier::external_body]
fn random_nonce() -> (r: [u8; 12]) {
    let mut nonce: [u8; 12] = [0u8; 12];
    rand::fill(&mut nonce[..]);
    nonce
}

/// Relies on aes-gcm's `Aes256Gcm::encrypt`: the ciphertext is determined
/// by key, nonce and plaintext, it is the plaintext's length plus the
/// sixteen-byte tag, and decrypting it under the same key and nonce
/// returns the plaintext. Encryption refuses only messages beyond the
/// cipher's length bound, far above four gigabytes.
#[verifier::external_body]
fn aes256gcm_seal(key: &[u8], nonce: &[u8; 12], plaintext: &[u8]) -> (r: Option<Vec<u8>>)
    requires
        key@.len() == 32,
    ensures
        r matches Some(c) ==> c@ == aead_seal(key@, nonce@, plaintext@) && c@.len()
            == plaintext@.len() + 16 && aead_open(key@, nonce@, c@) == Some(plaintext@),
        plaintext@.len() < 0x1_0000_0000 ==> r is Some,
{
    let cipher = aes_gcm::Aes256Gcm::new_from_slice(key).ok()?;
    let nonce_arr = aes_gcm::Nonce::from(*nonce);
    cipher.encrypt(&nonce_arr, plaintext).ok()
}

/// Relies on aes-gcm's `Aes256Gcm::decrypt`: returns the plaintext exactly
/// when the tag verifies, determined by key, nonce and ciphertext alone.
#[verifier::external_body]
fn aes256gcm_open(key: &[u8], nonce: &[u8], ciphertext: &[u8]) -> (r: Option<Vec<u8>>)
    requires
        key@.len() == 32,
        nonce@.len() == 12,
    ensures
        (r matches Some(p) ==> aead_open(key@, nonce@, ciphertext@) == Some(p@)),
        (r is None ==> aead_open(key@, nonce@, ciphertext@) is None),
{
    let cipher = aes_gcm::Aes256Gcm::new_from_slice(key).ok()?;
    let nonce_arr = aes_gcm::Nonce::try_from(nonce).ok()?;
    cipher.decrypt(&nonce_arr, ciphertext).ok()
}

/// Why sealing or unsealing failed.
#[derive(Clone, Copy, Debug, PartialEq, Eq, Structural)]
pub enum CryptoError {
    /// The key did not hold exactly 32 bytes.
    KeyLength,
    /// The sealed value was shorter than a nonce.
    TooShort,
    /// The cipher refused the operation or the tag did not verify.
    Aead,
    /// The unsealed plaintext was not valid UTF-8.
    Utf8,
}

/// Append a byte slice to a vector.
fn push_bytes(dst: &mut Vec<u8>, src: &[u8])
    ensures
        final(dst)@ == old(dst)@ + src@,
{
    let n: usize = src.len();
    let mut i: usize = 0;
    while i < n
        invariant
            i <= n == src@.len(),
            dst@ == old(dst)@ + src@.take(i as int),
        decreases n - i,
    {
        let b: u8 = src[i];
        dst.push(b);
        i = i + 1;
        proof {
            assert(dst@ =~= old(dst)@ + src@.take(i as int));
        }
    }
    proof {
        assert(src@.take(n as int) =~= src@);
    }
}

/// Seal a plaintext under a 32-byte key: a fresh nonce, then the
/// ciphertext and tag for that nonce. Succeeds on every plaintext below
/// four gigabytes.
pub fn encrypt(key: &[u8], plaintext: &[u8]) -> (r: Result<Vec<u8>, CryptoError>)
    ensures
        key@.len() != 32 ==> r == Err::<Vec<u8>, CryptoError>(CryptoError::KeyLength),
        (key@.len() == 32 && plaintext@.len() < 0x1_0000_0000) ==> r is Ok,
        r matches Ok(c) ==> ({
            &&& key@.len() == 32
            &&& c@.len() == plaintext@.len() + NONCE_SIZE + 16
            &&& c@.skip(NONCE_SIZE as int) == aead_seal(key@, c@.take(NONCE_SIZE as int), plaintext@)
            &&& aead_open(key@, c@.take(NONCE_SIZE as int), c@.skip(NONCE_SIZE as int)) == Some(
                plaintext@,
            )
        }),
{
    if key.len() != 32 {
        return Err(CryptoError::KeyLength);
    }
    let nonce = random_nonce();
    match aes256gcm_seal(key, &nonce, plaintext) {
        Some(ciphertext) => {
            let mut out: Vec<u8> = Vec::new();
            push_bytes(&mut out, nonce.as_slice());
            push_bytes(&mut out, ciphertext.as_slice());
            proof {
                assert(out@.take(NONCE_SIZE as int) =~= nonce@);
                assert(out@.skip(NONCE_SIZE as int) =~= ciphertext@);
            }
            Ok(out)
        },
        None => Err(CryptoError::Aead),
    }
}

/// Unseal a sealed value under a 32-byte key. Returns the plaintext
/// exactly when the leading nonce and the tag agree with the key.
pub fn decrypt(key: &[u8], ciphertext: &[u8]) -> (r: Result<Vec<u8>, CryptoError>)
    ensures
        key@.len() != 32 ==> r == Err::<Vec<u8>, CryptoError>(CryptoError::KeyLength),
        key@.len() == 32 && ciphertext@.len() < NONCE_SIZE ==> r == Err::<Vec<u8>, CryptoError>(
            CryptoError::TooShort,
        ),
        key@.len() == 32 && ciphertext@.len() >= NONCE_SIZE ==> ({
            let opened = aead_open(
                key@,
                ciphertext@.take(NONCE_SIZE as int),
                ciphertext@.skip(NONCE_SIZE as int),
            );
            match r {
                Ok(p) => opened == Some(p@),
                Err(e) => e == CryptoError::Aead && opened is None,
            }
        }),
{
    if key.len() != 32 {
        return Err(CryptoError::KeyLength);
    }
    if ciphertext.len() < NONCE_SIZE {
        return Err(CryptoError::TooShort);
    }
    let nonce = slice_subrange(ciphertext, 0, NONCE_SIZE);
    let body = slice_subrange(ciphertext, NONCE_SIZE, ciphertext.len());
    proof {
        assert(nonce@ =~= ciphertext@.take(NONCE_SIZE as int));
        assert(body@ =~= ciphertext@.skip(NONCE_SIZE as int));
    }
    match aes256gcm_open(key, nonce, body) {
        Some(plaintext) => Ok(plaintext),
        None => Err(CryptoError::Aead),
    }
}

/// Sealing and then unsealing under one 32-byte key returns the plaintext:
/// the round trip goes through on every plaintext below four gigabytes,
/// and whatever comes back is the message that went in.
pub fn seal_unseal_round_trip(key: &[u8], plaintext: &[u8]) -> (r: Result<Vec<u8>, CryptoError>)
    requires
        key@.len() == 32,
    ensures
        plaintext@.len() < 0x1_0000_0000 ==> r is Ok,
        r matches Ok(p) ==> p@ == plaintext@,
{
    let sealed = match encrypt(key, plaintext) {
        Ok(c) => c,
        Err(e) => {
            return Err(e);
        },
    };
    let opened = decrypt(key, sealed.as_slice());
    proof {
        // The unseal cannot miss: the seal's contract pins what opening
        // the sealed bytes returns.
        assert(opened matches Ok(p) && p@ == plaintext@);
    }
    opened
}

} // verus!

verus! {

/// The text a sealed value unseals to under a key: the AES-GCM plaintext
/// for the leading nonce, read as UTF-8; nothing if the tag or the
/// encoding fails.
pub open spec fn unsealed_text(key: Seq<u8>, sealed: Seq<u8>) -> Option<Seq<char>> {
    if sealed.len() >= NONCE_SIZE {
        match aead_open(key, sealed.take(NONCE_SIZE as int), sealed.skip(NONCE_SIZE as int)) {
            Some(pt) => if valid_utf8(pt) {
                Some(decode_utf8(pt))
            } else {
                None
            },
            None => None,
        }
    } else {
        None
    }
}

/// Unseal one credential field to text.
fn decrypt_text(key: &[u8], sealed: &[u8]) -> (r: Result<String, CryptoError>)
    requires
        key@.len() == 32,
    ensures
        r matches Ok(s) ==> unsealed_text(key@, sealed@) == Some(s@),
        r is Err ==> unsealed_text(key@, sealed@) is None,
{
    let plaintext = match decrypt(key, sealed) {
        Ok(p) => p,
        Err(e) => {
            return Err(e);
        },
    };
    match String::from_utf8(plaintext) {
        Ok(s) => Ok(s),
        Err(_) => Err(CryptoError::Utf8),
    }
}

/// Unseal a credential triple: API key, API secret, and the passphrase if
/// one is stored. Succeeds exactly when the key holds 32 bytes and every
/// stored field unseals to text.
pub fn decrypt_credentials(
    key: &[u8],
    api_key_encrypted: &[u8],
    api_secret_encrypted: &[u8],
    passphrase_encrypted: Option<&[u8]>,
) -> (r: Result<(String, String, Option<String>), CryptoError>)
    ensures
        key@.len() != 32 ==> r is Err,
        r matches Ok(t) ==> ({
            &&& key@.len() == 32
            &&& unsealed_text(key@, api_key_encrypted@) == Some(t.0@)
            &&& unsealed_text(key@, api_secret_encrypted@) == Some(t.1@)
            &&& (passphrase_encrypted matches Some(pe) ==> t.2 matches Some(p) && unsealed_text(
                key@,
                pe@,
            ) == Some(p@))
            &&& (passphrase_encrypted is None ==> t.2 is None)
        }),
        (r is Err && key@.len() == 32) ==> (unsealed_text(key@, api_key_encrypted@) is None
            || unsealed_text(key@, api_secret_encrypted@) is None || (
        passphrase_encrypted matches Some(pe) && unsealed_text(key@, pe@) is None)),
{
    if key.len() != 32 {
        return Err(CryptoError::KeyLength);
    }
    let api_key = match decrypt_text(key, api_key_encrypted) {
        Ok(s) => s,
        Err(e) => {
            return Err(e);
        },
    };
    let api_secret = match decrypt_text(key, api_secret_encrypted) {
        Ok(s) => s,
        Err(e) => {
            return Err(e);
        },
    };
    let passphrase = match passphrase_encrypted {
        Some(sealed) => match decrypt_text(key, sealed) {
            Ok(s) => Some(s),
            Err(e) => {
                return Err(e);
            },
        },
        None => None,
    };
    Ok((api_key, api_secret, passphrase))
}

/// Bundle a decrypted triple as credentials.
pub fn credentials_from_parts(api_key: String, api_secret: String, passphrase: Option<String>)
    -> (r: Credentials)
    ensures
        r.api_key == api_key,
        r.api_secret == api_secret,
        r.passphrase == passphrase,
{
    Credentials { api_key, api_secret, passphrase }
}

} // verus!
