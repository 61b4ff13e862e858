//! HMAC-SHA256 signing of the string to sign with a base64 shared key, and
//! the Shared Key authorization token.
use vstd::prelude::*;
use vstd::utf8::encode_utf8;
use base64::engine::general_purpose::STANDARD;
use base64::Engine;
use hmac::{Hmac, Mac};
use sha2::Sha256;

verus! {

#[verifier::external_type_specification]
#[verifier::external_body]
pub struct ExDecodeError(base64::DecodeError);

#[verifier::external_type_specification]
#[verifier::external_body]
pub struct ExInvalidLength(hmac::digest::InvalidLength);

/// What the standard base64 engine (RFC 4648 alphabet, padded) decodes the
/// text to, or `None` where it refuses the text.
pub uninterp spec fn base64_decoded(text: Seq<char>) -> Option<Seq<u8>>;

/// The standard, padded base64 text of `bytes`.
pub uninterp spec fn base64_encoded(bytes: Seq<u8>) -> Seq<char>;

/// The HMAC-SHA256 tag of `message` under `key`.
pub uninterp spec fn hmac_sha256(key: Seq<u8>, message: Seq<u8>) -> Seq<u8>;

/// A symbol that can stand in standard base64 text: a letter, a digit, `+`,
/// `/`, or the padding `=`.
pub open spec fn is_base64_symbol(c: char) -> bool {
    ('A' <= c && c <= 'Z') || ('a' <= c && c <= 'z') || ('0' <= c && c <= '9') || c == '+'
        || c == '/' || c == '='
}

/// Relies on base64's `STANDARD.decode`: it decodes `text` or refuses it,
/// as a function of the text alone, and it refuses any byte that is neither
/// in the alphabet nor padding.
#[verifier::external_body]
fn decode_base64(text: &str) -> (r: Result<Vec<u8>, base64::DecodeError>)
    ensures
        match r {
            Ok(v) => base64_decoded(text@) == Some(v@),
            Err(_) => base64_decoded(text@) is None,
        },
        (exists|i: int| 0 <= i < text@.len() && !is_base64_symbol(#[trigger] text@[i])) ==> r is Err,
{
    STANDARD.decode(text)
}

/// Relies on base64's `STANDARD.encode`: four symbols for each started group
/// of three bytes, and the same engine decodes the text back to `bytes`.
#[verifier::external_body]
fn encode_base64(bytes: &[u8]) -> (r: String)
    ensures
        r@ == base64_encoded(bytes@),
        r@.len() == 4 * ((bytes@.len() + 2) / 3),
        base64_decoded(r@) == Some(bytes@),
{
    STANDARD.encode(bytes)
}

/// Relies on hmac's `Hmac::<Sha256>::new_from_slice`, `update` and `finalize`:
/// HMAC takes a key of any length (the key set-up never fails), and the tag
/// is the 32-byte SHA-256 output.
#[verifier::external_body]
fn hmac_sha256_tag(key: &[u8], message: &[u8]) -> (r: Result<Vec<u8>, hmac::digest::InvalidLength>)
    ensures
        r is Ok,
        r matches Ok(tag) ==> tag@ == hmac_sha256(key@, message@) && tag@.len() == 32,
{
    let mut mac = Hmac::<Sha256>::new_from_slice(key)?;
    mac.update(message);
    Ok(mac.finalize().into_bytes().to_vec())
}

/// Why a request cannot be signed. Both are configuration faults: no request
/// can be signed until the shared key is replaced.
#[derive(Clone, Copy, Debug, PartialEq, Eq, Structural)]
pub enum SignError {
    /// The shared key is not valid base64.
    KeyDecodeError,
    /// The HMAC primitive refused the decoded key.
    HmacInitError,
}

/// The base64 HMAC-SHA256 signature of the UTF-8 bytes of `data` under the
/// key that `key_text` encodes, or `None` where `key_text` is not valid base64.
pub open spec fn signature_of(data: Seq<char>, key_text: Seq<char>) -> Option<Seq<char>> {
    match base64_decoded(key_text) {
        Some(key) => Some(base64_encoded(hmac_sha256(key, encode_utf8(data)))),
        None => None,
    }
}

/// `SharedKey {account}:{signature}`.
pub open spec fn token_text(account: Seq<char>, signature: Seq<char>) -> Seq<char> {
    "SharedKey "@ + account + ":"@ + signature
}

/// The authorization token for `data` signed by `account` with `key_text`.
pub open spec fn authorization_token(data: Seq<char>, key_text: Seq<char>, account: Seq<char>) -> Option<
    Seq<char>,
> {
    match signature_of(data, key_text) {
        Some(signature) => Some(token_text(account, signature)),
        None => None,
    }
}

/// Signs the UTF-8 bytes of `data` with HMAC-SHA256 under the base64 key
/// `secret`, and returns the tag in base64.
pub fn hmac_256(data: &str, secret: &str) -> (r: Result<String, SignError>)
    ensures
        match signature_of(data@, secret@) {
            Some(signature) => r matches Ok(s) && s@ == signature,
            None => r == Err::<String, SignError>(SignError::KeyDecodeError),
        },
        (exists|i: int| 0 <= i < secret@.len() && !is_base64_symbol(#[trigger] secret@[i])) ==> r
            == Err::<String, SignError>(SignError::KeyDecodeError),
        r matches Ok(s) ==> base64_decoded(s@) == Some(hmac_sha256(base64_decoded(secret@)->Some_0, encode_utf8(data@))),
{
    let key = match decode_base64(secret) {
        Ok(key) => key,
        Err(_) => {
            return Err(SignError::KeyDecodeError);
        },
    };
    let tag = match hmac_sha256_tag(key.as_slice(), data.as_bytes()) {
        Ok(tag) => tag,
        Err(_) => {
            return Err(SignError::HmacInitError);
        },
    };
    Ok(encode_base64(tag.as_slice()))
}

/// Builds `SharedKey {account}:{signature}`.
pub fn authorization_header(account: &str, signature: &str) -> (r: String)
    ensures
        r@ == token_text(account@, signature@),
{
    let mut r = String::from_str("SharedKey ");
    r.append(account);
    r.append(":");
    r.append(signature);
    r
}

/// Signs `string_to_sign` for `account` with the base64 shared key `key` and
/// returns the authorization token.
pub fn sign(string_to_sign: &str, key: &str, account: &str) -> (r: Result<String, SignError>)
    ensures
        match authorization_token(string_to_sign@, key@, account@) {
            Some(token) => r matches Ok(t) && t@ == token,
            None => r == Err::<String, SignError>(SignError::KeyDecodeError),
        },
        (exists|i: int| 0 <= i < key@.len() && !is_base64_symbol(#[trigger] key@[i])) ==> r
            == Err::<String, SignError>(SignError::KeyDecodeError),
{
    match hmac_256(string_to_sign, key) {
        Ok(signature) => Ok(authorization_header(account, signature.as_str())),
        Err(e) => Err(e),
    }
}

/// Signing is a function of its inputs: the same string to sign, key and
/// account always give the same outcome.
pub proof fn lemma_sign_deterministic(
    data1: Seq<char>,
    key1: Seq<char>,
    account1: Seq<char>,
    data2: Seq<char>,
    key2: Seq<char>,
    account2: Seq<char>,
)
    requires
        data1 == data2,
        key1 == key2,
        account1 == account2,
    ensures
        authorization_token(data1, key1, account1) == authorization_token(data2, key2, account2),
{
}

} // verus!
