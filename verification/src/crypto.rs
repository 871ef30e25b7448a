//! Digests and signature verification.
//!
//! Both are computed outside this library. Their results are functions of
//! the arguments alone and are known here only by name.

use crate::hexcode::{hex_decoded, hex_to_bytes, is_hex_text, strip_hex_prefix, without_hex_prefix};
use vstd::prelude::*;
use vstd::utf8::encode_utf8;

verus! {

/// The SHA-256 digest of `data`.
pub uninterp spec fn sha256(data: Seq<u8>) -> Seq<u8>;

/// What verifying `signature` over `data` under the `did:key` identifier
/// `key` yields: `Some(true)` for a good signature, `Some(false)` for a bad
/// one, `None` where the key or the signature cannot be read at all. What
/// "over `data`" means is the curve's affair: a secp256k1 key signs `data`
/// itself, which must be a digest of 32 bytes; a P-256 key signs the
/// SHA-256 digest of `data`, so that under such a key a signature over a
/// digest is one over the digest of that digest.
pub uninterp spec fn signature_check(key: Seq<char>, data: Seq<u8>, signature: Seq<u8>) -> Option<
    bool,
>;

/// Why a signature could not be judged.
#[derive(Clone, Copy, Debug, PartialEq, Eq, Structural)]
pub enum CryptoError {
    /// The signature is not hexadecimal text.
    SignatureEncoding,
    /// The key identifier or the signature bytes are malformed.
    KeyOrSignature,
    /// The signature is not one over the data under the key.
    Mismatch,
}

impl DeepView for CryptoError {
    type V = CryptoError;

    open spec fn deep_view(&self) -> CryptoError {
        *self
    }
}

/// `sha2::Sha256::digest`: the SHA-256 digest of the bytes, which is 32
/// bytes long.
#[verifier::external_body]
pub(crate) fn sha256_digest(data: &[u8]) -> (out: Vec<u8>)
    ensures
        out@ == sha256(data@),
        out@.len() == 32,
{
    <sha2::Sha256 as sha2::Digest>::digest(data).to_vec()
}

/// `rsky_crypto::verify::verify_signature` without options: whether
/// `signature` is a signature over `data` under the `did:key` identifier
/// `key`; an error of the outside function is handed back as `None`.
#[verifier::external_body]
pub(crate) fn check_signature(key: &String, data: &[u8], signature: &[u8]) -> (out: Option<bool>)
    ensures
        out == signature_check(key@, data@, signature@),
{
    rsky_crypto::verify::verify_signature(key, data, signature, None).ok()
}

/// The digest under which a message is signed: the SHA-256 digest of its
/// UTF-8 bytes.
pub open spec fn message_digest(message: Seq<char>) -> Seq<u8> {
    sha256(encode_utf8(message))
}

/// The digest under which `message` is signed.
pub fn digest_message(message: &str) -> (out: Vec<u8>)
    ensures
        out@ == message_digest(message@),
{
    sha256_digest(message.as_bytes())
}

/// The outcome of judging a hexadecimal signature, for a given result of the
/// outside verification of its bytes.
pub open spec fn judged(signature_hex: Seq<char>, checked: Option<bool>) -> Result<
    bool,
    CryptoError,
> {
    if !is_hex_text(encode_utf8(without_hex_prefix(signature_hex))) {
        Err(CryptoError::SignatureEncoding)
    } else {
        match checked {
            Some(good) => Ok(good),
            None => Err(CryptoError::KeyOrSignature),
        }
    }
}

/// The bytes that a hexadecimal signature writes, once an optional `0x` or
/// `0X` is set aside.
pub open spec fn signature_bytes(signature_hex: Seq<char>) -> Seq<u8> {
    hex_decoded(encode_utf8(without_hex_prefix(signature_hex)))
}

/// The outcome of verifying the hexadecimal signature `signature_hex` over
/// `digest` under `key`.
pub open spec fn verification(key: Seq<char>, digest: Seq<u8>, signature_hex: Seq<char>) -> Result<
    bool,
    CryptoError,
> {
    judged(signature_hex, signature_check(key, digest, signature_bytes(signature_hex)))
}

/// Turns the result of the outside verification into the verifier's answer.
pub fn judge(checked: Option<bool>) -> (out: Result<bool, CryptoError>)
    ensures
        out == match checked {
            Some(good) => Ok::<bool, CryptoError>(good),
            None => Err(CryptoError::KeyOrSignature),
        },
{
    match checked {
        Some(good) => Ok(good),
        None => Err(CryptoError::KeyOrSignature),
    }
}

/// The bytes of a signature given in hexadecimal, with or without a leading
/// `0x` or `0X`; `None` where it is no hexadecimal text.
pub fn decode_signature(signature_hex: &str) -> (out: Option<Vec<u8>>)
    ensures
        out is Some <==> is_hex_text(encode_utf8(without_hex_prefix(signature_hex@))),
        out matches Some(bytes) ==> bytes@ == signature_bytes(signature_hex@),
{
    hex_to_bytes(strip_hex_prefix(signature_hex))
}

/// Verifies a signature given in hexadecimal, with or without a leading
/// `0x` or `0X`, over `digest` under the `did:key` identifier `key`.
pub fn verify_signature(key: &String, digest: &Vec<u8>, signature_hex: &str) -> (out: Result<
    bool,
    CryptoError,
>)
    ensures
        out == verification(key@, digest@, signature_hex@),
{
    match decode_signature(signature_hex) {
        None => Err(CryptoError::SignatureEncoding),
        Some(signature) => judge(check_signature(key, digest.as_slice(), signature.as_slice())),
    }
}

} // verus!
