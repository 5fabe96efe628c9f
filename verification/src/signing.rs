//! The signature over a token's first two segments.

use crate::encoding::{encoded_len, is_base64url, is_encoding_of_len, join_with_dot, utf8};
use crate::error::Error;
use jsonwebtoken::errors::Error as JwtError;
use jsonwebtoken::EncodingKey;
use vstd::prelude::*;

verus! {

/// A private key as `jsonwebtoken` holds it for signing, carried through
/// untouched.
#[verifier::external_type_specification]
#[verifier::external_body]
pub struct ExEncodingKey(EncodingKey);

/// The signature algorithms that the platform takes: ECDSA over P-256 with
/// SHA-256, and no other.
#[derive(Clone, Copy, Debug, PartialEq, Eq, Structural)]
pub enum Algorithm {
    ES256,
}

impl Algorithm {
    /// The identifier that a header carries for the algorithm.
    pub open spec fn name(self) -> Seq<char> {
        match self {
            Algorithm::ES256 => "ES256"@,
        }
    }

    /// The length of a signature in bytes: two numbers of 32 bytes each.
    pub open spec fn signature_bytes(self) -> nat {
        match self {
            Algorithm::ES256 => 64,
        }
    }

    /// The length of a signature as unpadded base64url text: 86 characters.
    pub open spec fn signature_len(self) -> nat {
        encoded_len(self.signature_bytes())
    }

    /// The identifier that a header carries for the algorithm.
    pub fn as_str(self) -> (text: &'static str)
        ensures
            text@ == self.name(),
    {
        match self {
            Algorithm::ES256 => "ES256",
        }
    }
}

/// The key that `jsonwebtoken` takes from `pem`, if it takes one: the contents
/// of a PEM block that is labelled as a PKCS#8 private key and names an
/// elliptic-curve key. The curve and the key itself are looked at only when a
/// signature is made.
pub uninterp spec fn ec_pem_key(pem: Seq<u8>) -> Option<Seq<u8>>;

/// The bytes that a key holds.
pub uninterp spec fn key_contents(key: EncodingKey) -> Seq<u8>;

/// Whether `signature` is the unpadded base64url text of an ECDSA signature
/// over P-256 with SHA-256 of `message`, one that verifies under the public
/// key that belongs to the private key `key`, a key in PKCS#8.
pub uninterp spec fn es256_verifies(message: Seq<u8>, key: Seq<u8>, signature: Seq<char>) -> bool;

/// Whether `pem` is taken as an elliptic-curve private key.
pub open spec fn ec_pem_accepted(pem: Seq<u8>) -> bool {
    ec_pem_key(pem) is Some
}

/// Whether `signature` is a signature of `message` under the key in `pem`:
/// the encoding of as many bytes as the algorithm gives, which verifies under
/// the key's public key.
pub open spec fn is_signature(
    message: Seq<char>,
    pem: Seq<u8>,
    alg: Algorithm,
    signature: Seq<char>,
) -> bool {
    &&& is_base64url(signature)
    &&& is_encoding_of_len(signature, alg.signature_bytes())
    &&& signature.len() == alg.signature_len()
    &&& ec_pem_key(pem) matches Some(key) && es256_verifies(utf8(message), key, signature)
}

/// `EncodingKey::from_ec_pem` of `jsonwebtoken`.
///
/// Whether the bytes are taken, and the key that is taken from them, are a
/// function of the bytes alone: the key holds the contents of the PEM block.
/// Nothing is claimed of the error.
#[verifier::external_body]
fn ec_key_from_pem(pem: &[u8]) -> (res: Result<EncodingKey, JwtError>)
    ensures
        res matches Ok(key) ==> ec_pem_key(pem@) == Some(key_contents(key)),
        res is Err ==> ec_pem_key(pem@) is None,
{
    EncodingKey::from_ec_pem(pem)
}

/// `jsonwebtoken::crypto::sign`.
///
/// The signature depends on fresh randomness, and the call may fail: on a key
/// that is none of the curve, or when no randomness is to be had. A signature
/// that is returned is the unpadded base64url encoding, by the engine that
/// this library encodes with, of the algorithm's fixed number of bytes; so it
/// has that shape and the length that belongs to it. And it is a signature of
/// `message` that verifies under the public key of the key given.
#[verifier::external_body]
fn sign_bytes(message: &[u8], key: &EncodingKey, alg: Algorithm) -> (res: Result<
    String,
    JwtError,
>)
    ensures
        res matches Ok(signature) ==> is_encoding_of_len(signature@, alg.signature_bytes()),
        res matches Ok(signature) ==> is_base64url(signature@),
        res matches Ok(signature) ==> signature@.len() == alg.signature_len(),
        res matches Ok(signature) ==> es256_verifies(message@, key_contents(*key), signature@),
{
    let algorithm = match alg {
        Algorithm::ES256 => jsonwebtoken::Algorithm::ES256,
    };
    jsonwebtoken::crypto::sign(message, key, algorithm)
}

/// Signs `message` with the private key that `pem` holds.
///
/// Bytes that are not taken as a key give an error. For bytes that are taken
/// the signing library decides; what it returns is a signature of `message`
/// under that key.
pub fn sign(message: &str, pem: &[u8], alg: Algorithm) -> (res: Result<String, JwtError>)
    ensures
        !ec_pem_accepted(pem@) ==> res is Err,
        res matches Ok(signature) ==> is_signature(message@, pem@, alg, signature@),
{
    match ec_key_from_pem(pem) {
        Ok(key) => sign_bytes(message.as_bytes(), &key, alg),
        Err(e) => Err(e),
    }
}

/// What `append_signature` returns for each outcome of signing.
pub open spec fn with_signature(signing_input: Seq<char>, outcome: Result<String, JwtError>)
    -> Result<Seq<char>, Error> {
    match outcome {
        Ok(signature) => Ok(signing_input + seq!['.'] + signature@),
        Err(e) => Err(Error::JsonWebTokenError(e)),
    }
}

/// Joins the signed text and its signature with a dot, or files the failure
/// to sign under this library's error type.
pub fn append_signature(signing_input: String, outcome: Result<String, JwtError>) -> (res: Result<
    String,
    Error,
>)
    ensures
        match res {
            Ok(token) => with_signature(signing_input@, outcome) == Ok::<Seq<char>, Error>(token@),
            Err(e) => with_signature(signing_input@, outcome) == Err::<Seq<char>, Error>(e),
        },
{
    match outcome {
        Ok(signature) => Ok(join_with_dot(signing_input, signature.as_str())),
        Err(e) => Err(Error::from(e)),
    }
}

} // verus!
