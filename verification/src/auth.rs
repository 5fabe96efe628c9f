//! A service's credentials, and the tokens that are minted from them.

use crate::encoding::{is_base64url, is_encoding, lemma_three_segments, segments, utf8};
use crate::error::{EncodeFailure, Error};
use crate::signing::{
    append_signature, ec_pem_accepted, ec_pem_key, es256_verifies, is_signature, sign,
};
use crate::token::{
    claims_segment, encodable, header_of, header_segment, signing_input, token_of, Token,
    TokenView, ONE_HOUR,
};
use vstd::prelude::*;
use vstd::slice::slice_to_vec;

verus! {

/// What a set of credentials holds.
pub struct TokenAssetsView {
    pub key_id: Seq<char>,
    pub service_id: Seq<char>,
    pub team_id: Seq<char>,
    pub private_key: Seq<u8>,
}

/// The text of a token with its signature.
pub open spec fn signed(token: TokenView, signature: Seq<char>) -> Seq<char> {
    signing_input(token) + seq!['.'] + signature
}

/// Whether `text` is made of exactly three segments, each the unpadded
/// base64url encoding of some bytes and none of them empty.
pub open spec fn is_token_text(text: Seq<char>) -> bool {
    &&& segments(text).len() == 3
    &&& is_encoding(segments(text)[0])
    &&& is_encoding(segments(text)[1])
    &&& is_encoding(segments(text)[2])
    &&& is_base64url(segments(text)[0])
    &&& is_base64url(segments(text)[1])
    &&& is_base64url(segments(text)[2])
    &&& segments(text)[0].len() > 0
    &&& segments(text)[1].len() > 0
    &&& segments(text)[2].len() > 0
}

/// What encoding and signing `token` with the key in `pem` gives.
///
/// A text is the token's two segments and a third, joined by dots, and the
/// third is a signature, under the key, of the first two as they stand joined
/// by their dot. A failure is that of a document too long to encode, exactly
/// when there is one, and a failure to sign otherwise.
pub open spec fn is_minted(token: TokenView, pem: Seq<u8>, res: Result<String, Error>) -> bool {
    match res {
        Ok(text) => {
            &&& encodable(token)
            &&& is_token_text(text@)
            &&& segments(text@)[0] == header_segment(token.header)
            &&& segments(text@)[1] == claims_segment(token.claims)
            &&& is_signature(signing_input(token), pem, token.header.alg, segments(text@)[2])
            &&& text@ == signed(token, segments(text@)[2])
        },
        Err(e) => if encodable(token) {
            e is JsonWebTokenError
        } else {
            e == Error::SerdeJsonError(EncodeFailure::Oversized)
        },
    }
}

/// The identifiers and the private key that a service mints its tokens from.
#[derive(Debug)]
pub struct TokenAssets {
    key_id: String,
    service_id: String,
    team_id: String,
    private_key: Vec<u8>,
}

impl View for TokenAssets {
    type V = TokenAssetsView;

    closed spec fn view(&self) -> TokenAssetsView {
        TokenAssetsView {
            key_id: self.key_id@,
            service_id: self.service_id@,
            team_id: self.team_id@,
            private_key: self.private_key@,
        }
    }
}

impl TokenAssets {
    /// Keeps the four values as they are given. The private key is not looked
    /// at before a token is signed.
    pub fn new(key_id: &str, service_id: &str, team_id: &str, private_key: &[u8]) -> (assets: Self)
        ensures
            assets@ == (TokenAssetsView {
                key_id: key_id@,
                service_id: service_id@,
                team_id: team_id@,
                private_key: private_key@,
            }),
    {
        Self {
            key_id: key_id.to_owned(),
            service_id: service_id.to_owned(),
            team_id: team_id.to_owned(),
            private_key: slice_to_vec(private_key),
        }
    }

    /// The identifier of the private key.
    pub fn key_id(&self) -> (text: &str)
        ensures
            text@ == self@.key_id,
    {
        self.key_id.as_str()
    }

    /// The identifier of the service.
    pub fn service_id(&self) -> (text: &str)
        ensures
            text@ == self@.service_id,
    {
        self.service_id.as_str()
    }

    /// The identifier of the team.
    pub fn team_id(&self) -> (text: &str)
        ensures
            text@ == self@.team_id,
    {
        self.team_id.as_str()
    }

    /// The bytes of the private key, as they were given.
    pub fn private_key(&self) -> (bytes: &[u8])
        ensures
            bytes@ == self@.private_key,
    {
        self.private_key.as_slice()
    }
}

/// Encodes `token` and signs it with the private key in `private_key`.
///
/// A result is the two encoded documents of the token and a signature, three
/// segments of unpadded base64url text joined by dots, and the signature
/// verifies over the first two under the key's public key. Documents too long
/// to encode are a failure to serialize. Otherwise bytes that are not taken
/// as a key are a failure to sign, and for bytes that are taken the signing
/// library decides: its signature completes the token, its refusal is a
/// failure to sign. Nothing is returned with a failure.
pub fn encode_and_sign(token: &Token, private_key: &[u8]) -> (res: Result<String, Error>)
    ensures
        is_minted(token@, private_key@, res),
        !ec_pem_accepted(private_key@) ==> res is Err,
        res matches Ok(text) ==> segments(text@)[2].len() == 86,
{
    let token_chars = token.signing_input()?;
    let outcome = sign(token_chars.as_str(), private_key, token.header().alg());
    let ghost signature = match &outcome {
        Ok(s) => s@,
        Err(_) => Seq::empty(),
    };
    let res = append_signature(token_chars, outcome);
    proof {
        if res is Ok {
            lemma_three_segments(
                header_segment(token@.header),
                claims_segment(token@.claims),
                signature,
            );
        }
    }
    res
}

/// Mints the token that was built for `token_assets`, or hands on the failure
/// to build it.
///
/// A token is encoded and signed with the private key of the credentials, as
/// `encode_and_sign` does. A failure to build is returned as it is: a clock
/// failure stays a clock failure.
pub fn mint(token_assets: &TokenAssets, built: Result<Token, Error>) -> (res: Result<
    String,
    Error,
>)
    ensures
        match built {
            Ok(token) => is_minted(token@, token_assets@.private_key, res),
            Err(e) => res == Err::<String, Error>(e),
        },
{
    match built {
        Ok(token) => encode_and_sign(&token, token_assets.private_key()),
        Err(e) => Err(e),
    }
}

/// Mints a token for `token_assets`, issued at the present time of the system
/// clock and valid for one hour.
///
/// The result is a clock failure, or it is what encoding and signing gives for
/// the token of the credentials at some time of issue whose expiry fits in 64
/// bits. So a text is three segments of unpadded base64url text, none empty:
/// the encoded header, the encoded claims, and a signature over the two that
/// verifies under the public key of the credentials' key. Bytes that are not
/// taken as a key give an error. Whether the clock fails, and whether the
/// signing library signs with a key it was given, is theirs to decide: `mint`
/// and `Token::from_reading` say what follows from each of their answers.
pub fn generate_auth_token(token_assets: &TokenAssets) -> (res: Result<String, Error>)
    ensures
        res matches Err(Error::SystemTimeError(_)) || exists|iat: nat|
            {
                &&& iat + ONE_HOUR <= u64::MAX
                &&& is_minted(#[trigger] token_of(token_assets@, iat), token_assets@.private_key, res)
            },
        res matches Ok(text) ==> {
            &&& is_token_text(text@)
            &&& segments(text@)[0] == header_segment(header_of(token_assets@))
            &&& segments(text@)[2].len() == 86
        },
        !ec_pem_accepted(token_assets@.private_key) ==> res is Err,
{
    mint(token_assets, Token::from_token_assets(token_assets))
}

/// The signature of a token that was minted verifies, under the public key of
/// the key it was minted with, over the token's first two segments joined by
/// a dot.
pub proof fn lemma_signature_verifies(token: TokenView, pem: Seq<u8>, res: Result<String, Error>)
    requires
        is_minted(token, pem, res),
        res is Ok,
    ensures
        ec_pem_key(pem) is Some,
        es256_verifies(
            utf8(segments(res->Ok_0@)[0] + seq!['.'] + segments(res->Ok_0@)[1]),
            ec_pem_key(pem)->0,
            segments(res->Ok_0@)[2],
        ),
{
}

/// With bytes that are not taken as a key nothing is minted, and where the
/// documents can be encoded the failure is a failure to sign.
pub proof fn lemma_refused_key_fails_to_sign(
    token: TokenView,
    pem: Seq<u8>,
    res: Result<String, Error>,
)
    requires
        is_minted(token, pem, res),
        !ec_pem_accepted(pem),
    ensures
        res is Err,
        encodable(token) ==> res matches Err(Error::JsonWebTokenError(_)),
{
}

} // verus!
