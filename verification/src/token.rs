//! The header and the claims of a token, and the text that is signed.

use crate::auth::{TokenAssets, TokenAssetsView};
use crate::clock::unix_seconds;
use crate::encoding::{
    base64url, encodable_len, encode_as_b64, encoded_len, is_base64url, join_with_dot,
    lemma_utf8_len, utf8,
};
use crate::error::{ClockFailure, EncodeFailure, Error};
use crate::json::{decimal, json_string, push_decimal, quote};
use crate::signing::Algorithm;
use std::time::{SystemTime, SystemTimeError};
use vstd::prelude::*;

verus! {

/// The number of seconds in an hour: how long a token stays valid.
pub const ONE_HOUR: u64 = 3600;

/// The type that every header declares.
pub const TYP: &'static str = "JWT";

/// What a header holds besides its type, which is always `TYP`.
pub struct HeaderView {
    pub alg: Algorithm,
    pub kid: Seq<char>,
    pub id: Seq<char>,
}

/// What a set of claims holds.
pub struct ClaimsView {
    pub iss: Seq<char>,
    pub iat: nat,
    pub exp: nat,
    pub sub: Seq<char>,
}

/// What a token holds before it is encoded.
pub struct TokenView {
    pub header: HeaderView,
    pub claims: ClaimsView,
}

/// The header that belongs to a set of credentials.
pub open spec fn header_of(assets: TokenAssetsView) -> HeaderView {
    HeaderView {
        alg: Algorithm::ES256,
        kid: assets.key_id,
        id: assets.team_id + seq!['.'] + assets.service_id,
    }
}

/// The claims that belong to a set of credentials when issued at `iat`
/// seconds after the Unix epoch.
pub open spec fn claims_of(assets: TokenAssetsView, iat: nat) -> ClaimsView {
    ClaimsView {
        iss: assets.team_id,
        iat,
        exp: (iat + ONE_HOUR) as nat,
        sub: assets.service_id,
    }
}

/// The token that belongs to a set of credentials when issued at `iat`.
pub open spec fn token_of(assets: TokenAssetsView, iat: nat) -> TokenView {
    TokenView { header: header_of(assets), claims: claims_of(assets, iat) }
}

/// The claims for each reading of the clock: those issued at the reading, or
/// a clock failure when the reading is an error or leaves no room for the
/// expiry in 64 bits.
pub open spec fn claims_at(assets: TokenAssetsView, reading: Result<u64, SystemTimeError>)
    -> Result<ClaimsView, Error> {
    match reading {
        Ok(secs) => if secs + ONE_HOUR <= u64::MAX {
            Ok(claims_of(assets, secs as nat))
        } else {
            Err(Error::SystemTimeError(ClockFailure::ExpiryOutOfRange))
        },
        Err(e) => Err(Error::SystemTimeError(ClockFailure::BeforeEpoch(e))),
    }
}

/// The token for each reading of the clock.
pub open spec fn token_at(assets: TokenAssetsView, reading: Result<u64, SystemTimeError>)
    -> Result<TokenView, Error> {
    match claims_at(assets, reading) {
        Ok(claims) => Ok(TokenView { header: header_of(assets), claims }),
        Err(e) => Err(e),
    }
}

/// The layout of a header document around the JSON values of its key
/// identifier and its id.
pub open spec fn header_layout(alg: Algorithm, kid_json: Seq<char>, id_json: Seq<char>) -> Seq<
    char,
> {
    "{\"typ\":\""@ + TYP@ + "\",\"alg\":\""@ + alg.name() + "\",\"kid\":"@ + kid_json
        + ",\"id\":"@ + id_json + "}"@
}

/// The layout of a claims document around the JSON values of its issuer and
/// its subject, and its two times.
pub open spec fn claims_layout(iss_json: Seq<char>, iat: nat, exp: nat, sub_json: Seq<char>)
    -> Seq<char> {
    "{\"iss\":"@ + iss_json + ",\"iat\":"@ + decimal(iat) + ",\"exp\":"@ + decimal(exp)
        + ",\"sub\":"@ + sub_json + "}"@
}

/// The JSON document of a header.
pub open spec fn header_json(header: HeaderView) -> Seq<char> {
    header_layout(header.alg, json_string(header.kid), json_string(header.id))
}

/// The JSON document of a set of claims.
pub open spec fn claims_json(claims: ClaimsView) -> Seq<char> {
    claims_layout(json_string(claims.iss), claims.iat, claims.exp, json_string(claims.sub))
}

/// The first segment of a token: its header document, encoded.
pub open spec fn header_segment(header: HeaderView) -> Seq<char> {
    base64url(utf8(header_json(header)))
}

/// The second segment of a token: its claims document, encoded.
pub open spec fn claims_segment(claims: ClaimsView) -> Seq<char> {
    base64url(utf8(claims_json(claims)))
}

/// Whether both documents of a token are short enough for the lengths of
/// their encodings to fit in `usize`.
pub open spec fn encodable(token: TokenView) -> bool {
    &&& encodable_len(utf8(header_json(token.header)).len())
    &&& encodable_len(utf8(claims_json(token.claims)).len())
}

/// The text that is signed: the two encoded documents, each encoded on its
/// own, joined by a dot.
pub open spec fn signing_input(token: TokenView) -> Seq<char> {
    header_segment(token.header) + seq!['.'] + claims_segment(token.claims)
}

/// The header of a token.
#[derive(Debug)]
pub struct Header {
    alg: Algorithm,
    kid: String,
    id: String,
}

impl View for Header {
    type V = HeaderView;

    closed spec fn view(&self) -> HeaderView {
        HeaderView { alg: self.alg, kid: self.kid@, id: self.id@ }
    }
}

impl Header {
    /// A header for ES256 with the given key identifier and id.
    pub fn new(kid: &str, id: &str) -> (header: Self)
        ensures
            header@ == (HeaderView { alg: Algorithm::ES256, kid: kid@, id: id@ }),
    {
        Self { alg: Algorithm::ES256, kid: kid.to_owned(), id: id.to_owned() }
    }

    /// The header of the tokens that `token_assets` mints: its id is the team
    /// and the service, joined by a dot.
    pub fn from_token_assets(token_assets: &TokenAssets) -> (header: Self)
        ensures
            header@ == header_of(token_assets@),
    {
        let id = join_with_dot(token_assets.team_id().to_owned(), token_assets.service_id());
        Header::new(token_assets.key_id(), id.as_str())
    }

    /// Lays out the header document around two JSON values.
    pub fn document(alg: Algorithm, kid_json: &str, id_json: &str) -> (doc: String)
        ensures
            doc@ == header_layout(alg, kid_json@, id_json@),
    {
        let mut doc = "{\"typ\":\"".to_owned();
        doc.append(TYP);
        doc.append("\",\"alg\":\"");
        doc.append(alg.as_str());
        doc.append("\",\"kid\":");
        doc.append(kid_json);
        doc.append(",\"id\":");
        doc.append(id_json);
        doc.append("}");
        doc
    }

    /// Serializes the header as a JSON document of its own.
    ///
    /// The result is the document of the header; no header makes the
    /// serializer fail.
    pub fn to_json(&self) -> (res: Result<String, Error>)
        ensures
            res matches Ok(doc) && doc@ == header_json(self@),
    {
        let kid_json = quote(self.kid.as_str())?;
        let id_json = quote(self.id.as_str())?;
        Ok(Header::document(self.alg, kid_json.as_str(), id_json.as_str()))
    }

    /// The type of the token, which is always `TYP`.
    pub fn typ(&self) -> (text: &'static str)
        ensures
            text@ == TYP@,
    {
        TYP
    }

    /// The signature algorithm.
    pub fn alg(&self) -> (alg: Algorithm)
        ensures
            alg == self@.alg,
    {
        self.alg
    }

    /// The identifier of the key that signs.
    pub fn kid(&self) -> (text: &str)
        ensures
            text@ == self@.kid,
    {
        self.kid.as_str()
    }

    /// The team and the service, joined by a dot.
    pub fn id(&self) -> (text: &str)
        ensures
            text@ == self@.id,
    {
        self.id.as_str()
    }
}

/// The claims of a token.
#[derive(Debug)]
pub struct Claims {
    iss: String,
    iat: u64,
    exp: u64,
    sub: String,
}

impl View for Claims {
    type V = ClaimsView;

    closed spec fn view(&self) -> ClaimsView {
        ClaimsView { iss: self.iss@, iat: self.iat as nat, exp: self.exp as nat, sub: self.sub@ }
    }
}

impl Claims {
    /// Claims expire one hour after they were issued.
    #[verifier::type_invariant]
    spec fn expires_after_one_hour(self) -> bool {
        self.exp == self.iat + ONE_HOUR
    }

    /// The claims of `token_assets` for a reading of the clock, in whole
    /// seconds since the Unix epoch.
    ///
    /// A reading that leaves room for the expiry gives the claims issued at
    /// that second. A reading that is an error, or one too late for the expiry
    /// to fit in 64 bits, gives a clock failure.
    pub fn from_reading(token_assets: &TokenAssets, reading: Result<u64, SystemTimeError>) -> (res:
        Result<Self, Error>)
        ensures
            match res {
                Ok(claims) => claims_at(token_assets@, reading) == Ok::<ClaimsView, Error>(claims@),
                Err(e) => claims_at(token_assets@, reading) == Err::<ClaimsView, Error>(e),
            },
    {
        match reading {
            Ok(iat) => {
                if iat <= u64::MAX - ONE_HOUR {
                    Ok(
                        Self {
                            iss: token_assets.team_id().to_owned(),
                            iat,
                            exp: iat + ONE_HOUR,
                            sub: token_assets.service_id().to_owned(),
                        },
                    )
                } else {
                    Err(Error::SystemTimeError(ClockFailure::ExpiryOutOfRange))
                }
            },
            Err(e) => Err(Error::from(e)),
        }
    }

    /// The claims of `token_assets`, issued at the present time of the system
    /// clock.
    ///
    /// Claims that are returned are those of the credentials at their own
    /// time of issue; a failure is a clock failure.
    pub fn from_token_assets(token_assets: &TokenAssets) -> (res: Result<Self, Error>)
        ensures
            match res {
                Ok(claims) => {
                    &&& claims@ == claims_of(token_assets@, claims@.iat)
                    &&& claims@.exp <= u64::MAX
                },
                Err(e) => e is SystemTimeError,
            },
    {
        let now = SystemTime::now();
        Claims::from_reading(token_assets, unix_seconds(&now))
    }

    /// Lays out the claims document around two JSON values and two times.
    pub fn document(iss_json: &str, iat: u64, exp: u64, sub_json: &str) -> (doc: String)
        ensures
            doc@ == claims_layout(iss_json@, iat as nat, exp as nat, sub_json@),
    {
        let mut doc = "{\"iss\":".to_owned();
        doc.append(iss_json);
        doc.append(",\"iat\":");
        push_decimal(&mut doc, iat);
        doc.append(",\"exp\":");
        push_decimal(&mut doc, exp);
        doc.append(",\"sub\":");
        doc.append(sub_json);
        doc.append("}");
        doc
    }

    /// Serializes the claims as a JSON document of their own.
    ///
    /// The result is the document of the claims; no claims make the
    /// serializer fail.
    pub fn to_json(&self) -> (res: Result<String, Error>)
        ensures
            res matches Ok(doc) && doc@ == claims_json(self@),
    {
        let iss_json = quote(self.iss.as_str())?;
        let sub_json = quote(self.sub.as_str())?;
        Ok(Claims::document(iss_json.as_str(), self.iat, self.exp, sub_json.as_str()))
    }

    /// The issuer: the team.
    pub fn iss(&self) -> (text: &str)
        ensures
            text@ == self@.iss,
    {
        self.iss.as_str()
    }

    /// The time of issue, in seconds since the Unix epoch. It lies exactly one
    /// hour before the expiry.
    pub fn iat(&self) -> (secs: u64)
        ensures
            secs == self@.iat,
            self@.exp - self@.iat == ONE_HOUR,
    {
        proof {
            use_type_invariant(self);
        }
        self.iat
    }

    /// The expiry, in seconds since the Unix epoch. It lies exactly one hour
    /// after the time of issue.
    pub fn exp(&self) -> (secs: u64)
        ensures
            secs == self@.exp,
            self@.exp - self@.iat == ONE_HOUR,
    {
        proof {
            use_type_invariant(self);
        }
        self.exp
    }

    /// The subject: the service.
    pub fn sub(&self) -> (text: &str)
        ensures
            text@ == self@.sub,
    {
        self.sub.as_str()
    }
}

/// A header and its claims, before they are encoded.
#[derive(Debug)]
pub struct Token {
    header: Header,
    claims: Claims,
}

impl View for Token {
    type V = TokenView;

    closed spec fn view(&self) -> TokenView {
        TokenView { header: self.header@, claims: self.claims@ }
    }
}

impl Token {
    /// The token of `token_assets` for a reading of the clock, in whole
    /// seconds since the Unix epoch.
    ///
    /// A reading that leaves room for the expiry gives the token issued at
    /// that second. A reading that is an error, or one too late for the expiry
    /// to fit in 64 bits, gives a clock failure.
    pub fn from_reading(token_assets: &TokenAssets, reading: Result<u64, SystemTimeError>) -> (res:
        Result<Self, Error>)
        ensures
            match res {
                Ok(token) => token_at(token_assets@, reading) == Ok::<TokenView, Error>(token@),
                Err(e) => token_at(token_assets@, reading) == Err::<TokenView, Error>(e),
            },
    {
        Token::with_claims(token_assets, Claims::from_reading(token_assets, reading))
    }

    /// The token of `token_assets`, issued at the present time of the system
    /// clock.
    ///
    /// A token that is returned is that of the credentials at its own time of
    /// issue; a failure is a clock failure.
    pub fn from_token_assets(token_assets: &TokenAssets) -> (res: Result<Self, Error>)
        ensures
            match res {
                Ok(token) => {
                    &&& token@ == token_of(token_assets@, token@.claims.iat)
                    &&& token@.claims.exp <= u64::MAX
                },
                Err(e) => e is SystemTimeError,
            },
    {
        Token::with_claims(token_assets, Claims::from_token_assets(token_assets))
    }

    /// The token of `token_assets` around claims that were made, or the
    /// failure to make them.
    ///
    /// Claims get the header of the credentials beside them. A failure is
    /// handed on as it is.
    pub fn with_claims(token_assets: &TokenAssets, claims: Result<Claims, Error>) -> (res: Result<
        Self,
        Error,
    >)
        ensures
            match claims {
                Ok(made) => res matches Ok(token) && token@ == (TokenView {
                    header: header_of(token_assets@),
                    claims: made@,
                }),
                Err(e) => res == Err::<Self, Error>(e),
            },
    {
        match claims {
            Ok(claims) => Ok(Self { header: Header::from_token_assets(token_assets), claims }),
            Err(e) => Err(e),
        }
    }

    /// The text to sign: the header and the claims, each serialized and
    /// encoded on its own, joined by a dot.
    ///
    /// The text is given exactly when both documents are short enough to
    /// encode; a document that is too long is a failure to serialize. Each of
    /// the two segments is as long as the bytes of its document make it, and
    /// neither is empty.
    pub fn signing_input(&self) -> (res: Result<String, Error>)
        ensures
            match res {
                Ok(text) => {
                    &&& encodable(self@)
                    &&& text@ == signing_input(self@)
                    &&& is_base64url(header_segment(self@.header))
                    &&& is_base64url(claims_segment(self@.claims))
                    &&& header_segment(self@.header).len() == encoded_len(
                        utf8(header_json(self@.header)).len(),
                    )
                    &&& claims_segment(self@.claims).len() == encoded_len(
                        utf8(claims_json(self@.claims)).len(),
                    )
                    &&& header_segment(self@.header).len() > 0
                    &&& claims_segment(self@.claims).len() > 0
                },
                Err(e) => {
                    &&& !encodable(self@)
                    &&& e == Error::SerdeJsonError(EncodeFailure::Oversized)
                },
            },
    {
        proof {
            lemma_documents_are_not_empty(self@);
        }
        let header_json = self.header.to_json()?;
        let header_chars = encode_as_b64(header_json.as_str())?;
        let claims_json = self.claims.to_json()?;
        let claims_chars = encode_as_b64(claims_json.as_str())?;
        Ok(join_with_dot(header_chars, claims_chars.as_str()))
    }

    /// The header.
    pub fn header(&self) -> (header: &Header)
        ensures
            header@ == self@.header,
    {
        &self.header
    }

    /// The claims.
    pub fn claims(&self) -> (claims: &Claims)
        ensures
            claims@ == self@.claims,
    {
        &self.claims
    }
}

/// Neither document of a token is empty, in characters or in bytes: each
/// holds at least its braces.
pub proof fn lemma_documents_are_not_empty(token: TokenView)
    ensures
        header_json(token.header).len() > 0,
        claims_json(token.claims).len() > 0,
        utf8(header_json(token.header)).len() > 0,
        utf8(claims_json(token.claims)).len() > 0,
{
    reveal_strlit("}");
    lemma_utf8_len(header_json(token.header));
    lemma_utf8_len(claims_json(token.claims));
}

/// The header document of a set of credentials, written out: the type, the
/// algorithm, the key identifier, and the team and the service joined by a
/// dot, in this order and with nothing else.
pub proof fn lemma_header_document(assets: TokenAssetsView)
    ensures
        header_json(header_of(assets)) == "{\"typ\":\"JWT\",\"alg\":\"ES256\",\"kid\":"@
            + json_string(assets.key_id) + ",\"id\":"@ + json_string(
            assets.team_id + seq!['.'] + assets.service_id,
        ) + "}"@,
{
    reveal_strlit("{\"typ\":\"");
    reveal_strlit("JWT");
    reveal_strlit("\",\"alg\":\"");
    reveal_strlit("ES256");
    reveal_strlit("\",\"kid\":");
    reveal_strlit("{\"typ\":\"JWT\",\"alg\":\"ES256\",\"kid\":");
    assert("{\"typ\":\""@ + TYP@ + "\",\"alg\":\""@ + Algorithm::ES256.name() + "\",\"kid\":"@
        == "{\"typ\":\"JWT\",\"alg\":\"ES256\",\"kid\":"@);
}

/// The claims document of a set of credentials, written out: the team as
/// issuer, the time of issue, the expiry one hour later, and the service as
/// subject, in this order and with nothing else.
pub proof fn lemma_claims_document(assets: TokenAssetsView, iat: nat)
    ensures
        claims_json(claims_of(assets, iat)) == "{\"iss\":"@ + json_string(assets.team_id)
            + ",\"iat\":"@ + decimal(iat) + ",\"exp\":"@ + decimal(iat + 3600) + ",\"sub\":"@
            + json_string(assets.service_id) + "}"@,
{
}

/// Claims expire exactly one hour after they were issued, whatever the
/// credentials and the time of issue.
pub proof fn lemma_expiry_one_hour_after_issue(assets: TokenAssetsView, iat: nat)
    ensures
        claims_of(assets, iat).exp - claims_of(assets, iat).iat == 3600,
        token_of(assets, iat).claims.exp - token_of(assets, iat).claims.iat == 3600,
{
}

/// Two tokens of the same credentials have the same header and the same
/// first segment, the same issuer and subject, and differ in nothing but
/// their two times. Issued in the same second they are the same token, with
/// the same text to sign.
pub proof fn lemma_tokens_differ_only_in_time(assets: TokenAssetsView, first: nat, second: nat)
    ensures
        token_of(assets, first).header == token_of(assets, second).header,
        header_segment(token_of(assets, first).header) == header_segment(
            token_of(assets, second).header,
        ),
        token_of(assets, second).claims == (ClaimsView {
            iat: second,
            exp: (second + ONE_HOUR) as nat,
            ..token_of(assets, first).claims
        }),
        first == second ==> token_of(assets, first) == token_of(assets, second),
        first == second ==> signing_input(token_of(assets, first)) == signing_input(
            token_of(assets, second),
        ),
{
}

} // verus!
