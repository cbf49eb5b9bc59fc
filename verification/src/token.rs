//! Session tokens: signed claim sets that name a principal.
//!
//! A token is issued at login and presented with later requests, bare or
//! behind the scheme word `Bearer`. Signing and checking are the work of
//! the `jsonwebtoken` crate; what is handed to it and what is made of its
//! answers is decided here.

use vstd::prelude::*;
use vstd::string::*;
use crate::db_structs::{InternalJWT, JWT};
use crate::decimal::{decimal_text, format_id, lemma_id_round_trip, parse_id, parsed_id};
use crate::error::Failure;
use crate::text::{chars_of, trim_bounds, trimmed};

verus! {

/// The claim that holds the role flag.
pub const ROLE_CLAIM: &'static str = "isdoctor";

/// The claim that holds the identifier, as text.
pub const ID_CLAIM: &'static str = "id";

/// The claim that holds the expiry.
pub const EXPIRY_CLAIM: &'static str = "exp";

/// The expiry written into every token. It is never checked.
pub const EXPIRY: usize = 1000000;

/// The error type of the `jsonwebtoken` crate.
#[verifier::external_type_specification]
#[verifier::external_body]
pub struct ExTokenError(jsonwebtoken::errors::Error);

/// The three claims of a decoded token, each as far as it is present with
/// the right type: the role as a boolean, the identifier as a string, the
/// expiry as a non-negative integer.
#[derive(Clone, Debug, PartialEq, Eq)]
pub struct ClaimFields {
    pub isdoctor: Option<bool>,
    pub id: Option<String>,
    pub exp: Option<u64>,
}

impl View for ClaimFields {
    type V = (Option<bool>, Option<Seq<char>>, Option<u64>);

    open spec fn view(&self) -> Self::V {
        (
            self.isdoctor,
            match self.id {
                Some(id) => Some(id@),
                None => None,
            },
            self.exp,
        )
    }
}

/// The token that `jsonwebtoken::encode` makes of a claim set under a
/// secret, or `None` where it fails. The header is the crate's default
/// (HS256); the claims are the object with [`ROLE_CLAIM`], [`ID_CLAIM`] and
/// [`EXPIRY_CLAIM`], in this order.
pub uninterp spec fn signed_token(secret: Seq<u8>, isdoctor: bool, id: Seq<char>, exp: usize) -> Option<Seq<char>>;

/// What `jsonwebtoken::decode` finds in a token under a secret: the role,
/// the identifier and the expiry of the decoded claims, each as far as it
/// is there with its type; or `None` where it rejects the token. It
/// accepts HS256 only, wants the signature to be that of the secret and an
/// expiry to be present, and does not compare the expiry with the clock.
pub uninterp spec fn token_fields(token: Seq<char>, secret: Seq<u8>) -> Option<
    (Option<bool>, Option<Seq<char>>, Option<u64>),
>;

/// Calls `jsonwebtoken::encode` with the default header, the three claims
/// as a JSON object and `secret` as an HMAC key. The result is a function
/// of the claims and the secret, named [`signed_token`]; nothing is
/// claimed about when it succeeds.
#[verifier::external_body]
fn sign_claims(secret: &[u8], claims: &InternalJWT) -> (r: Result<
    String,
    jsonwebtoken::errors::Error,
>)
    ensures
        match r {
            Ok(token) => signed_token(secret@, claims.isdoctor, claims.id@, claims.exp) == Some(
                token@,
            ),
            Err(_) => signed_token(secret@, claims.isdoctor, claims.id@, claims.exp) is None,
        },
{
    let mut object = serde_json::Map::new();
    object.insert(ROLE_CLAIM.to_string(), serde_json::Value::from(claims.isdoctor));
    object.insert(ID_CLAIM.to_string(), serde_json::Value::from(claims.id.as_str()));
    object.insert(EXPIRY_CLAIM.to_string(), serde_json::Value::from(claims.exp));
    let key = jsonwebtoken::EncodingKey::from_secret(secret);
    jsonwebtoken::encode(&jsonwebtoken::Header::default(), &object, &key)
}

/// Calls `jsonwebtoken::decode` with `secret` as an HMAC key and the
/// default validation with the expiry check switched off, and hands out the
/// three claims of the decoded object. With that check off the crate reads
/// the clock, which it expects to stand after 1970, but does not use it, so
/// the result is a function of the token and the secret, named
/// [`token_fields`].
#[verifier::external_body]
fn read_token(token: &str, secret: &[u8]) -> (r: Result<ClaimFields, jsonwebtoken::errors::Error>)
    ensures
        match r {
            Ok(fields) => token_fields(token@, secret@) == Some(fields@),
            Err(_) => token_fields(token@, secret@) is None,
        },
{
    let mut validation = jsonwebtoken::Validation::default();
    validation.validate_exp = false;
    let key = jsonwebtoken::DecodingKey::from_secret(secret);
    let data = jsonwebtoken::decode::<serde_json::Value>(token, &key, &validation)?;
    Ok(ClaimFields {
        isdoctor: data.claims.get(ROLE_CLAIM).and_then(serde_json::Value::as_bool),
        id: data.claims.get(ID_CLAIM).and_then(serde_json::Value::as_str).map(String::from),
        exp: data.claims.get(EXPIRY_CLAIM).and_then(serde_json::Value::as_u64),
    })
}

/// The scheme word that may stand before a token.
pub open spec fn scheme() -> Seq<char> {
    seq!['B', 'e', 'a', 'r', 'e', 'r']
}

/// `s` without the scheme word, where it begins with it.
pub open spec fn without_scheme(s: Seq<char>) -> Seq<char> {
    if s.len() >= scheme().len() && s.take(scheme().len() as int) == scheme() {
        s.skip(scheme().len() as int)
    } else {
        s
    }
}

/// The token in a raw authorization value: the value without the
/// whitespace around it, without the scheme word if it then begins with
/// it, and without the whitespace around what is left.
pub open spec fn bearer_token(raw: Seq<char>) -> Seq<char> {
    trimmed(without_scheme(trimmed(raw)))
}

/// Takes the token out of a raw authorization value, which is either the
/// bare token or the word `Bearer` and the token, with any whitespace
/// around each.
pub fn extract_token(raw: &str) -> (token: &str)
    ensures
        token@ == bearer_token(raw@),
{
    let chars = chars_of(raw);
    proof {
        assert(chars@.subrange(0, chars@.len() as int) == chars@);
    }
    let (a, b) = trim_bounds(&chars, 0, chars.len());
    let ghost inner = chars@.subrange(a as int, b as int);
    let prefixed = b - a >= 6 && chars[a] == 'B' && chars[a + 1] == 'e' && chars[a + 2] == 'a'
        && chars[a + 3] == 'r' && chars[a + 4] == 'e' && chars[a + 5] == 'r';
    let from: usize = if prefixed { a + 6 } else { a };
    proof {
        if prefixed {
            assert(inner.take(6) =~= scheme());
        }
        assert(chars@.subrange(from as int, b as int) == without_scheme(inner));
    }
    let (c, d) = trim_bounds(&chars, from, b);
    raw.substring_char(c, d)
}

/// A claim set, with the identifier as its characters.
pub struct ClaimsView {
    pub isdoctor: bool,
    pub id: Seq<char>,
    pub exp: usize,
}

impl View for InternalJWT {
    type V = ClaimsView;

    open spec fn view(&self) -> ClaimsView {
        ClaimsView { isdoctor: self.isdoctor, id: self.id@, exp: self.exp }
    }
}

/// The claim set that decoded fields make up: all three must be present
/// with their types, and the expiry must fit the machine's word.
pub open spec fn claims_of(fields: (Option<bool>, Option<Seq<char>>, Option<u64>)) -> Option<ClaimsView> {
    match fields {
        (Some(isdoctor), Some(id), Some(exp)) => if exp <= usize::MAX {
            Some(ClaimsView { isdoctor, id, exp: exp as usize })
        } else {
            None
        },
        _ => None,
    }
}

/// The principal that a claim set names: its role, and the identifier
/// that its text denotes, which must be a decimal number that fits in 64
/// bits.
pub open spec fn principal_of(claims: ClaimsView) -> Option<JWT> {
    match parsed_id(claims.id) {
        Some(id) => Some(JWT { isdoctor: claims.isdoctor, id }),
        None => None,
    }
}

/// The principal of a raw authorization value under a secret: that of the
/// claim set that the token in it decodes to, if it decodes to one.
pub open spec fn verified_principal(secret: Seq<u8>, raw: Seq<char>) -> Option<JWT> {
    match token_fields(bearer_token(raw), secret) {
        Some(fields) => match claims_of(fields) {
            Some(claims) => principal_of(claims),
            None => None,
        },
        None => None,
    }
}

impl ClaimFields {
    /// Makes a claim set of decoded fields, or `None` where one is missing.
    pub fn claims(self) -> (r: Option<InternalJWT>)
        ensures
            match r {
                Some(claims) => claims_of(self@) == Some(claims@),
                None => claims_of(self@) is None,
            },
    {
        match (self.isdoctor, self.id, self.exp) {
            (Some(isdoctor), Some(id), Some(exp)) => {
                if exp > usize::MAX as u64 {
                    None
                } else {
                    Some(InternalJWT { isdoctor, id, exp: exp as usize })
                }
            },
            _ => None,
        }
    }
}

/// Makes a principal of a claim set, or `None` where its identifier is no
/// number.
pub fn principal(claims: &InternalJWT) -> (r: Option<JWT>)
    ensures
        r == principal_of(claims@),
{
    match parse_id(claims.id.as_str()) {
        Some(id) => Some(JWT { isdoctor: claims.isdoctor, id }),
        None => None,
    }
}

/// Verifies a raw authorization value under `secret`. Any failure, be it a
/// malformed token, a wrong signature or an identifier that is no number,
/// gives `None`.
pub fn verify(secret: &[u8], raw: &str) -> (r: Option<JWT>)
    ensures
        r == verified_principal(secret@, raw@),
{
    let token = extract_token(raw);
    match read_token(token, secret) {
        Ok(fields) => match fields.claims() {
            Some(claims) => principal(&claims),
            None => None,
        },
        Err(_) => None,
    }
}

/// The claim set of a principal: its role, its identifier in decimal, and
/// the fixed expiry.
pub open spec fn issued_claims(id: i64, isdoctor: bool) -> ClaimsView {
    ClaimsView { isdoctor, id: decimal_text(id as int), exp: EXPIRY }
}

/// The claims written into the token of a principal.
pub fn claims_for(id: i64, isdoctor: bool) -> (claims: InternalJWT)
    ensures
        claims@ == issued_claims(id, isdoctor),
{
    InternalJWT { isdoctor, id: format_id(id), exp: EXPIRY }
}

/// The token of a principal under a secret, where one can be signed.
pub open spec fn issued_token(secret: Seq<u8>, id: i64, isdoctor: bool) -> Option<Seq<char>> {
    signed_token(secret, isdoctor, decimal_text(id as int), EXPIRY)
}

/// Signs a token for a principal. Fails with [`Failure::Signing`] where the
/// token cannot be encoded, and only then.
pub fn issue(secret: &[u8], id: i64, isdoctor: bool) -> (r: Result<String, Failure>)
    ensures
        match r {
            Ok(token) => issued_token(secret@, id, isdoctor) == Some(token@),
            Err(e) => e == Failure::Signing && issued_token(secret@, id, isdoctor) is None,
        },
{
    let claims = claims_for(id, isdoctor);
    match sign_claims(secret, &claims) {
        Ok(token) => Ok(token),
        Err(_) => Err(Failure::Signing),
    }
}

/// A token names the principal it was issued for. Whenever the token in a
/// raw authorization value decodes to the claims that [`issue`] signs for
/// a principal, verifying the value gives exactly that principal: the same
/// identifier and the same role.
pub proof fn lemma_issued_claims_name_their_principal(
    secret: Seq<u8>,
    raw: Seq<char>,
    id: i64,
    isdoctor: bool,
)
    requires
        token_fields(bearer_token(raw), secret) matches Some(fields) && claims_of(fields) == Some(
            issued_claims(id, isdoctor),
        ),
    ensures
        verified_principal(secret, raw) == Some(JWT { isdoctor, id }),
{
    lemma_id_round_trip(id);
}

/// A claim set names the principal it was made for.
pub proof fn lemma_claims_name_their_principal(id: i64, isdoctor: bool)
    ensures
        principal_of(issued_claims(id, isdoctor)) == Some(JWT { isdoctor, id }),
{
    lemma_id_round_trip(id);
}

/// Verifying is repeatable: two verifications of one value under one
/// secret give the same principal, or both give none.
pub proof fn lemma_verification_is_repeatable(
    secret: Seq<u8>,
    raw: Seq<char>,
    first: Option<JWT>,
    second: Option<JWT>,
)
    requires
        first == verified_principal(secret, raw),
        second == verified_principal(secret, raw),
    ensures
        first == second,
{
}

/// The scheme word and the whitespace around a token do not matter: a
/// value that differs from another only in them verifies alike.
pub proof fn lemma_presentation_does_not_matter(secret: Seq<u8>, bare: Seq<char>, dressed: Seq<char>)
    requires
        bearer_token(dressed) == bearer_token(bare),
    ensures
        verified_principal(secret, dressed) == verified_principal(secret, bare),
{
}

} // verus!
