use crate::errors::{AppResult, Kind};
use crate::infra::cognito::{ClaimValue, Claims};
use crate::infra::jwks::{
    claim_pairs_view, claim_view_map, claims_from_pairs, claims_view, jwt_payload_claims,
};
use vstd::prelude::*;

verus! {

/// Signs and checks verification tokens with a shared secret (HS256).
#[derive(Debug)]
pub struct JWT {
    secret_key: String,
}

impl JWT {
    pub fn new(secret_key: String) -> (r: JWT)
        ensures
            r.spec_secret_key() == secret_key@,
    {
        JWT { secret_key }
    }

    pub closed spec fn spec_secret_key(&self) -> Seq<char> {
        self.secret_key@
    }

    pub fn secret_key(&self) -> (r: &str)
        ensures
            r@ == self.spec_secret_key(),
    {
        self.secret_key.as_str()
    }

    /// When a token issued at `iat` and valid for `effective_duration` seconds
    /// expires.
    pub fn expiry(iat: u64, effective_duration: u64) -> (r: u64)
        requires
            iat + effective_duration <= u64::MAX,
        ensures
            r == iat + effective_duration,
    {
        iat + effective_duration
    }
}

/// Text claims as plain values.
pub open spec fn text_pairs_view(pairs: Seq<(String, String)>) -> Seq<(Seq<char>, Seq<char>)> {
    pairs.map_values(|p: (String, String)| (p.0@, p.1@))
}

/// Text claims as plain named claim values.
pub open spec fn text_claims_view(pairs: Seq<(String, String)>) -> Seq<(Seq<char>, Option<Seq<char>>)> {
    pairs.map_values(|p: (String, String)| (p.0@, Some(p.1@)))
}

/// The claims a generated token carries: the text claims keyed by name (the
/// later of two with one name kept), with `exp` set to a value that is not
/// text (the expiry, a number).
pub open spec fn generated_claims(pairs: Seq<(String, String)>) -> Map<Seq<char>, Option<Seq<char>>> {
    claim_view_map(text_claims_view(pairs)).insert("exp"@, None)
}

/// The token that `jsonwebtoken` writes with HS256 and the secret `secret`
/// for a payload that is a JSON object of the text claims with `exp` set to
/// the number `exp`.
pub uninterp spec fn hs256_token(secret: Seq<char>, claims: Seq<(Seq<char>, Seq<char>)>, exp: nat) -> Seq<
    char,
>;

/// Whether a token's HS256 signature checks under the secret `secret`, as
/// `jsonwebtoken` checks it.
pub uninterp spec fn hs256_signature_valid(token: Seq<char>, secret: Seq<char>) -> bool;

/// `jsonwebtoken::encode` with an HS256 header and the secret as key, of a
/// JSON object holding the text claims and `exp`. The claim: it succeeds (an
/// HMAC key matches the HS256 header, a JSON object of text and a number
/// always serialises, and HMAC signing cannot fail); the token is
/// `hs256_token` of the secret, the claims and the expiry; the claims its
/// payload reads back as are the object written; and its signature checks
/// under the secret.
#[verifier::external_body]
fn encode_hs256(claims: &Vec<(String, String)>, exp: u64, secret: &str) -> (r: Result<
    String,
    jsonwebtoken::errors::Error,
>)
    ensures
        r is Ok,
        r matches Ok(t) ==> t@ == hs256_token(secret@, text_pairs_view(claims@), exp as nat),
        r matches Ok(t) ==> claim_view_map(jwt_payload_claims(t@)) == generated_claims(claims@),
        r matches Ok(t) ==> hs256_signature_valid(t@, secret@),
{
    let mut object: serde_json::Map<String, serde_json::Value> = claims.iter().map(
        |(k, v)| (k.clone(), serde_json::Value::String(v.clone())),
    ).collect();
    object.insert("exp".to_string(), serde_json::Value::from(exp));
    jsonwebtoken::encode(
        &jsonwebtoken::Header::new(jsonwebtoken::Algorithm::HS256),
        &object,
        &jsonwebtoken::EncodingKey::from_secret(secret.as_bytes()),
    )
}

/// `jsonwebtoken::decode` with HS256, the secret as key and the expiry
/// checked: the claims of the token, each as text or not. The claim is what
/// holds of every outcome: a token that passes has a signature that checks
/// under the secret, and the claims given are those of its payload. Whether
/// it passes also depends on the current time (the expiry) and is left
/// unsaid.
#[verifier::external_body]
fn decode_hs256(token: &str, secret: &str) -> (r: Result<Vec<(String, ClaimValue)>, jsonwebtoken::errors::Error>)
    ensures
        r matches Ok(p) ==> claim_pairs_view(p@) == jwt_payload_claims(token@),
        r is Ok ==> hs256_signature_valid(token@, secret@),
{
    jsonwebtoken::decode::<serde_json::Map<String, serde_json::Value>>(
        token,
        &jsonwebtoken::DecodingKey::from_secret(secret.as_bytes()),
        &jsonwebtoken::Validation::new(jsonwebtoken::Algorithm::HS256),
    ).map(
        |d| d.claims.into_iter().map(|(k, v)| (k, match v {
            serde_json::Value::String(s) => ClaimValue::Text(s),
            _ => ClaimValue::Other,
        })).collect(),
    )
}

impl JWT {
    /// A token for the text claims `claims`, issued at `iat` and valid for
    /// `effective_duration` seconds: signed with the secret, its payload the
    /// claims with `exp` the expiry.
    pub fn generate_verification_token(
        &self,
        claims: Vec<(String, String)>,
        iat: u64,
        effective_duration: u64,
    ) -> (r: AppResult<String>)
        requires
            iat + effective_duration <= u64::MAX,
        ensures
            r matches Ok(t) && t@ == hs256_token(
                self.spec_secret_key(),
                text_pairs_view(claims@),
                (iat + effective_duration) as nat,
            ) && claim_view_map(jwt_payload_claims(t@)) == generated_claims(claims@)
                && hs256_signature_valid(t@, self.spec_secret_key()),
    {
        let exp = Self::expiry(iat, effective_duration);
        match encode_hs256(&claims, exp, self.secret_key.as_str()) {
            Ok(t) => Ok(t),
            Err(e) => Err(Kind::BadRequest.from_src(e.to_string())),
        }
    }

    /// The claims of a token that the secret signed and that has not
    /// expired: those of its payload. A failure is a bad request caused by
    /// the crate's error; whether a token passes depends on the current time.
    pub fn verify_token(&self, token: &str) -> (r: AppResult<Claims>)
        ensures
            r is Ok ==> hs256_signature_valid(token@, self.spec_secret_key()),
            r matches Ok(c) ==> claims_view(c.0@) == claim_view_map(jwt_payload_claims(token@)),
            r matches Err(e) ==> e.kind == Kind::BadRequest && e.msg is None && e.src is Some,
    {
        match decode_hs256(token, self.secret_key.as_str()) {
            Ok(pairs) => Ok(claims_from_pairs(pairs)),
            Err(e) => Err(Kind::BadRequest.from_src(e.to_string())),
        }
    }
}

/// A token generated with a secret, once it verifies, gives back the claims
/// it was generated with, `exp` added: what `verify_token` gives of such a
/// token is what `generate_verification_token` put into it.
pub proof fn lemma_token_roundtrip(
    token: Seq<char>,
    claims: Seq<(String, String)>,
    verified: Map<Seq<char>, Option<Seq<char>>>,
)
    requires
        claim_view_map(jwt_payload_claims(token)) == generated_claims(claims),
        verified == claim_view_map(jwt_payload_claims(token)),
    ensures
        verified == generated_claims(claims),
        verified.contains_key("exp"@) && verified["exp"@] is None,
{
}

} // verus!
