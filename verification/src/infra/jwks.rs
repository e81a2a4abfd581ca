use crate::domain::user;
use crate::errors::{AppError, AppResult, ErrorView, Kind};
use crate::infra::cognito::{ClaimValue, Claims};
use vstd::hash_map::StringHashMap;
use vstd::prelude::*;

verus! {

#[verifier::external_type_specification]
#[verifier::external_body]
pub struct ExJwtError(jsonwebtoken::errors::Error);

/// A public key of a JSON Web Key Set (RSA: modulus `n`, exponent `e`).
#[derive(Debug)]
pub struct Jwk {
    pub e: String,
    pub kid: String,
    pub n: String,
}

/// The document that a JWKS endpoint answers.
#[derive(Debug)]
pub struct KeyResponse {
    pub keys: Vec<Jwk>,
}

/// The plain content of a key.
pub open spec fn jwk_view(k: Jwk) -> (Seq<char>, Seq<char>, Seq<char>) {
    (k.e@, k.kid@, k.n@)
}

impl Jwk {
    pub fn duplicate(&self) -> (r: Jwk)
        ensures
            jwk_view(r) == jwk_view(*self),
    {
        Jwk { e: self.e.clone(), kid: self.kid.clone(), n: self.n.clone() }
    }
}

/// Keys by key identifier, the later of two with one identifier kept.
pub open spec fn key_set(keys: Seq<Jwk>) -> Map<Seq<char>, Jwk>
    decreases keys.len(),
{
    if keys.len() == 0 {
        Map::empty()
    } else {
        let rest = key_set(keys.drop_first());
        if rest.contains_key(keys[0].kid@) {
            rest
        } else {
            rest.insert(keys[0].kid@, keys[0])
        }
    }
}

/// Keys the keys of a response by their identifiers; where two share one, the
/// later stays (as collecting them into a `HashMap` does).
pub fn key_set_from(response: KeyResponse) -> (r: StringHashMap<Jwk>)
    ensures
        r@ == key_set(response.keys@),
{
    let ghost orig = response.keys@;
    let mut keys = response.keys;
    let mut map: StringHashMap<Jwk> = StringHashMap::new();
    proof {
        assert(orig.skip(orig.len() as int) =~= Seq::<Jwk>::empty());
    }
    while keys.len() > 0
        invariant
            keys@ == orig.take(keys.len() as int),
            keys.len() <= orig.len(),
            map@ == key_set(orig.skip(keys.len() as int)),
        decreases keys.len(),
    {
        let ghost k = keys.len() - 1;
        let key = keys.pop().unwrap();
        proof {
            assert(key == orig[k]);
            assert(orig.skip(k).drop_first() =~= orig.skip(k + 1));
            assert(orig.skip(k)[0] == orig[k]);
            assert(keys@ =~= orig.take(k));
        }
        if !map.contains_key(key.kid.as_str()) {
            let kid = key.kid.clone();
            map.insert(kid, key);
        }
    }
    proof {
        assert(orig.skip(0) =~= orig);
    }
    map
}

/// Whether `jsonwebtoken::decode_header` reads a header from the token.
pub uninterp spec fn jwt_header_readable(token: Seq<char>) -> bool;

/// The `kid` of the header that `jsonwebtoken::decode_header` reads.
pub uninterp spec fn jwt_header_kid(token: Seq<char>) -> Option<Seq<char>>;

/// `jsonwebtoken::decode_header`, keeping the key identifier of the header:
/// the claim is that it succeeds exactly when `jwt_header_readable` holds of the
/// token, and then gives `jwt_header_kid` of it.
#[verifier::external_body]
fn decode_header_kid(token: &str) -> (r: Result<Option<String>, jsonwebtoken::errors::Error>)
    ensures
        r is Ok <==> jwt_header_readable(token@),
        r matches Ok(kid) ==> crate::errors::opt_view(kid) == jwt_header_kid(token@),
{
    jsonwebtoken::decode_header(token).map(|h| h.kid)
}

/// What to do next to find the key that signed a token.
pub enum KeyLookup {
    /// Verify with this key.
    Use(Jwk),
    /// The key is not known yet: fetch the key set again and look once more.
    Refresh,
    /// Give up with this error.
    Fail(AppError),
}

/// The step that follows from looking for the token's key in `keys`; `refreshed`
/// says whether the set has already been fetched again for this token.
pub open spec fn key_lookup_spec(token: Seq<char>, keys: Map<Seq<char>, Jwk>, refreshed: bool) -> Option<
    Option<ErrorView>,
> {
    if !jwt_header_readable(token) {
        Some(Some(ErrorView { kind: Kind::BadRequest, msg: None, src: None }))
    } else {
        match jwt_header_kid(token) {
            None => Some(
                Some(ErrorView { kind: Kind::BadRequest, msg: Some("kid header missing"@), src: None }),
            ),
            Some(kid) => if keys.contains_key(kid) {
                None
            } else if !refreshed {
                Some(None)
            } else {
                Some(Some(ErrorView { kind: Kind::BadRequest, msg: Some("unknown kid"@), src: None }))
            },
        }
    }
}

/// Finds the key that signed `token` among `keys`: a header that cannot be
/// read, or one without a key identifier, is a bad request; a known identifier
/// gives its key; an unknown one asks for the key set to be fetched again, and
/// after that is a bad request.
pub fn lookup_key(token: &str, keys: &StringHashMap<Jwk>, refreshed: bool) -> (r: KeyLookup)
    ensures
        match r {
            KeyLookup::Use(k) => key_lookup_spec(token@, keys@, refreshed) == None::<Option<ErrorView>>
                && jwk_view(k) == jwk_view(keys@[jwt_header_kid(token@)->0]),
            KeyLookup::Refresh => key_lookup_spec(token@, keys@, refreshed) == Some(
                None::<ErrorView>,
            ),
            KeyLookup::Fail(e) => match key_lookup_spec(token@, keys@, refreshed) {
                Some(Some(v)) => e@.kind == v.kind && e@.msg == v.msg && (v.msg is None ==> e@.src
                    is Some),
                _ => false,
            },
        },
{
    let kid = match decode_header_kid(token) {
        Err(e) => {
            return KeyLookup::Fail(Kind::BadRequest.from_src(e.to_string()));
        },
        Ok(k) => k,
    };
    let kid = match kid {
        None => {
            return KeyLookup::Fail(Kind::BadRequest.with(String::from_str("kid header missing")));
        },
        Some(k) => k,
    };
    match keys.get(kid.as_str()) {
        Some(k) => {
            KeyLookup::Use(k.duplicate())
        },
        None => {
            if !refreshed {
                KeyLookup::Refresh
            } else {
                KeyLookup::Fail(Kind::BadRequest.with(String::from_str("unknown kid")))
            }
        },
    }
}

/// The key set an adapter keeps between requests: empty until fetched, and
/// replaced whole by each fetch.
pub struct KeyCache {
    keys: StringHashMap<Jwk>,
}

impl KeyCache {
    /// A cache with no keys.
    pub fn new() -> (r: KeyCache)
        ensures
            r.spec_keys() == Map::<Seq<char>, Jwk>::empty(),
    {
        KeyCache { keys: StringHashMap::new() }
    }

    pub closed spec fn spec_keys(&self) -> Map<Seq<char>, Jwk> {
        self.keys@
    }

    /// Replaces the keys with those of a fetched key set (see `key_set_from`).
    pub fn replace(&mut self, response: KeyResponse)
        ensures
            final(self).spec_keys() == key_set(response.keys@),
    {
        self.keys = key_set_from(response);
    }

    /// The next step of finding the key that signed `token` (see
    /// `lookup_key`); `refreshed` says whether the set was fetched again for
    /// this token.
    pub fn lookup(&self, token: &str, refreshed: bool) -> (r: KeyLookup)
        ensures
            match r {
                KeyLookup::Use(k) => key_lookup_spec(token@, self.spec_keys(), refreshed) == None::<
                    Option<ErrorView>,
                > && jwk_view(k) == jwk_view(self.spec_keys()[jwt_header_kid(token@)->0]),
                KeyLookup::Refresh => key_lookup_spec(token@, self.spec_keys(), refreshed) == Some(
                    None::<ErrorView>,
                ),
                KeyLookup::Fail(e) => match key_lookup_spec(token@, self.spec_keys(), refreshed) {
                    Some(Some(v)) => e@.kind == v.kind && e@.msg == v.msg && (v.msg is None ==> e@.src
                        is Some),
                    _ => false,
                },
            },
    {
        lookup_key(token, &self.keys, refreshed)
    }
}

/// Looking a token up after a refresh never asks for another: an unknown key
/// is then a failure.
pub proof fn lemma_one_refresh_at_most(token: Seq<char>, keys: Map<Seq<char>, Jwk>)
    ensures
        key_lookup_spec(token, keys, true) != Some(None::<ErrorView>),
{
}

/// Whether `jsonwebtoken` accepts an RSA modulus and exponent as a key
/// (`DecodingKey::from_rsa_components`): both must be unpadded URL-safe
/// base 64.
pub uninterp spec fn rsa_components_accepted(n: Seq<char>, e: Seq<char>) -> bool;

/// Whether a token's RS256 signature checks under the RSA public key with
/// modulus `n` and exponent `e`, as `jsonwebtoken` checks it.
pub uninterp spec fn rs256_signature_valid(token: Seq<char>, n: Seq<char>, e: Seq<char>) -> bool;

/// How a claim's value is seen: its text, or nothing when it is not text.
pub open spec fn claim_value_view(v: ClaimValue) -> Option<Seq<char>> {
    match v {
        ClaimValue::Text(s) => Some(s@),
        ClaimValue::Other => None,
    }
}

/// Named claim values as plain values.
pub open spec fn claim_pairs_view(pairs: Seq<(String, ClaimValue)>) -> Seq<(Seq<char>, Option<Seq<char>>)> {
    pairs.map_values(|p: (String, ClaimValue)| (p.0@, claim_value_view(p.1)))
}

/// Claims as plain values.
pub open spec fn claims_view(m: Map<Seq<char>, ClaimValue>) -> Map<Seq<char>, Option<Seq<char>>> {
    m.map_values(|v: ClaimValue| claim_value_view(v))
}

/// Plain named claim values keyed by name; where a name comes twice, the
/// later stays.
pub open spec fn claim_view_map(pairs: Seq<(Seq<char>, Option<Seq<char>>)>) -> Map<
    Seq<char>,
    Option<Seq<char>>,
>
    decreases pairs.len(),
{
    if pairs.len() == 0 {
        Map::empty()
    } else {
        let last = pairs.last();
        claim_view_map(pairs.drop_last()).insert(last.0, last.1)
    }
}

/// The claims in the payload of a JSON Web Token as `jsonwebtoken` reads
/// them into a JSON object, in the object's order: each name with its text,
/// or nothing when its value is not text.
pub uninterp spec fn jwt_payload_claims(token: Seq<char>) -> Seq<(Seq<char>, Option<Seq<char>>)>;

/// Whether `jsonwebtoken`'s audience check passes a token for `audience`
/// (a token without an `aud` claim passes; one with it passes when it names
/// the audience).
pub uninterp spec fn jwt_audience_admits(token: Seq<char>, audience: Seq<char>) -> bool;

/// The text of `jsonwebtoken`'s error for a token refused by the audience
/// check (its `ErrorKind::InvalidAudience`, which the crate writes as its
/// name).
pub open spec fn audience_refusal() -> Seq<char> {
    "InvalidAudience"@
}

/// `jsonwebtoken::decode` with RS256 under the key `DecodingKey::from_rsa_components(n, e)`,
/// the expiry checked, and the audience checked against `audience` when
/// `check_audience` holds: the claims of the token, each as text or not, or
/// the text of the crate's error. The claim is what holds of every outcome:
/// components the crate refuses as a key always fail; a token that passes has
/// a signature that checks under the key `(n, e)`, and with the audience
/// checked is one that check admits; the claims given are those of the
/// token's payload; the audience error comes only from the audience check
/// (the crate's `validate` raises it after `validate_aud`, and nothing else
/// does), for a token that check does not admit. Whether it passes also
/// depends on the current time (the expiry) and is left unsaid.
#[verifier::external_body]
fn decode_rs256(
    token: &str,
    n: &str,
    e: &str,
    audience: &str,
    check_audience: bool,
) -> (r: Result<Vec<(String, ClaimValue)>, String>)
    ensures
        !rsa_components_accepted(n@, e@) ==> r is Err,
        r is Ok ==> rs256_signature_valid(token@, n@, e@),
        r matches Ok(p) ==> claim_pairs_view(p@) == jwt_payload_claims(token@),
        r is Ok && check_audience ==> jwt_audience_admits(token@, audience@),
        r matches Err(t) && t@ == audience_refusal() ==> check_audience && !jwt_audience_admits(
            token@,
            audience@,
        ),
{
    let key = jsonwebtoken::DecodingKey::from_rsa_components(n, e).map_err(|x| x.to_string())?;
    let mut validation = jsonwebtoken::Validation::new(jsonwebtoken::Algorithm::RS256);
    validation.set_audience(&[audience]);
    validation.validate_aud = check_audience;
    jsonwebtoken::decode::<serde_json::Map<String, serde_json::Value>>(token, &key, &validation).map(
        |d| d.claims.into_iter().map(|(k, v)| (k, match v {
            serde_json::Value::String(s) => ClaimValue::Text(s),
            _ => ClaimValue::Other,
        })).collect(),
    ).map_err(|x| x.to_string())
}

/// The claims of `token`, checked against the key `jwk` (RS256, the expiry,
/// and the audience when one is given). Any failure is a bad request caused by
/// the crate's error; a key whose components the crate refuses always fails.
/// Whether a token passes depends on the current time, so success is not
/// promised; a token that passes is signed by the key `(jwk.n, jwk.e)`, the
/// claims it gives are those of the token's payload, and with an audience
/// given, the audience check admits it. With no audience given the audience is
/// not checked: no token is refused for its audience.
pub fn verify_claims(token: &str, jwk: &Jwk, audience: Option<&str>) -> (r: AppResult<Claims>)
    ensures
        r matches Err(e) ==> e.kind == Kind::BadRequest && e.msg is None && e.src is Some,
        !rsa_components_accepted(jwk.n@, jwk.e@) ==> r is Err,
        r is Ok ==> rs256_signature_valid(token@, jwk.n@, jwk.e@),
        r matches Ok(c) ==> claims_view(c.0@) == claim_view_map(jwt_payload_claims(token@)),
        audience matches Some(a) ==> (r is Ok ==> jwt_audience_admits(token@, a@)),
        audience is None ==> (r matches Err(e) ==> e@.src != Some(audience_refusal())),
        audience matches Some(a) ==> (r matches Err(e) && e@.src == Some(audience_refusal())
            ==> !jwt_audience_admits(token@, a@)),
{
    let (aud, check) = match audience {
        Some(a) => (a, true),
        None => ("", false),
    };
    match decode_rs256(token, jwk.n.as_str(), jwk.e.as_str(), aud, check) {
        Ok(pairs) => Ok(claims_from_pairs(pairs)),
        Err(text) => Err(Kind::BadRequest.from_src(text)),
    }
}

/// Claims keyed by name; where a name comes twice, the later stays.
pub open spec fn claim_map(pairs: Seq<(String, ClaimValue)>) -> Map<Seq<char>, ClaimValue>
    decreases pairs.len(),
{
    if pairs.len() == 0 {
        Map::empty()
    } else {
        let last = pairs.last();
        claim_map(pairs.drop_last()).insert(last.0@, last.1)
    }
}

/// Seeing claims as plain values commutes with keying them by name.
pub proof fn lemma_claims_view(pairs: Seq<(String, ClaimValue)>)
    ensures
        claims_view(claim_map(pairs)) == claim_view_map(claim_pairs_view(pairs)),
    decreases pairs.len(),
{
    if pairs.len() > 0 {
        let init = pairs.drop_last();
        lemma_claims_view(init);
        assert(claim_pairs_view(pairs).drop_last() =~= claim_pairs_view(init));
        assert(claims_view(claim_map(pairs)) =~= claim_view_map(claim_pairs_view(pairs)));
    } else {
        assert(claims_view(claim_map(pairs)) =~= claim_view_map(claim_pairs_view(pairs)));
    }
}

/// The claims named by `pairs` (see `claim_map`).
pub fn claims_from_pairs(pairs: Vec<(String, ClaimValue)>) -> (r: Claims)
    ensures
        r.0@ == claim_map(pairs@),
        claims_view(r.0@) == claim_view_map(claim_pairs_view(pairs@)),
{
    proof {
        lemma_claims_view(pairs@);
    }
    let ghost orig = pairs@;
    let mut rest = pairs;
    let mut map: StringHashMap<ClaimValue> = StringHashMap::new();
    let ghost mut i: int = 0;
    proof {
        assert(orig.skip(0) =~= orig);
        assert(orig.take(0) =~= Seq::<(String, ClaimValue)>::empty());
    }
    while rest.len() > 0
        invariant
            0 <= i <= orig.len(),
            rest@ == orig.skip(i),
            map@ == claim_map(orig.take(i)),
        decreases rest@.len(),
    {
        let (k, v) = rest.remove(0);
        proof {
            assert(orig.skip(i).remove(0) =~= orig.skip(i + 1));
            assert(orig.take(i + 1).drop_last() =~= orig.take(i));
            assert(orig.take(i + 1).last() == orig[i]);
        }
        map.insert(k, v);
        proof {
            i = i + 1;
        }
    }
    proof {
        assert(orig.take(i) =~= orig);
    }
    Claims(map)
}

/// The message for a token without a `sub` claim.
pub open spec fn missing_sub() -> Seq<char> {
    "missing field `sub`"@
}

/// The message for a token whose `sub` claim is not text.
pub open spec fn sub_not_text() -> Seq<char> {
    "invalid type: expected a string for field `sub`"@
}

/// The user an identity token names: its `sub` claim, which must be text;
/// a token without it, or with a `sub` that is not text, is a bad request
/// that says which.
pub fn subject_of(claims: &Claims) -> (r: AppResult<user::Id>)
    ensures
        if !claims.0@.contains_key("sub"@) {
            r matches Err(e) && e@ == (ErrorView { kind: Kind::BadRequest, msg: None, src: Some(missing_sub()) })
        } else {
            match claims.0@["sub"@] {
                ClaimValue::Text(s) => r matches Ok(id) && id@ == s@,
                ClaimValue::Other => r matches Err(e) && e@ == (ErrorView {
                    kind: Kind::BadRequest,
                    msg: None,
                    src: Some(sub_not_text()),
                }),
            }
        },
{
    let key = "sub";
    proof {
        reveal_strlit("sub");
    }
    match claims.0.get(key) {
        Some(ClaimValue::Text(s)) => Ok(user::Id::new(s.clone())),
        Some(ClaimValue::Other) => Err(
            Kind::BadRequest.from_src(String::from_str("invalid type: expected a string for field `sub`")),
        ),
        None => Err(Kind::BadRequest.from_src(String::from_str("missing field `sub`"))),
    }
}

} // verus!
