use crate::domain::types::asset_key::AssetKey;
use crate::domain::types::image_size::{image_width, ImageSize};
use crate::errors::{AppResult, Kind};
use crate::text::{nat_digits, string_from_utf8};
use base64::Engine;
use vstd::prelude::*;
use vstd::utf8::{decode_utf8, valid_utf8};

verus! {

#[verifier::external_type_specification]
#[verifier::external_body]
pub struct ExEncodingError(cloudfront_sign::EncodingError);

#[verifier::external_type_specification]
#[verifier::external_body]
pub struct ExInvalidUri(http::uri::InvalidUri);

#[verifier::external_type_specification]
#[verifier::external_body]
pub struct ExDecodeError(base64::DecodeError);

/// What `base64`'s standard engine decodes from a text: the bytes, or nothing
/// when the text is not canonical padded base 64.
pub uninterp spec fn base64_standard_decode(text: Seq<char>) -> Option<Seq<u8>>;

/// `BASE64_STANDARD.decode`: the claim is that the outcome is
/// `base64_standard_decode` of the text.
#[verifier::external_body]
fn decode_base64(text: &str) -> (r: Result<Vec<u8>, base64::DecodeError>)
    ensures
        match r {
            Ok(b) => base64_standard_decode(text@) == Some(b@),
            Err(_) => base64_standard_decode(text@) is None,
        },
{
    base64::prelude::BASE64_STANDARD.decode(text)
}

/// Where a CDN serves images and how it signs their URLs.
#[derive(Debug)]
pub struct Adapter {
    domain: String,
    key_pair_id: String,
    private_key: String,
}

/// How long a signed image URL stays valid, in seconds.
pub const SIGNED_URL_EXPIRES_SECS: u64 = 3600;

/// The URL of an image of a size before it is signed.
pub open spec fn image_url(domain: Seq<char>, key: Seq<char>, size: ImageSize) -> Seq<char> {
    "https://"@ + domain + "/"@ + key + "?"@ + ("w="@ + nat_digits(image_width(size) as nat))
}

impl Adapter {
    /// The adapter for a CDN, with its private key given in base 64: the key
    /// must decode to UTF-8 text; otherwise the decoding failure is an internal
    /// error.
    pub fn new(domain: String, key_pair_id: String, private_key_base64: String) -> (r: AppResult<
        Adapter,
    >)
        ensures
            match base64_standard_decode(private_key_base64@) {
                None => r matches Err(e) && e.kind == Kind::Internal,
                Some(b) => if valid_utf8(b) {
                    r matches Ok(a) && a.spec_domain() == domain@ && a.spec_key_pair_id()
                        == key_pair_id@ && a.spec_private_key() == decode_utf8(b)
                } else {
                    r matches Err(e) && e.kind == Kind::Internal
                },
            },
    {
        let bytes = match decode_base64(private_key_base64.as_str()) {
            Ok(b) => b,
            Err(e) => {
                return Err(Kind::Internal.from_src(e.to_string()));
            },
        };
        let private_key = match string_from_utf8(bytes) {
            Ok(s) => s,
            Err(e) => {
                return Err(Kind::Internal.from_src(e.to_string()));
            },
        };
        Ok(Adapter { domain, key_pair_id, private_key })
    }

    pub closed spec fn spec_domain(&self) -> Seq<char> {
        self.domain@
    }

    pub closed spec fn spec_key_pair_id(&self) -> Seq<char> {
        self.key_pair_id@
    }

    pub closed spec fn spec_private_key(&self) -> Seq<char> {
        self.private_key@
    }

    pub fn key_pair_id(&self) -> (r: &str)
        ensures
            r@ == self.spec_key_pair_id(),
    {
        self.key_pair_id.as_str()
    }

    pub fn private_key(&self) -> (r: &str)
        ensures
            r@ == self.spec_private_key(),
    {
        self.private_key.as_str()
    }

    /// The URL to sign for an image: `https://{domain}/{key}?w={width}`.
    pub fn image_url(&self, key: &AssetKey, size: ImageSize) -> (r: String)
        ensures
            r@ == image_url(self.spec_domain(), key@, size),
    {
        let u = String::from_str("https://");
        let u = u.concat(self.domain.as_str());
        let u = u.concat("/");
        let u = u.concat(key.as_str());
        let u = u.concat("?");
        u.concat(size.query_param().as_str())
    }

    /// When a URL signed at `now_secs` (seconds since the epoch) expires.
    pub fn expires_at(now_secs: u64) -> (r: u64)
        requires
            now_secs + SIGNED_URL_EXPIRES_SECS <= u64::MAX,
        ensures
            r == now_secs + SIGNED_URL_EXPIRES_SECS,
    {
        now_secs + SIGNED_URL_EXPIRES_SECS
    }
}

/// The signature that `cloudfront_sign` puts into a URL it signs: URL-safe
/// base 64 (with `+`, `=`, `/` written `-`, `_`, `~`) of the PKCS#1 v1.5
/// RSA-SHA1 signature, by the PEM-encoded PKCS#1 private key, of the policy
/// that allows `url` until `expires`; nothing when the key cannot sign.
pub uninterp spec fn cloudfront_url_signature(url: Seq<char>, private_key: Seq<char>, expires: nat) -> Option<
    Seq<char>,
>;

/// A URL signed with a key pair until `expires`:
/// `{url}{? or &}Expires={expires}&Signature={signature}&Key-Pair-Id={id}`.
pub open spec fn signed_url_text(
    url: Seq<char>,
    key_pair_id: Seq<char>,
    expires: nat,
    signature: Seq<char>,
) -> Seq<char> {
    url + (if url.contains('?') {
        "&"@
    } else {
        "?"@
    }) + "Expires="@ + nat_digits(expires) + "&Signature="@ + signature + "&Key-Pair-Id="@
        + key_pair_id
}

/// `cloudfront_sign::get_signed_url` with a policy that only sets the expiry:
/// the claim is the text `signed_url_text` gives with the signature that
/// `cloudfront_url_signature` names, or an error when there is none (the
/// crate's source: the policy, its signature, then the URL's format).
#[verifier::external_body]
fn get_signed_url(url: &str, key_pair_id: &str, private_key: &str, expires: u64) -> (r: Result<
    String,
    cloudfront_sign::EncodingError,
>)
    ensures
        match cloudfront_url_signature(url@, private_key@, expires as nat) {
            Some(sig) => r matches Ok(s) && s@ == signed_url_text(url@, key_pair_id@, expires as nat, sig),
            None => r is Err,
        },
{
    let options = cloudfront_sign::SignedOptions {
        key_pair_id: std::borrow::Cow::Borrowed(key_pair_id),
        private_key: std::borrow::Cow::Borrowed(private_key),
        date_less_than: expires,
        date_greater_than: None,
        ip_address: None,
        resource: None,
    };
    cloudfront_sign::get_signed_url(url, &options)
}

/// What `http::Uri` reads from a text and writes back: the text it writes, or
/// nothing when it refuses the text.
pub uninterp spec fn uri_text(text: Seq<char>) -> Option<Seq<char>>;

/// `str::parse::<http::Uri>`, the URI written back with its `Display`: the
/// claim is `uri_text` of the text.
#[verifier::external_body]
fn parse_uri(text: &str) -> (r: Result<String, http::uri::InvalidUri>)
    ensures
        match uri_text(text@) {
            Some(t) => r matches Ok(s) && s@ == t,
            None => r is Err,
        },
{
    text.parse::<http::Uri>().map(|u| u.to_string())
}

impl Adapter {
    /// The signed URL of an image in a size, valid for an hour from
    /// `now_secs`: the image's URL (see `image_url`) signed until then, as the
    /// URI type writes it. A key that cannot sign, or a URL that is not a URI,
    /// is an internal error caused by the crate's error.
    pub fn presign_for_get_at(&self, key: &AssetKey, size: ImageSize, now_secs: u64) -> (r: AppResult<
        String,
    >)
        requires
            now_secs + SIGNED_URL_EXPIRES_SECS <= u64::MAX,
        ensures
            ({
                let url = image_url(self.spec_domain(), key@, size);
                let expires = (now_secs + SIGNED_URL_EXPIRES_SECS) as nat;
                match cloudfront_url_signature(url, self.spec_private_key(), expires) {
                    None => r matches Err(e) && e.kind == Kind::Internal && e.msg is None && e.src is Some,
                    Some(sig) => match uri_text(signed_url_text(url, self.spec_key_pair_id(), expires, sig)) {
                        Some(t) => r matches Ok(s) && s@ == t,
                        None => r matches Err(e) && e.kind == Kind::Internal && e.msg is None && e.src is Some,
                    },
                }
            }),
    {
        let url = self.image_url(key, size);
        let expires = Self::expires_at(now_secs);
        let signed = match get_signed_url(url.as_str(), self.key_pair_id.as_str(), self.private_key.as_str(), expires) {
            Ok(s) => s,
            Err(e) => {
                return Err(Kind::Internal.from_src(e.to_string()));
            },
        };
        match parse_uri(signed.as_str()) {
            Ok(s) => Ok(s),
            Err(e) => Err(Kind::Internal.from_src(e.to_string())),
        }
    }
}

} // verus!
