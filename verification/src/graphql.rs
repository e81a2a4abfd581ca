pub mod admin;
pub mod data_loader;
pub mod service;
pub mod shared;

use crate::domain::Id;
use crate::errors::{error_text, AppError, AppResult, ErrorView, Kind};
use crate::text::{string_from_utf8, strip_prefix};
use vstd::prelude::*;
use vstd::utf8::{
    codepoint_width_1, decode_first_scalar, decode_utf8, leading_bits_width_1,
    pop_first_scalar, valid_first_scalar, valid_utf8,
};

verus! {

// ---------------------------------------------------------------------------
// Header values
// ---------------------------------------------------------------------------

/// A byte that a header value may hold when it is read as text: a visible
/// ASCII character, a space or a tab.
pub open spec fn header_byte_ok(b: u8) -> bool {
    b == 9 || (32 <= b && b <= 126)
}

pub open spec fn header_bytes_ok(bytes: Seq<u8>) -> bool {
    forall|i: int| 0 <= i < bytes.len() ==> #[trigger] header_byte_ok(bytes[i])
}

/// ASCII bytes read one character each.
pub open spec fn ascii_text(bytes: Seq<u8>) -> Seq<char> {
    bytes.map_values(|b: u8| b as char)
}

/// Bytes below 128 are valid UTF-8 and decode to one character each.
pub proof fn lemma_ascii_decode(bytes: Seq<u8>)
    requires
        forall|i: int| 0 <= i < bytes.len() ==> #[trigger] bytes[i] <= 0x7f,
    ensures
        valid_utf8(bytes),
        decode_utf8(bytes) == ascii_text(bytes),
    decreases bytes.len(),
{
    if bytes.len() > 0 {
        let b = bytes[0];
        assert(b <= 0x7f);
        assert((b & 0x7f) == b) by (bit_vector)
            requires
                b <= 0x7f,
        ;
        assert(leading_bits_width_1(b) == b as u32);
        assert(codepoint_width_1(b) == b as u32);
        assert(valid_first_scalar(bytes));
        assert(decode_first_scalar(bytes) == b as u32);
        let rest = pop_first_scalar(bytes);
        assert(rest =~= bytes.subrange(1, bytes.len() as int));
        assert forall|i: int| 0 <= i < rest.len() implies #[trigger] rest[i] <= 0x7f by {
            assert(rest[i] == bytes[i + 1]);
        }
        lemma_ascii_decode(rest);
        assert(valid_utf8(bytes));
        assert(decode_utf8(bytes) == seq![b as u32 as char] + decode_utf8(rest));
        assert(ascii_text(bytes) =~= seq![b as char] + ascii_text(rest));
    } else {
        assert(ascii_text(bytes) =~= Seq::<char>::empty());
    }
}

/// The text of a header value: its bytes read as characters, when every byte
/// is one that `header_byte_ok` admits; nothing otherwise.
pub fn header_text(bytes: Vec<u8>) -> (r: Option<String>)
    ensures
        r is Some <==> header_bytes_ok(bytes@),
        r matches Some(s) ==> s@ == ascii_text(bytes@),
{
    let n = bytes.len();
    let mut i: usize = 0;
    while i < n
        invariant
            n == bytes@.len(),
            i <= n,
            forall|j: int| 0 <= j < i ==> #[trigger] header_byte_ok(bytes@[j]),
        decreases n - i,
    {
        let b = bytes[i];
        if !(b == 9 || (32 <= b && b <= 126)) {
            assert(!header_byte_ok(bytes@[i as int]));
            return None;
        }
        i = i + 1;
    }
    proof {
        assert forall|j: int| 0 <= j < bytes@.len() implies #[trigger] bytes@[j] <= 0x7f by {
            assert(header_byte_ok(bytes@[j]));
        }
        lemma_ascii_decode(bytes@);
    }
    match string_from_utf8(bytes) {
        Ok(s) => Some(s),
        Err(_) => None,
    }
}

/// The text of the error that a header value gives when it cannot be read as
/// text.
pub open spec fn header_not_text_message() -> Seq<char> {
    "failed to convert header to a str"@
}

/// The prefix of an `authorization` header that carries a bearer token.
pub open spec fn bearer_prefix() -> Seq<char> {
    seq!['B', 'e', 'a', 'r', 'e', 'r', ' ']
}

/// Whether a text starts with `bearer_prefix`.
pub open spec fn has_bearer_prefix(t: Seq<char>) -> bool {
    7 <= t.len() && t.take(7) == bearer_prefix()
}

/// The token of an `authorization` header `Bearer {token}`. A header that is
/// not text is a bad request caused by that; one without the prefix is a bad
/// request with the message `invalid authorization header`.
pub fn bearer_token(header: Vec<u8>) -> (r: AppResult<String>)
    ensures
        match r {
            Ok(t) => header_bytes_ok(header@) && has_bearer_prefix(ascii_text(header@)) && t@
                == ascii_text(header@).skip(7),
            Err(e) => if !header_bytes_ok(header@) {
                e@ == (ErrorView {
                    kind: Kind::BadRequest,
                    msg: None,
                    src: Some(header_not_text_message()),
                })
            } else {
                !has_bearer_prefix(ascii_text(header@)) && e@ == (ErrorView {
                    kind: Kind::BadRequest,
                    msg: Some("invalid authorization header"@),
                    src: None,
                })
            },
        },
{
    let text = match header_text(header) {
        Some(t) => t,
        None => {
            return Err(
                Kind::BadRequest.from_src(String::from_str("failed to convert header to a str")),
            );
        },
    };
    let prefix = "Bearer ";
    proof {
        reveal_strlit("Bearer ");
        assert(prefix@ =~= bearer_prefix());
    }
    match strip_prefix(text.as_str(), prefix) {
        Some(t) => Ok(String::from_str(t)),
        None => Err(Kind::BadRequest.with(String::from_str("invalid authorization header"))),
    }
}

/// The bytes of `bearer_prefix`.
pub open spec fn bearer_prefix_bytes() -> Seq<u8> {
    seq![66u8, 101u8, 97u8, 114u8, 101u8, 114u8, 32u8]
}

/// A header written as the bearer prefix followed by a token of header bytes
/// reads back as that token.
pub proof fn lemma_bearer_roundtrip(token: Seq<u8>)
    requires
        header_bytes_ok(token),
    ensures
        bearer_token_spec(bearer_prefix_bytes() + token) == Ok::<Seq<char>, ErrorView>(
            ascii_text(token),
        ),
{
    let p = bearer_prefix_bytes();
    let h = p + token;
    assert forall|i: int| 0 <= i < h.len() implies #[trigger] header_byte_ok(h[i]) by {
        if i >= 7 {
            assert(h[i] == token[i - 7]);
        }
    }
    assert(ascii_text(h) =~= ascii_text(p) + ascii_text(token));
    assert(ascii_text(p) =~= bearer_prefix());
    assert(ascii_text(h).take(7) =~= bearer_prefix());
    assert(ascii_text(h).skip(7) =~= ascii_text(token));
}

// ---------------------------------------------------------------------------
// Authorization of a request
// ---------------------------------------------------------------------------

/// What to do about the authorization of a request: verify a bearer token
/// with the authentication service, or answer with an error.
pub enum AuthStep {
    Verify(String),
    Reject(AppError),
}

/// The first step of authorizing a request from its `authorization` header
/// and whether an authentication service is configured: with both, the bearer
/// token is verified (or the header's error is the outcome); without either,
/// the request is unauthorized.
pub fn auth_step(header: Option<Vec<u8>>, has_auth: bool) -> (r: AuthStep)
    ensures
        match header {
            Some(h) => if has_auth {
                match r {
                    AuthStep::Verify(t) => bearer_token_spec(h@) == Ok::<Seq<char>, ErrorView>(t@),
                    AuthStep::Reject(e) => bearer_token_spec(h@) == Err::<Seq<char>, ErrorView>(e@),
                }
            } else {
                r matches AuthStep::Reject(e) && e@ == (ErrorView {
                    kind: Kind::Unauthorized,
                    msg: None,
                    src: None,
                })
            },
            None => r matches AuthStep::Reject(e) && e@ == (ErrorView {
                kind: Kind::Unauthorized,
                msg: None,
                src: None,
            }),
        },
{
    match header {
        Some(h) => {
            if has_auth {
                match bearer_token(h) {
                    Ok(t) => AuthStep::Verify(t),
                    Err(e) => AuthStep::Reject(e),
                }
            } else {
                AuthStep::Reject(Kind::Unauthorized.into_err())
            }
        },
        None => AuthStep::Reject(Kind::Unauthorized.into_err()),
    }
}

/// What `bearer_token` gives for a header, as plain values.
pub open spec fn bearer_token_spec(header: Seq<u8>) -> Result<Seq<char>, ErrorView> {
    if !header_bytes_ok(header) {
        Err(ErrorView { kind: Kind::BadRequest, msg: None, src: Some(header_not_text_message()) })
    } else if has_bearer_prefix(ascii_text(header)) {
        Ok(ascii_text(header).skip(7))
    } else {
        Err(
            ErrorView {
                kind: Kind::BadRequest,
                msg: Some("invalid authorization header"@),
                src: None,
            },
        )
    }
}

/// The user named by an `x-debug-user-id` header, when it is text.
pub fn debug_user_id<E>(header: Option<Vec<u8>>) -> (r: Option<Id<E>>)
    ensures
        match header {
            Some(h) => if header_bytes_ok(h@) {
                r matches Some(id) && id@ == ascii_text(h@)
            } else {
                r is None
            },
            None => r is None,
        },
{
    match header {
        Some(h) => match header_text(h) {
            Some(t) => Some(Id::new(t)),
            None => None,
        },
        None => None,
    }
}

/// The identity a request runs as: the user of the debug header when it names
/// one, else the outcome of authorization.
pub fn request_identity<E>(auth: AppResult<Id<E>>, debug: Option<Id<E>>) -> (r: AppResult<Id<E>>)
    ensures
        match debug {
            Some(d) => r matches Ok(v) && v@ == d@,
            None => r == auth,
        },
{
    match debug {
        Some(d) => Ok(d),
        None => auth,
    }
}

/// The message of the error that answers a request whose authorization
/// failed with `e`.
pub open spec fn authorization_error_message(e: ErrorView) -> Seq<char> {
    "authorization error: "@ + error_text(e)
}

/// The identifier that authorization established for the request, or an
/// `Unauthorized` error that tells why it failed.
pub fn verified_user_id<E>(auth: &AppResult<Id<E>>) -> (r: AppResult<Id<E>>)
    ensures
        match *auth {
            Ok(v) => r matches Ok(w) && w@ == v@,
            Err(e) => r matches Err(f) && f@ == (ErrorView {
                kind: Kind::Unauthorized,
                msg: Some(authorization_error_message(e@)),
                src: None,
            }),
        },
{
    match auth {
        Ok(v) => Ok(v.clone()),
        Err(err) => {
            let msg = String::from_str("authorization error: ");
            let text = err.text();
            Err(Kind::Unauthorized.with(msg.concat(text.as_str())))
        },
    }
}

} // verus!
