use crate::domain::types::asset_key::AssetKey;
use crate::domain::types::image_size::ImageSize;
use crate::domain::types::string::{length_error, length_ok};
use crate::domain::{order, user};
use crate::errors::{AppResult, ErrorView, Kind};
use crate::graphql::service::types::{Order, User};
use vstd::prelude::*;

verus! {

/// The queries of the API.
#[derive(Debug, Default)]
pub struct QueryRoot(pub DefaultQuery);

/// The queries of the API that need no grouping.
#[derive(Debug, Default)]
pub struct DefaultQuery;

/// Where a signed download URL comes from: the image CDN, in a size, or
/// storage itself.
#[derive(Debug, Clone, Copy, PartialEq, Eq, Structural)]
pub enum DownloadSource {
    Cdn(ImageSize),
    Storage,
}

impl DefaultQuery {
    /// The answer to a health check.
    pub fn health() -> (r: String)
        ensures
            r@ == "ok"@,
    {
        String::from_str("ok")
    }

    /// The key of an object to download, or a bad request with the message
    /// that says why it is refused.
    pub fn download_key(key: String) -> (r: AppResult<AssetKey>)
        ensures
            match r {
                Ok(k) => length_ok(key@, 1, 255) && k@ == key@,
                Err(e) => !length_ok(key@, 1, 255) && e@ == (ErrorView {
                    kind: Kind::BadRequest,
                    msg: Some(length_error("S3キー"@, 1, 255)),
                    src: None,
                }),
            },
    {
        match AssetKey::try_from_string(key) {
            Ok(k) => Ok(k),
            Err(e) => Err(Kind::BadRequest.with(e)),
        }
    }

    /// An image in a size is served by the CDN where there is one; anything
    /// else is served by storage.
    pub fn download_source(size: Option<ImageSize>, has_cdn: bool) -> (r: DownloadSource)
        ensures
            r == (match size {
                Some(s) => if has_cdn {
                    DownloadSource::Cdn(s)
                } else {
                    DownloadSource::Storage
                },
                None => DownloadSource::Storage,
            }),
    {
        match size {
            Some(s) => if has_cdn {
                DownloadSource::Cdn(s)
            } else {
                DownloadSource::Storage
            },
            None => DownloadSource::Storage,
        }
    }

    /// The user asked for, given what the lookup found: none is a bad request
    /// with the message `user not found`.
    pub fn user(found: Option<user::User>) -> (r: AppResult<User>)
        ensures
            match found {
                Some(u) => r matches Ok(v) && v.0 == u,
                None => r matches Err(e) && e@ == (ErrorView {
                    kind: Kind::BadRequest,
                    msg: Some("user not found"@),
                    src: None,
                }),
            },
    {
        match found {
            Some(u) => Ok(User(u)),
            None => Err(Kind::BadRequest.with(String::from_str("user not found"))),
        }
    }

    /// The order asked for, given what the lookup found: none is a bad
    /// request with the message `order not found`.
    pub fn order(found: Option<order::Order>) -> (r: AppResult<Order>)
        ensures
            match found {
                Some(o) => r matches Ok(v) && v.0 == o,
                None => r matches Err(e) && e@ == (ErrorView {
                    kind: Kind::BadRequest,
                    msg: Some("order not found"@),
                    src: None,
                }),
            },
    {
        match found {
            Some(o) => Ok(Order(o)),
            None => Err(Kind::BadRequest.with(String::from_str("order not found"))),
        }
    }

    /// Every user, as the API shows them, in the order given.
    pub fn users(users: Vec<user::User>) -> (r: Vec<User>)
        ensures
            r@.len() == users@.len(),
            forall|i: int| 0 <= i < users@.len() ==> r@[i].0 == users@[i],
    {
        let ghost orig = users@;
        let mut rest = users;
        let mut out: Vec<User> = Vec::new();
        let ghost mut i: int = 0;
        proof {
            assert(orig.skip(0) =~= orig);
        }
        while rest.len() > 0
            invariant
                0 <= i <= orig.len(),
                orig == users@,
                rest@ == orig.skip(i),
                out@.len() == i,
                forall|j: int| 0 <= j < i ==> #[trigger] out@[j].0 == orig[j],
            decreases rest@.len(),
        {
            let u = rest.remove(0);
            proof {
                assert(orig.skip(i).remove(0) =~= orig.skip(i + 1));
            }
            out.push(User(u));
            proof {
                i = i + 1;
            }
        }
        out
    }
}

} // verus!
