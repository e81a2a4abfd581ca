use crate::domain::types::asset_key::AssetKey;
use crate::errors::{AppResult, ErrorView, Kind};
use vstd::prelude::*;

verus! {

/// How long a presigned URL stays valid, in seconds.
pub const PRESIGN_EXPIRES_SECS: u64 = 3600;

/// What a storage adapter reports of an object that exists.
#[derive(Debug)]
pub struct HeadObjectResponse {
    pub s3_path: String,
}

/// How a `HeadObject` request ended.
pub enum HeadOutcome {
    Found,
    NotFound,
    Failed(String),
}

/// How a `CopyObject` request ended.
pub enum CopyOutcome {
    Copied,
    NoResult,
    Failed(String),
}

/// The `s3://` path of an object.
pub open spec fn s3_path_of(bucket: Seq<char>, key: Seq<char>) -> Seq<char> {
    "s3://"@ + bucket + "/"@ + key
}

/// The answer to a `HeadObject` request: the object's `s3://` path when it
/// exists, `NotFound` when it does not, an internal error with the text of any
/// other failure.
pub fn head_object_result(bucket: &str, key: &AssetKey, outcome: HeadOutcome) -> (r: AppResult<
    HeadObjectResponse,
>)
    ensures
        match outcome {
            HeadOutcome::Found => r matches Ok(h) && h.s3_path@ == s3_path_of(bucket@, key@),
            HeadOutcome::NotFound => r matches Err(e) && e@ == (ErrorView {
                kind: Kind::NotFound,
                msg: None,
                src: None,
            }),
            HeadOutcome::Failed(t) => r matches Err(e) && e@ == (ErrorView {
                kind: Kind::Internal,
                msg: None,
                src: Some(t@),
            }),
        },
{
    match outcome {
        HeadOutcome::Found => {
            let p = String::from_str("s3://");
            let p = p.concat(bucket);
            let p = p.concat("/");
            Ok(HeadObjectResponse { s3_path: p.concat(key.as_str()) })
        },
        HeadOutcome::NotFound => Err(Kind::NotFound.into_err()),
        HeadOutcome::Failed(t) => Err(Kind::Internal.from_src(t)),
    }
}

/// The source of a copy within a bucket: `{bucket}/{key}`.
pub fn copy_source(bucket: &str, key: &AssetKey) -> (r: String)
    ensures
        r@ == bucket@ + "/"@ + key@,
{
    let s = String::from_str(bucket);
    let s = s.concat("/");
    s.concat(key.as_str())
}

/// The answer to a `CopyObject` request: success when the copy reports a
/// result, a bad request when it reports none, an internal error with the text
/// of a failure.
pub fn copy_object_result(outcome: CopyOutcome) -> (r: AppResult<()>)
    ensures
        match outcome {
            CopyOutcome::Copied => r is Ok,
            CopyOutcome::NoResult => r matches Err(e) && e@ == (ErrorView {
                kind: Kind::BadRequest,
                msg: None,
                src: None,
            }),
            CopyOutcome::Failed(t) => r matches Err(e) && e@ == (ErrorView {
                kind: Kind::Internal,
                msg: None,
                src: Some(t@),
            }),
        },
{
    match outcome {
        CopyOutcome::Copied => Ok(()),
        CopyOutcome::NoResult => Err(Kind::BadRequest.into_err()),
        CopyOutcome::Failed(t) => Err(Kind::Internal.from_src(t)),
    }
}

} // verus!
