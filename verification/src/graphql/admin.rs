use crate::domain::admin_user;
use crate::errors::{AppResult, ErrorView, Kind};
use crate::graphql::{authorization_error_message, verified_user_id};
use vstd::prelude::*;

verus! {

/// The queries of the administration API.
#[derive(Debug, Default)]
pub struct QueryRoot(pub DefaultQuery);

/// The queries of the administration API that need no grouping.
#[derive(Debug, Default)]
pub struct DefaultQuery;

impl DefaultQuery {
    /// The identifier of the signed-in administrator, or the `Unauthorized`
    /// error of `verified_user_id`.
    pub fn me(auth: &AppResult<admin_user::Id>) -> (r: AppResult<String>)
        ensures
            match *auth {
                Ok(v) => r matches Ok(s) && s@ == v@,
                Err(e) => r matches Err(f) && f@ == (ErrorView {
                    kind: Kind::Unauthorized,
                    msg: Some(authorization_error_message(e@)),
                    src: None,
                }),
            },
    {
        match verified_user_id(auth) {
            Ok(id) => Ok(id.into_string()),
            Err(e) => Err(e),
        }
    }
}

} // verus!
