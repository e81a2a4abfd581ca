pub mod mutation;
pub mod query;
pub mod types;

use crate::domain::user::User;
use crate::errors::{AppResult, ErrorView, Kind};
use vstd::prelude::*;

verus! {

/// The user whom the verified identifier names, given what the user store
/// answered for it: a user that is not found makes the request unauthorized
/// with the message `ユーザーが存在しません`; any other error is passed on.
pub fn verified_user(found: AppResult<User>) -> (r: AppResult<User>)
    ensures
        match found {
            Ok(u) => r == Ok::<User, crate::errors::AppError>(u),
            Err(e) => if e.kind == Kind::NotFound {
                r matches Err(f) && f@ == (ErrorView {
                    kind: Kind::Unauthorized,
                    msg: Some("ユーザーが存在しません"@),
                    src: None,
                })
            } else {
                r == Err::<User, crate::errors::AppError>(e)
            },
        },
{
    match crate::errors::not_found_to_none(found) {
        Ok(Some(u)) => Ok(u),
        Ok(None) => Err(Kind::Unauthorized.with(String::from_str("ユーザーが存在しません"))),
        Err(e) => Err(e),
    }
}

/// The user a request runs as, looked up once per request: empty until a
/// lookup finds the user, then kept for the rest of the request.
pub struct AuthorizedUser {
    user: Option<User>,
}

impl AuthorizedUser {
    /// Nothing looked up yet.
    pub fn new() -> (r: AuthorizedUser)
        ensures
            r.spec_user() is None,
    {
        AuthorizedUser { user: None }
    }

    pub closed spec fn spec_user(&self) -> Option<User> {
        self.user
    }

    /// The user kept from an earlier lookup of this request, if any; when
    /// there is none, the caller looks the user up and hands the answer to
    /// `settle`.
    pub fn get(&self) -> (r: Option<&User>)
        ensures
            match self.spec_user() {
                Some(u) => r == Some(&u),
                None => r is None,
            },
    {
        match &self.user {
            Some(u) => Some(u),
            None => None,
        }
    }

    /// Takes in what the user store answered for the verified identifier
    /// (see `verified_user`): a user found is kept and the request may go on;
    /// a user not found makes it unauthorized and nothing is kept, so a later
    /// call looks again; any other error is passed on, nothing kept.
    pub fn settle(&mut self, found: AppResult<User>) -> (r: AppResult<()>)
        requires
            old(self).spec_user() is None,
        ensures
            match found {
                Ok(u) => r is Ok && final(self).spec_user() == Some(u),
                Err(e) => final(self).spec_user() is None && if e.kind == Kind::NotFound {
                    r matches Err(f) && f@ == (ErrorView {
                        kind: Kind::Unauthorized,
                        msg: Some("ユーザーが存在しません"@),
                        src: None,
                    })
                } else {
                    r == Err::<(), crate::errors::AppError>(e)
                },
            },
    {
        match verified_user(found) {
            Ok(u) => {
                self.user = Some(u);
                Ok(())
            },
            Err(e) => Err(e),
        }
    }
}

} // verus!
