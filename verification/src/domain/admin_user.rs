use crate::domain::types::email::Email;
use vstd::prelude::*;

verus! {

/// What the identifiers of administrators are typed by.
#[derive(Debug)]
pub struct AdminUserEntity;

pub type Id = crate::domain::Id<AdminUserEntity>;

/// A user of the administration console.
#[derive(Debug)]
pub struct User {
    pub id: Id,
    pub email: Email,
}

} // verus!
