pub mod detail;

use crate::domain::types::time::{now, LocalDateTime, NANOS_PER_SEC};
use crate::domain::user::{self, User};
use crate::domain::{base62_encode, HasId};
use vstd::prelude::*;

verus! {

/// What the identifiers of orders are typed by.
#[derive(Debug)]
pub struct OrderEntity;

pub type Id = crate::domain::Id<OrderEntity>;

/// An order placed by a user.
#[derive(Debug)]
pub struct Order {
    pub id: Id,
    pub user_id: user::Id,
    pub created_at: LocalDateTime,
    pub updated_at: LocalDateTime,
}

impl Order {
    /// A new order of `user`, with a fresh identifier, created and updated now:
    /// both times are the one reading of the clock.
    pub fn new(user: &User) -> (r: Order)
        ensures
            r.user_id@ == user.id@,
            exists|b: Seq<u8>| b.len() == 16 && r.id@ == #[trigger] base62_encode(b),
            r.created_at@ == r.updated_at@,
            r.created_at@.1 < NANOS_PER_SEC,
            r.updated_at@.1 < NANOS_PER_SEC,
    {
        let t = now();
        Order::new_at(user, t)
    }

    /// A new order of `user`, with a fresh identifier, created and updated at
    /// `now`.
    pub fn new_at(user: &User, now: LocalDateTime) -> (r: Order)
        ensures
            r.user_id@ == user.id@,
            exists|b: Seq<u8>| b.len() == 16 && r.id@ == #[trigger] base62_encode(b),
            r.created_at@ == now@,
            r.updated_at@ == now@,
    {
        Order { id: Id::generate(), user_id: user.id.clone(), created_at: now, updated_at: now }
    }
}

impl HasId for Order {
    type Entity = OrderEntity;

    open spec fn spec_id(&self) -> Seq<char> {
        self.id@
    }

    fn id(&self) -> (r: &Id) {
        &self.id
    }
}

} // verus!
