use crate::domain::order::detail::Detail;
use crate::domain::{order, user};
use crate::errors::{AppResult, ErrorView, Kind};
use crate::graphql::shared::DateTime;
use vstd::prelude::*;

verus! {

/// The signed-in user, as the API shows them.
#[derive(Debug)]
pub struct Me(pub user::User);

impl Me {
    pub fn id(&self) -> (r: String)
        ensures
            r@ == self.0.id@,
    {
        String::from_str(self.0.id.as_str())
    }

    pub fn name(&self) -> (r: String)
        ensures
            r@ == self.0.name@,
    {
        String::from_str(self.0.name.as_str())
    }

    pub fn created_at(&self) -> (r: DateTime)
        ensures
            r.0@ == self.0.created_at@,
    {
        DateTime(self.0.created_at)
    }

    pub fn updated_at(&self) -> (r: DateTime)
        ensures
            r.0@ == self.0.updated_at@,
    {
        DateTime(self.0.updated_at)
    }
}

/// Any user, as the API shows them.
#[derive(Debug)]
pub struct User(pub user::User);

impl User {
    pub fn id(&self) -> (r: String)
        ensures
            r@ == self.0.id@,
    {
        String::from_str(self.0.id.as_str())
    }

    pub fn name(&self) -> (r: String)
        ensures
            r@ == self.0.name@,
    {
        String::from_str(self.0.name.as_str())
    }

    pub fn created_at(&self) -> (r: DateTime)
        ensures
            r.0@ == self.0.created_at@,
    {
        DateTime(self.0.created_at)
    }

    pub fn updated_at(&self) -> (r: DateTime)
        ensures
            r.0@ == self.0.updated_at@,
    {
        DateTime(self.0.updated_at)
    }
}

/// An order, as the API shows it.
#[derive(Debug)]
pub struct Order(pub order::Order);

impl Order {
    pub fn id(&self) -> (r: String)
        ensures
            r@ == self.0.id@,
    {
        String::from_str(self.0.id.as_str())
    }

    /// The identifier by which the order's user is looked up.
    pub fn user_id(&self) -> (r: user::Id)
        ensures
            r@ == self.0.user_id@,
    {
        self.0.user_id.clone()
    }

    /// The order's user, given what the lookup found: none is `NotFound`,
    /// with the message `user not found`.
    pub fn user(found: Option<user::User>) -> (r: AppResult<User>)
        ensures
            match found {
                Some(u) => r matches Ok(v) && v.0 == u,
                None => r matches Err(e) && e@ == (ErrorView {
                    kind: Kind::NotFound,
                    msg: Some("user not found"@),
                    src: None,
                }),
            },
    {
        match found {
            Some(u) => Ok(User(u)),
            None => Err(Kind::NotFound.with(String::from_str("user not found"))),
        }
    }

    /// The order's lines, as the API shows them, in the order given.
    pub fn details(details: Vec<Detail>) -> (r: Vec<OrderDetail>)
        ensures
            r.len() == details.len(),
            forall|i: int| 0 <= i < details.len() ==> r@[i].0 == details@[i],
    {
        let ghost orig = details@;
        let mut rest = details;
        let mut out: Vec<OrderDetail> = Vec::new();
        let ghost mut i: int = 0;
        proof {
            assert(orig.skip(0) =~= orig);
        }
        while rest.len() > 0
            invariant
                0 <= i <= orig.len(),
                orig == details@,
                rest@ == orig.skip(i),
                out@.len() == i,
                forall|j: int| 0 <= j < i ==> #[trigger] out@[j].0 == orig[j],
            decreases rest@.len(),
        {
            let d = rest.remove(0);
            proof {
                assert(orig.skip(i).remove(0) =~= orig.skip(i + 1));
            }
            out.push(OrderDetail(d));
            proof {
                i = i + 1;
            }
        }
        out
    }

    pub fn created_at(&self) -> (r: DateTime)
        ensures
            r.0@ == self.0.created_at@,
    {
        DateTime(self.0.created_at)
    }

    pub fn updated_at(&self) -> (r: DateTime)
        ensures
            r.0@ == self.0.updated_at@,
    {
        DateTime(self.0.updated_at)
    }
}

/// One line of an order, as the API shows it.
#[derive(Debug)]
pub struct OrderDetail(pub Detail);

impl OrderDetail {
    pub fn id(&self) -> (r: String)
        ensures
            r@ == self.0.id@,
    {
        String::from_str(self.0.id.as_str())
    }

    /// The identifier by which the line's order is looked up.
    pub fn order_id(&self) -> (r: order::Id)
        ensures
            r@ == self.0.order_id@,
    {
        self.0.order_id.clone()
    }

    /// The line's order, given what the lookup found: none is a bad request
    /// with the message `order not found`.
    pub fn order(found: Option<order::Order>) -> (r: AppResult<Order>)
        ensures
            match found {
                Some(o) => r matches Ok(v) && v.0 == o,
                None => r matches Err(e) && e@ == (ErrorView {
                    kind: Kind::BadRequest,
                    msg: Some("order not found"@),
                    src: None,
                }),
            },
    {
        match found {
            Some(o) => Ok(Order(o)),
            None => Err(Kind::BadRequest.with(String::from_str("order not found"))),
        }
    }

    pub fn product_name(&self) -> (r: String)
        ensures
            r@ == self.0.product_name@,
    {
        String::from_str(self.0.product_name.as_str())
    }

    pub fn quantity(&self) -> (r: u32)
        ensures
            r == self.0.quantity,
    {
        self.0.quantity
    }

    pub fn created_at(&self) -> (r: DateTime)
        ensures
            r.0@ == self.0.created_at@,
    {
        DateTime(self.0.created_at)
    }

    pub fn updated_at(&self) -> (r: DateTime)
        ensures
            r.0@ == self.0.updated_at@,
    {
        DateTime(self.0.updated_at)
    }
}

} // verus!
