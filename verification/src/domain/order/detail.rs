use crate::domain::order::{self, Order};
use crate::domain::types::string::{check_length, length_error, length_ok, FromUnchecked};
use crate::domain::types::time::{now, LocalDateTime, NANOS_PER_SEC};
use crate::domain::{base62_encode, HasId};
use vstd::prelude::*;

verus! {

/// What the identifiers of order lines are typed by.
#[derive(Debug)]
pub struct DetailEntity;

pub type Id = crate::domain::Id<DetailEntity>;

/// One line of an order: a product and how many of it.
#[derive(Debug)]
pub struct Detail {
    pub id: Id,
    pub order_id: order::Id,
    pub product_name: Name,
    pub quantity: u32,
    pub created_at: LocalDateTime,
    pub updated_at: LocalDateTime,
}

impl Detail {
    /// A new line of `order`, with a fresh identifier, created and updated now:
    /// both times are the one reading of the clock.
    pub fn new(order: &Order, product_name: Name, quantity: u32) -> (r: Detail)
        ensures
            r.order_id@ == order.id@,
            r.product_name@ == product_name@,
            r.quantity == quantity,
            exists|b: Seq<u8>| b.len() == 16 && r.id@ == #[trigger] base62_encode(b),
            r.created_at@ == r.updated_at@,
            r.created_at@.1 < NANOS_PER_SEC,
            r.updated_at@.1 < NANOS_PER_SEC,
    {
        let t = now();
        Detail::new_at(order, product_name, quantity, t)
    }

    /// A new line of `order`, with a fresh identifier, created and updated at
    /// `now`.
    pub fn new_at(order: &Order, product_name: Name, quantity: u32, now: LocalDateTime) -> (r: Detail)
        ensures
            r.order_id@ == order.id@,
            r.product_name@ == product_name@,
            r.quantity == quantity,
            exists|b: Seq<u8>| b.len() == 16 && r.id@ == #[trigger] base62_encode(b),
            r.created_at@ == now@,
            r.updated_at@ == now@,
    {
        Detail {
            id: Id::generate(),
            order_id: order.id.clone(),
            product_name,
            quantity,
            created_at: now,
            updated_at: now,
        }
    }
}

impl HasId for Detail {
    type Entity = DetailEntity;

    open spec fn spec_id(&self) -> Seq<char> {
        self.id@
    }

    fn id(&self) -> (r: &Id) {
        &self.id
    }
}

/// The name of a product, from 1 to 255 characters.
#[derive(Debug)]
pub struct Name(String);

impl View for Name {
    type V = Seq<char>;

    closed spec fn view(&self) -> Seq<char> {
        self.0@
    }
}

impl FromUnchecked<String> for Name {
    fn from_unchecked(value: String) -> (r: Name)
        ensures
            r@ == value@,
    {
        Name(value)
    }
}

impl Name {
    /// The name when its length is from 1 to 255 characters.
    pub fn try_from_string(value: String) -> (r: Result<Name, String>)
        ensures
            match r {
                Ok(n) => n@ == value@ && length_ok(value@, 1, 255),
                Err(e) => !length_ok(value@, 1, 255) && e@ == length_error("商品名"@, 1, 255),
            },
    {
        match check_length(value, "商品名", 1, 255) {
            Ok(v) => Ok(Name(v)),
            Err(e) => Err(e),
        }
    }

    pub fn as_str(&self) -> (r: &str)
        ensures
            r@ == self@,
    {
        self.0.as_str()
    }

    pub fn into_string(self) -> (r: String)
        ensures
            r@ == self@,
    {
        self.0
    }
}

} // verus!
