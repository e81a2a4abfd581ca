use crate::domain::order::detail::{self, Detail};
use crate::domain::order::{self, Order};
use crate::domain::types::string::{length_error, length_ok};
use crate::domain::types::time::{Date, LocalDateTime};
use crate::domain::user::{self, gender_name, gender_parse, Gender, User};
use crate::errors::{AppResult, ErrorView, Kind};
use vstd::prelude::*;

verus! {

// ---------------------------------------------------------------------------
// Rows as the database stores them
// ---------------------------------------------------------------------------

/// A row of the `users` table.
#[derive(Debug)]
pub struct UserRow {
    pub id: String,
    pub name: String,
    pub birthdate: Date,
    pub gender: String,
    pub created_at: LocalDateTime,
    pub updated_at: LocalDateTime,
}

/// A row of the `orders` table.
#[derive(Debug)]
pub struct OrderRow {
    pub id: String,
    pub user_id: String,
    pub created_at: LocalDateTime,
    pub updated_at: LocalDateTime,
}

/// A row of the `order_details` table.
#[derive(Debug)]
pub struct DetailRow {
    pub id: String,
    pub order_id: String,
    pub product_name: String,
    pub quantity: i32,
    pub created_at: LocalDateTime,
    pub updated_at: LocalDateTime,
}

// ---------------------------------------------------------------------------
// Users
// ---------------------------------------------------------------------------

/// Whether a row holds a user: a name of valid length and a known gender.
pub open spec fn user_row_ok(row: UserRow) -> bool {
    length_ok(row.name@, 1, 255) && gender_parse(row.gender@) is Ok
}

/// Why a row holds no user: the name's message first, else the gender's.
pub open spec fn user_row_error(row: UserRow) -> Seq<char> {
    if !length_ok(row.name@, 1, 255) {
        length_error("ユーザー名"@, 1, 255)
    } else {
        match gender_parse(row.gender@) {
            Err(e) => e,
            Ok(_) => Seq::empty(),
        }
    }
}

/// The user is the one the row holds.
pub open spec fn user_of_row(u: User, row: UserRow) -> bool {
    &&& u.id@ == row.id@
    &&& u.name@ == row.name@
    &&& u.birthdate@ == row.birthdate@
    &&& gender_parse(row.gender@) == Ok::<Gender, Seq<char>>(u.gender)
    &&& u.created_at@ == row.created_at@
    &&& u.updated_at@ == row.updated_at@
}

impl UserRow {
    /// The user the row holds, or the message that says why it holds none.
    pub fn into_user(self) -> (r: Result<User, String>)
        ensures
            match r {
                Ok(u) => user_row_ok(self) && user_of_row(u, self),
                Err(e) => !user_row_ok(self) && e@ == user_row_error(self),
            },
    {
        let ghost row = self;
        let name = match user::Name::try_from_string(self.name) {
            Ok(n) => n,
            Err(e) => return Err(e),
        };
        let gender = match Gender::try_from_string(self.gender) {
            Ok(g) => g,
            Err(e) => return Err(e),
        };
        Ok(
            User {
                id: user::Id::new(self.id),
                name,
                birthdate: self.birthdate,
                gender,
                created_at: self.created_at,
                updated_at: self.updated_at,
            },
        )
    }

    /// The row that stores a user; the gender is stored by its name.
    pub fn from_user(u: User) -> (r: UserRow)
        ensures
            r.id@ == u.id@,
            r.name@ == u.name@,
            r.birthdate@ == u.birthdate@,
            r.gender@ == gender_name(u.gender),
            r.created_at@ == u.created_at@,
            r.updated_at@ == u.updated_at@,
    {
        UserRow {
            id: u.id.into_string(),
            name: u.name.into_string(),
            birthdate: u.birthdate,
            gender: u.gender.into_string(),
            created_at: u.created_at,
            updated_at: u.updated_at,
        }
    }
}

/// Every row is read back as the user it stores.
pub proof fn lemma_user_row_roundtrip(u: User, row: UserRow)
    requires
        length_ok(u.name@, 1, 255),
        row.id@ == u.id@,
        row.name@ == u.name@,
        row.birthdate@ == u.birthdate@,
        row.gender@ == gender_name(u.gender),
        row.created_at@ == u.created_at@,
        row.updated_at@ == u.updated_at@,
    ensures
        user_row_ok(row),
        forall|v: User| user_of_row(v, row) ==> v.id@ == u.id@ && v.name@ == u.name@ && v.gender
            == u.gender && v.birthdate@ == u.birthdate@ && v.created_at@ == u.created_at@
            && v.updated_at@ == u.updated_at@,
{
    crate::domain::user::lemma_gender_roundtrip(u.gender);
}

/// The users the rows hold, in their order; the first row that holds none
/// makes it an internal error with that row's message.
pub fn users_from_rows(rows: Vec<UserRow>) -> (r: AppResult<Vec<User>>)
    ensures
        match r {
            Ok(us) => us@.len() == rows@.len() && forall|i: int|
                0 <= i < rows@.len() ==> user_row_ok(rows@[i]) && user_of_row(
                    #[trigger] us@[i],
                    rows@[i],
                ),
            Err(e) => exists|i: int|
                0 <= i < rows@.len() && !user_row_ok(#[trigger] rows@[i]) && (forall|j: int|
                    0 <= j < i ==> user_row_ok(rows@[j])) && e@ == (ErrorView {
                    kind: Kind::Internal,
                    msg: Some(user_row_error(rows@[i])),
                    src: None,
                }),
        },
{
    let ghost orig = rows@;
    let mut rest = rows;
    let mut out: Vec<User> = Vec::new();
    let ghost mut i: int = 0;
    proof {
        assert(orig.skip(0) =~= orig);
    }
    while rest.len() > 0
        invariant
            0 <= i <= orig.len(),
            orig == rows@,
            rest@ == orig.skip(i),
            out@.len() == i,
            forall|j: int| 0 <= j < i ==> user_row_ok(#[trigger] orig[j]),
            forall|j: int| 0 <= j < i ==> user_of_row(#[trigger] out@[j], orig[j]),
        decreases rest@.len(),
    {
        let row = rest.remove(0);
        proof {
            assert(row == orig[i]);
            assert(orig.skip(i).remove(0) =~= orig.skip(i + 1));
        }
        match row.into_user() {
            Ok(u) => {
                let ghost prev = out@;
                out.push(u);
                proof {
                    assert(forall|j: int| 0 <= j < i ==> out@[j] == prev[j]);
                    i = i + 1;
                }
            },
            Err(e) => {
                let err = Kind::Internal.with(e);
                assert(!user_row_ok(orig[i]));
                assert(forall|j: int| 0 <= j < i ==> user_row_ok(orig[j]));
                return Err(err);
            },
        }
    }
    proof {
        assert(i == orig.len());
    }
    Ok(out)
}

/// The user of a lookup by identifier: no row is `NotFound`; a row that
/// holds no user is an internal error with its message.
pub fn user_from_row(row: Option<UserRow>) -> (r: AppResult<User>)
    ensures
        match row {
            None => r matches Err(e) && e@ == (ErrorView { kind: Kind::NotFound, msg: None, src: None }),
            Some(w) => match r {
                Ok(u) => user_row_ok(w) && user_of_row(u, w),
                Err(e) => !user_row_ok(w) && e@ == (ErrorView {
                    kind: Kind::Internal,
                    msg: Some(user_row_error(w)),
                    src: None,
                }),
            },
        },
{
    match row {
        None => Err(Kind::NotFound.default()),
        Some(w) => match w.into_user() {
            Ok(u) => Ok(u),
            Err(e) => Err(Kind::Internal.with(e)),
        },
    }
}

// ---------------------------------------------------------------------------
// Orders
// ---------------------------------------------------------------------------

/// The order is the one the row holds.
pub open spec fn order_of_row(o: Order, row: OrderRow) -> bool {
    &&& o.id@ == row.id@
    &&& o.user_id@ == row.user_id@
    &&& o.created_at@ == row.created_at@
    &&& o.updated_at@ == row.updated_at@
}

impl OrderRow {
    /// The order the row holds; every row holds one.
    pub fn into_order(self) -> (r: Order)
        ensures
            order_of_row(r, self),
    {
        Order {
            id: order::Id::new(self.id),
            user_id: user::Id::new(self.user_id),
            created_at: self.created_at,
            updated_at: self.updated_at,
        }
    }

    /// The row that stores an order.
    pub fn from_order(o: Order) -> (r: OrderRow)
        ensures
            order_of_row(o, r),
    {
        OrderRow {
            id: o.id.into_string(),
            user_id: o.user_id.into_string(),
            created_at: o.created_at,
            updated_at: o.updated_at,
        }
    }
}

/// The orders the rows hold, in their order.
pub fn orders_from_rows(rows: Vec<OrderRow>) -> (r: Vec<Order>)
    ensures
        r@.len() == rows@.len(),
        forall|i: int| 0 <= i < rows@.len() ==> order_of_row(#[trigger] r@[i], rows@[i]),
{
    let ghost orig = rows@;
    let mut rest = rows;
    let mut out: Vec<Order> = Vec::new();
    let ghost mut i: int = 0;
    proof {
        assert(orig.skip(0) =~= orig);
    }
    while rest.len() > 0
        invariant
            0 <= i <= orig.len(),
            orig == rows@,
            rest@ == orig.skip(i),
            out@.len() == i,
            forall|j: int| 0 <= j < i ==> order_of_row(#[trigger] out@[j], orig[j]),
        decreases rest@.len(),
    {
        let row = rest.remove(0);
        proof {
            assert(row == orig[i]);
            assert(orig.skip(i).remove(0) =~= orig.skip(i + 1));
        }
        let o = row.into_order();
        let ghost prev = out@;
        out.push(o);
        proof {
            assert(forall|j: int| 0 <= j < i ==> out@[j] == prev[j]);
            i = i + 1;
        }
    }
    out
}

/// The order of a lookup by identifier: no row is `NotFound`.
pub fn order_from_row(row: Option<OrderRow>) -> (r: AppResult<Order>)
    ensures
        match row {
            None => r matches Err(e) && e@ == (ErrorView { kind: Kind::NotFound, msg: None, src: None }),
            Some(w) => r matches Ok(o) && order_of_row(o, w),
        },
{
    match row {
        None => Err(Kind::NotFound.default()),
        Some(w) => Ok(w.into_order()),
    }
}

// ---------------------------------------------------------------------------
// Order lines
// ---------------------------------------------------------------------------

/// The line is the one the row holds; the stored quantity is read as an
/// unsigned number, bit for bit.
pub open spec fn detail_of_row(d: Detail, row: DetailRow) -> bool {
    &&& d.id@ == row.id@
    &&& d.order_id@ == row.order_id@
    &&& d.product_name@ == row.product_name@
    &&& d.quantity == row.quantity as u32
    &&& d.created_at@ == row.created_at@
    &&& d.updated_at@ == row.updated_at@
}

impl DetailRow {
    /// The line the row holds, or the message that says why its product name
    /// is refused.
    pub fn into_detail(self) -> (r: Result<Detail, String>)
        ensures
            match r {
                Ok(d) => length_ok(self.product_name@, 1, 255) && detail_of_row(d, self),
                Err(e) => !length_ok(self.product_name@, 1, 255) && e@ == length_error(
                    "商品名"@,
                    1,
                    255,
                ),
            },
    {
        let name = match detail::Name::try_from_string(self.product_name) {
            Ok(n) => n,
            Err(e) => return Err(e),
        };
        Ok(
            Detail {
                id: detail::Id::new(self.id),
                order_id: order::Id::new(self.order_id),
                product_name: name,
                quantity: self.quantity as u32,
                created_at: self.created_at,
                updated_at: self.updated_at,
            },
        )
    }

    /// The row that stores a line; the quantity is stored as a signed
    /// number, bit for bit.
    pub fn from_detail(d: Detail) -> (r: DetailRow)
        ensures
            r.id@ == d.id@,
            r.order_id@ == d.order_id@,
            r.product_name@ == d.product_name@,
            r.quantity == d.quantity as i32,
            r.created_at@ == d.created_at@,
            r.updated_at@ == d.updated_at@,
    {
        DetailRow {
            id: d.id.into_string(),
            order_id: d.order_id.into_string(),
            product_name: d.product_name.into_string(),
            quantity: d.quantity as i32,
            created_at: d.created_at,
            updated_at: d.updated_at,
        }
    }
}

/// A line written to a row and read back is the same line: the quantity
/// survives the signed column whatever its value.
pub proof fn lemma_detail_row_roundtrip(d: Detail, row: DetailRow)
    requires
        length_ok(d.product_name@, 1, 255),
        row.id@ == d.id@,
        row.order_id@ == d.order_id@,
        row.product_name@ == d.product_name@,
        row.quantity == d.quantity as i32,
        row.created_at@ == d.created_at@,
        row.updated_at@ == d.updated_at@,
    ensures
        length_ok(row.product_name@, 1, 255),
        forall|v: Detail| detail_of_row(v, row) ==> v.id@ == d.id@ && v.order_id@ == d.order_id@
            && v.product_name@ == d.product_name@ && v.quantity == d.quantity && v.created_at@
            == d.created_at@ && v.updated_at@ == d.updated_at@,
{
    let q = d.quantity;
    assert(((q as i32) as u32) == q) by (bit_vector);
}

/// An order written to a row and read back is the same order.
pub proof fn lemma_order_row_roundtrip(o: Order, row: OrderRow, back: Order)
    requires
        order_of_row(o, row),
        order_of_row(back, row),
    ensures
        back.id@ == o.id@,
        back.user_id@ == o.user_id@,
        back.created_at@ == o.created_at@,
        back.updated_at@ == o.updated_at@,
{
}

/// The lines the rows hold, in their order; the first row whose product name
/// is refused makes it an internal error with that message.
pub fn details_from_rows(rows: Vec<DetailRow>) -> (r: AppResult<Vec<Detail>>)
    ensures
        match r {
            Ok(ds) => ds@.len() == rows@.len() && forall|i: int|
                0 <= i < rows@.len() ==> length_ok(rows@[i].product_name@, 1, 255)
                    && detail_of_row(#[trigger] ds@[i], rows@[i]),
            Err(e) => exists|i: int|
                0 <= i < rows@.len() && !length_ok(
                    #[trigger] rows@[i].product_name@,
                    1,
                    255,
                ) && (forall|j: int| 0 <= j < i ==> length_ok(rows@[j].product_name@, 1, 255))
                    && e@ == (ErrorView {
                    kind: Kind::Internal,
                    msg: Some(length_error("商品名"@, 1, 255)),
                    src: None,
                }),
        },
{
    let ghost orig = rows@;
    let mut rest = rows;
    let mut out: Vec<Detail> = Vec::new();
    let ghost mut i: int = 0;
    proof {
        assert(orig.skip(0) =~= orig);
    }
    while rest.len() > 0
        invariant
            0 <= i <= orig.len(),
            orig == rows@,
            rest@ == orig.skip(i),
            out@.len() == i,
            forall|j: int| 0 <= j < i ==> length_ok(#[trigger] orig[j].product_name@, 1, 255),
            forall|j: int| 0 <= j < i ==> detail_of_row(#[trigger] out@[j], orig[j]),
        decreases rest@.len(),
    {
        let row = rest.remove(0);
        proof {
            assert(row == orig[i]);
            assert(orig.skip(i).remove(0) =~= orig.skip(i + 1));
        }
        match row.into_detail() {
            Ok(d) => {
                let ghost prev = out@;
                out.push(d);
                proof {
                    assert(forall|j: int| 0 <= j < i ==> out@[j] == prev[j]);
                    i = i + 1;
                }
            },
            Err(e) => {
                let err = Kind::Internal.with(e);
                assert(!length_ok(orig[i].product_name@, 1, 255));
                assert(forall|j: int| 0 <= j < i ==> length_ok(orig[j].product_name@, 1, 255));
                return Err(err);
            },
        }
    }
    Ok(out)
}

} // verus!
