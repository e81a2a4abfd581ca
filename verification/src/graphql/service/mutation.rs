use crate::domain::order::detail::{self, Detail};
use crate::domain::order::Order;
use crate::domain::types::asset_key::AssetKey;
use crate::domain::types::string::{length_error, length_ok};
use crate::domain::{base62_encode, generate_id_str, user};
use crate::errors::{AppResult, ErrorView, Kind};
use vstd::prelude::*;

verus! {

/// The mutations of the API.
#[derive(Debug, Default)]
pub struct MutationRoot(pub DefaultMutation);

/// The mutations of the API that need no grouping.
#[derive(Debug, Default)]
pub struct DefaultMutation;

/// Where in storage an upload goes.
#[derive(Debug, Clone, Copy, PartialEq, Eq, Structural)]
pub enum PreSignUploadPath {
    Asset,
    Temp,
}

/// The directory of storage that a path names.
pub open spec fn path_text(p: PreSignUploadPath) -> Seq<char> {
    match p {
        PreSignUploadPath::Asset => "asset"@,
        PreSignUploadPath::Temp => "tmp"@,
    }
}

impl PreSignUploadPath {
    pub fn path_string(&self) -> (r: String)
        ensures
            r@ == path_text(*self),
    {
        match self {
            PreSignUploadPath::Asset => String::from_str("asset"),
            PreSignUploadPath::Temp => String::from_str("tmp"),
        }
    }
}

#[derive(Debug)]
pub struct PreSignUploadInput {
    pub path: PreSignUploadPath,
}

#[derive(Debug)]
pub struct UserCreateInput {
    pub name: String,
}

#[derive(Debug)]
pub struct UserUpdateInput {
    pub name: String,
}

#[derive(Debug)]
pub struct OrderCreateInput {
    pub details: Vec<OrderDetailCreateInput>,
}

#[derive(Debug)]
pub struct OrderDetailCreateInput {
    pub name: String,
    pub quantity: u32,
}

/// Where an upload goes: the new file's identifier and its key in storage.
#[derive(Debug)]
pub struct UploadTarget {
    pub file_id: String,
    pub key: AssetKey,
}

/// The answer to a request to upload: the file's identifier, its key and the
/// signed URL to put it to.
#[derive(Debug)]
pub struct PreSignUploadPayload {
    pub file_id: String,
    pub key: String,
    pub url: String,
}

/// The key of an upload: `{path}/{user id}/{file id}`.
pub open spec fn upload_key_text(
    path: PreSignUploadPath,
    uid: Seq<char>,
    file_id: Seq<char>,
) -> Seq<char> {
    path_text(path) + "/"@ + uid + "/"@ + file_id
}

/// The message of a product name that is refused.
pub open spec fn invalid_product_name() -> Seq<char> {
    "Invalid product name"@
}

/// A line of an order made from a line of input: its product name, valid,
/// its quantity, and the order it belongs to.
pub open spec fn detail_of(d: Detail, input: OrderDetailCreateInput, order_id: Seq<char>) -> bool {
    &&& length_ok(input.name@, 1, 255)
    &&& d.product_name@ == input.name@
    &&& d.quantity == input.quantity
    &&& d.order_id@ == order_id
}

impl DefaultMutation {
    /// The storage key of an upload; a key of the wrong length is an internal
    /// error whose message says so.
    pub fn upload_key(path: PreSignUploadPath, uid: &user::Id, file_id: &str) -> (r: AppResult<
        AssetKey,
    >)
        ensures
            match r {
                Ok(k) => length_ok(upload_key_text(path, uid@, file_id@), 1, 255) && k@
                    == upload_key_text(path, uid@, file_id@),
                Err(e) => !length_ok(upload_key_text(path, uid@, file_id@), 1, 255) && e@ == (
                ErrorView {
                    kind: Kind::Internal,
                    msg: Some(length_error("S3キー"@, 1, 255)),
                    src: None,
                }),
            },
    {
        let s = path.path_string();
        let s = s.concat("/");
        let s = s.concat(uid.as_str());
        let s = s.concat("/");
        let s = s.concat(file_id);
        match AssetKey::try_from_string(s) {
            Ok(k) => Ok(k),
            Err(e) => Err(Kind::Internal.with(e)),
        }
    }

    /// Where an upload by `uid` goes: a fresh file identifier, 16 random
    /// bytes in base 62, and its key (see `upload_key`).
    pub fn upload_target(path: PreSignUploadPath, uid: &user::Id) -> (r: AppResult<UploadTarget>)
        ensures
            exists|b: Seq<u8>|
                b.len() == 16 && match r {
                    Ok(t) => t.file_id@ == #[trigger] base62_encode(b) && length_ok(
                        upload_key_text(path, uid@, base62_encode(b)),
                        1,
                        255,
                    ) && t.key@ == upload_key_text(path, uid@, base62_encode(b)),
                    Err(e) => !length_ok(upload_key_text(path, uid@, base62_encode(b)), 1, 255)
                        && e@ == (ErrorView {
                        kind: Kind::Internal,
                        msg: Some(length_error("S3キー"@, 1, 255)),
                        src: None,
                    }),
                },
    {
        let file_id = generate_id_str();
        let ghost b = choose|b: Seq<u8>| b.len() == 16 && file_id@ == #[trigger] base62_encode(b);
        match Self::upload_key(path, uid, file_id.as_str()) {
            Ok(key) => {
                let r = Ok(UploadTarget { file_id, key });
                assert(b.len() == 16 && match r {
                    Ok(t) => t.file_id@ == base62_encode(b) && length_ok(
                        upload_key_text(path, uid@, base62_encode(b)),
                        1,
                        255,
                    ) && t.key@ == upload_key_text(path, uid@, base62_encode(b)),
                    Err(e) => false,
                });
                r
            },
            Err(e) => Err(e),
        }
    }

    /// The name of a user being created, or a bad request with the message
    /// that says why it is refused.
    pub fn user_create_name(input: UserCreateInput) -> (r: AppResult<user::Name>)
        ensures
            match r {
                Ok(n) => length_ok(input.name@, 1, 255) && n@ == input.name@,
                Err(e) => !length_ok(input.name@, 1, 255) && e@ == (ErrorView {
                    kind: Kind::BadRequest,
                    msg: Some(length_error("ユーザー名"@, 1, 255)),
                    src: None,
                }),
            },
    {
        match user::Name::try_from_string(input.name) {
            Ok(n) => Ok(n),
            Err(e) => Err(Kind::BadRequest.with(e)),
        }
    }

    /// The new name of a user being updated, as for `user_create_name`.
    pub fn user_update_name(input: UserUpdateInput) -> (r: AppResult<user::Name>)
        ensures
            match r {
                Ok(n) => length_ok(input.name@, 1, 255) && n@ == input.name@,
                Err(e) => !length_ok(input.name@, 1, 255) && e@ == (ErrorView {
                    kind: Kind::BadRequest,
                    msg: Some(length_error("ユーザー名"@, 1, 255)),
                    src: None,
                }),
            },
    {
        match user::Name::try_from_string(input.name) {
            Ok(n) => Ok(n),
            Err(e) => Err(Kind::BadRequest.with(e)),
        }
    }

    /// The lines of a new order, one per line of the input and in its order;
    /// any product name of the wrong length makes the whole order a bad
    /// request with the message `Invalid product name`.
    pub fn order_details(order: &Order, input: &OrderCreateInput) -> (r: AppResult<Vec<Detail>>)
        ensures
            match r {
                Ok(ds) => ds@.len() == input.details@.len() && forall|i: int|
                    0 <= i < ds@.len() ==> detail_of(#[trigger] ds@[i], input.details@[i], order.id@),
                Err(e) => (exists|i: int|
                    0 <= i < input.details@.len() && !length_ok(
                        #[trigger] input.details@[i].name@,
                        1,
                        255,
                    )) && e@ == (ErrorView {
                    kind: Kind::BadRequest,
                    msg: Some(invalid_product_name()),
                    src: None,
                }),
            },
    {
        let n = input.details.len();
        let mut out: Vec<Detail> = Vec::new();
        let mut i: usize = 0;
        while i < n
            invariant
                n == input.details@.len(),
                i <= n,
                out@.len() == i,
                forall|j: int|
                    0 <= j < i ==> detail_of(#[trigger] out@[j], input.details@[j], order.id@),
            decreases n - i,
        {
            let d = &input.details[i];
            match detail::Name::try_from_string(d.name.clone()) {
                Ok(name) => {
                    let det = Detail::new(order, name, d.quantity);
                    let ghost prev = out@;
                    out.push(det);
                    assert(forall|j: int| 0 <= j < i ==> out@[j] == prev[j]);
                    assert(detail_of(out@[i as int], input.details@[i as int], order.id@));
                },
                Err(_) => {
                    assert(!length_ok(input.details@[i as int].name@, 1, 255));
                    return Err(Kind::BadRequest.with(String::from_str("Invalid product name")));
                },
            }
            i = i + 1;
        }
        Ok(out)
    }
}

/// One write of an order's creation, in the transaction that creates it.
#[derive(Debug)]
pub enum OrderWrite {
    Order(Order),
    Detail(Detail),
}

/// The writes that create an order, in the order the transaction makes them:
/// the order first, then each of its lines as given. The transaction is
/// committed after the last; a write that fails ends it unmade.
pub fn order_writes(order: Order, details: Vec<Detail>) -> (r: Vec<OrderWrite>)
    ensures
        r@.len() == details@.len() + 1,
        r@[0] == OrderWrite::Order(order),
        forall|i: int| 0 <= i < details@.len() ==> #[trigger] r@[i + 1] == OrderWrite::Detail(details@[i]),
{
    let ghost orig = details@;
    let mut rest = details;
    let mut out: Vec<OrderWrite> = Vec::new();
    out.push(OrderWrite::Order(order));
    let ghost mut i: int = 0;
    proof {
        assert(orig.skip(0) =~= orig);
    }
    while rest.len() > 0
        invariant
            0 <= i <= orig.len(),
            orig == details@,
            rest@ == orig.skip(i),
            out@.len() == i + 1,
            out@[0] == OrderWrite::Order(order),
            forall|j: int| 0 <= j < i ==> #[trigger] out@[j + 1] == OrderWrite::Detail(orig[j]),
        decreases rest@.len(),
    {
        let d = rest.remove(0);
        proof {
            assert(orig.skip(i).remove(0) =~= orig.skip(i + 1));
        }
        let ghost prev = out@;
        out.push(OrderWrite::Detail(d));
        proof {
            assert(forall|j: int| 0 <= j < i + 1 ==> #[trigger] out@[j] == prev[j]);
            i = i + 1;
        }
    }
    out
}

} // verus!
