use rust_app::domain::order::detail::{self, Detail};
use rust_app::domain::order::Order;
use rust_app::domain::types::image_size::ImageSize;
use rust_app::domain::types::time::{Date, LocalDateTime, ToTimestamp};
use rust_app::domain::{admin_user, user};
use rust_app::errors::{AppError, AppResult, Kind};
use rust_app::graphql::admin;
use rust_app::graphql::data_loader::{group_by_order, partition_by_order};
use rust_app::graphql::service::mutation::{
    order_writes, DefaultMutation, OrderWrite, OrderCreateInput, OrderDetailCreateInput, PreSignUploadPath, UserCreateInput,
    UserUpdateInput,
};
use rust_app::graphql::service::query::{DefaultQuery, DownloadSource};
use rust_app::graphql::service::types::{Me, Order as OrderView, OrderDetail};
use rust_app::graphql::service::{verified_user, AuthorizedUser};
use rust_app::graphql::shared::{self, BoolPayload, GenderValue, ItemPayload, ListPayload};
use rust_app::graphql::{
    auth_step, bearer_token, debug_user_id, header_text, request_identity, verified_user_id, AuthStep,
};
use rust_app::domain::user::{Gender, User};

fn sample_user(id: &str) -> User {
    User::new(
        user::Id::from_str(id),
        user::Name::try_from_string("alice".to_string()).unwrap(),
        Date::from_ymd_opt(1990, 1, 1).unwrap(),
        Gender::Male,
    )
}

fn line(order: &Order, name: &str, q: u32) -> Detail {
    Detail::new(order, detail::Name::try_from_string(name.to_string()).unwrap(), q)
}

fn parts(e: &AppError) -> (Kind, Option<&str>, Option<&str>) {
    (e.kind, e.msg.as_deref(), e.src.as_deref())
}

#[test]
fn header_text_accepts_visible_ascii_and_tabs() {
    assert_eq!(header_text(b"Bearer a.b-c_d".to_vec()), Some("Bearer a.b-c_d".to_string()));
    assert_eq!(header_text(b"a\tb ~".to_vec()), Some("a\tb ~".to_string()));
    assert_eq!(header_text(Vec::new()), Some(String::new()));
    assert_eq!(header_text(vec![b'a', 0x7f]), None);
    assert_eq!(header_text(vec![b'a', b'\n']), None);
    assert_eq!(header_text("é".as_bytes().to_vec()), None);
}

#[test]
fn bearer_tokens() {
    assert_eq!(bearer_token(b"Bearer abc.def".to_vec()).unwrap(), "abc.def");
    assert_eq!(bearer_token(b"Bearer ".to_vec()).unwrap(), "");
    let e = bearer_token(b"Basic abc".to_vec()).unwrap_err();
    assert_eq!(parts(&e), (Kind::BadRequest, Some("invalid authorization header"), None));
    let e = bearer_token(b"bearer abc".to_vec()).unwrap_err();
    assert_eq!(parts(&e), (Kind::BadRequest, Some("invalid authorization header"), None));
    let e = bearer_token(vec![b'B', 0xff]).unwrap_err();
    assert_eq!(parts(&e), (Kind::BadRequest, None, Some("failed to convert header to a str")));
}

#[test]
fn authorization_steps() {
    match auth_step(Some(b"Bearer tok".to_vec()), true) {
        AuthStep::Verify(t) => assert_eq!(t, "tok"),
        AuthStep::Reject(_) => panic!("expected a token to verify"),
    }
    match auth_step(Some(b"Bearer tok".to_vec()), false) {
        AuthStep::Reject(e) => assert_eq!(parts(&e), (Kind::Unauthorized, None, None)),
        AuthStep::Verify(_) => panic!("no service to verify with"),
    }
    match auth_step(None, true) {
        AuthStep::Reject(e) => assert_eq!(parts(&e), (Kind::Unauthorized, None, None)),
        AuthStep::Verify(_) => panic!("no header"),
    }
    match auth_step(Some(b"Token x".to_vec()), true) {
        AuthStep::Reject(e) => {
            assert_eq!(parts(&e), (Kind::BadRequest, Some("invalid authorization header"), None))
        }
        AuthStep::Verify(_) => panic!("bad header"),
    }
}

#[test]
fn debug_user_header() {
    let id: Option<user::Id> = debug_user_id(Some(b"u-42".to_vec()));
    assert_eq!(id.unwrap().as_str(), "u-42");
    let id: Option<user::Id> = debug_user_id(Some(vec![0x80]));
    assert!(id.is_none());
    let id: Option<user::Id> = debug_user_id(None);
    assert!(id.is_none());
}

#[test]
fn debug_header_overrides_authorization() {
    let failed: AppResult<user::Id> = Err(Kind::Unauthorized.into_err());
    let r = request_identity(failed, debug_user_id(Some(b"debugger".to_vec())));
    assert_eq!(r.unwrap().as_str(), "debugger");
    let ok: AppResult<user::Id> = Ok(user::Id::from_str("u1"));
    assert_eq!(request_identity(ok, None).unwrap().as_str(), "u1");
    let failed: AppResult<user::Id> = Err(Kind::Unauthorized.into_err());
    assert_eq!(request_identity(failed, None).unwrap_err().kind, Kind::Unauthorized);
}

#[test]
fn verified_user_ids() {
    let ok: AppResult<user::Id> = Ok(user::Id::from_str("u1"));
    assert_eq!(verified_user_id(&ok).unwrap().as_str(), "u1");
    let failed: AppResult<user::Id> = Err(Kind::BadRequest.with("invalid authorization header".to_string()));
    let e = verified_user_id(&failed).unwrap_err();
    assert_eq!(
        parts(&e),
        (Kind::Unauthorized, Some("authorization error: invalid authorization header"), None)
    );
    let bare: AppResult<user::Id> = Err(Kind::Unauthorized.into_err());
    let e = verified_user_id(&bare).unwrap_err();
    assert_eq!(e.msg.as_deref(), Some("authorization error: Unauthorized"));
}

#[test]
fn verified_users() {
    let u = verified_user(Ok(sample_user("u1"))).unwrap();
    assert_eq!(u.id.as_str(), "u1");
    let e = verified_user(Err(Kind::NotFound.into_err())).unwrap_err();
    assert_eq!(parts(&e), (Kind::Unauthorized, Some("ユーザーが存在しません"), None));
    let e = verified_user(Err(Kind::Internal.from_src("db down".to_string()))).unwrap_err();
    assert_eq!(parts(&e), (Kind::Internal, None, Some("db down")));
}

#[test]
fn admin_me() {
    let ok: AppResult<admin_user::Id> = Ok(admin_user::Id::from_str("admin"));
    assert_eq!(admin::DefaultQuery::me(&ok).unwrap(), "admin");
    let failed: AppResult<admin_user::Id> = Err(Kind::Unauthorized.into_err());
    let e = admin::DefaultQuery::me(&failed).unwrap_err();
    assert_eq!(e.kind, Kind::Unauthorized);
}

#[test]
fn upload_paths_and_keys() {
    assert_eq!(PreSignUploadPath::Asset.path_string(), "asset");
    assert_eq!(PreSignUploadPath::Temp.path_string(), "tmp");
    let uid = user::Id::from_str("u1");
    let k = DefaultMutation::upload_key(PreSignUploadPath::Temp, &uid, "f1").unwrap();
    assert_eq!(k.as_str(), "tmp/u1/f1");
    let long = "x".repeat(300);
    let e = DefaultMutation::upload_key(PreSignUploadPath::Asset, &uid, &long).unwrap_err();
    assert_eq!(parts(&e), (Kind::Internal, Some("S3キーは1文字以上255文字以下で入力してください"), None));
    let t = DefaultMutation::upload_target(PreSignUploadPath::Asset, &uid).unwrap();
    assert_eq!(t.file_id.chars().count(), 22);
    assert_eq!(t.key.as_str(), format!("asset/u1/{}", t.file_id));
}

#[test]
fn user_name_inputs() {
    let n = DefaultMutation::user_create_name(UserCreateInput { name: "bob".to_string() }).unwrap();
    assert_eq!(n.as_str(), "bob");
    let e = DefaultMutation::user_update_name(UserUpdateInput { name: String::new() }).unwrap_err();
    assert_eq!(parts(&e), (Kind::BadRequest, Some("ユーザー名は1文字以上255文字以下で入力してください"), None));
}

#[test]
fn order_lines_from_input() {
    let order = Order::new(&sample_user("u1"));
    let input = OrderCreateInput {
        details: vec![
            OrderDetailCreateInput { name: "apple".to_string(), quantity: 2 },
            OrderDetailCreateInput { name: "pear".to_string(), quantity: 5 },
        ],
    };
    let ds = DefaultMutation::order_details(&order, &input).unwrap();
    assert_eq!(ds.len(), 2);
    assert_eq!((ds[0].product_name.as_str(), ds[0].quantity), ("apple", 2));
    assert_eq!((ds[1].product_name.as_str(), ds[1].quantity), ("pear", 5));
    assert!(ds.iter().all(|d| d.order_id.as_str() == order.id.as_str()));

    let bad = OrderCreateInput {
        details: vec![
            OrderDetailCreateInput { name: "apple".to_string(), quantity: 2 },
            OrderDetailCreateInput { name: String::new(), quantity: 1 },
        ],
    };
    let e = DefaultMutation::order_details(&order, &bad).unwrap_err();
    assert_eq!(parts(&e), (Kind::BadRequest, Some("Invalid product name"), None));
    let empty = OrderCreateInput { details: vec![] };
    assert!(DefaultMutation::order_details(&order, &empty).unwrap().is_empty());
}

#[test]
fn queries() {
    assert_eq!(DefaultQuery::health(), "ok");
    assert_eq!(DefaultQuery::download_key("a/b.png".to_string()).unwrap().as_str(), "a/b.png");
    let e = DefaultQuery::download_key(String::new()).unwrap_err();
    assert_eq!(parts(&e), (Kind::BadRequest, Some("S3キーは1文字以上255文字以下で入力してください"), None));
    assert_eq!(DefaultQuery::download_source(Some(ImageSize::Small), true), DownloadSource::Cdn(ImageSize::Small));
    assert_eq!(DefaultQuery::download_source(Some(ImageSize::Small), false), DownloadSource::Storage);
    assert_eq!(DefaultQuery::download_source(None, true), DownloadSource::Storage);
    assert_eq!(DefaultQuery::user(Some(sample_user("u9"))).unwrap().id(), "u9");
    let e = DefaultQuery::user(None).unwrap_err();
    assert_eq!(parts(&e), (Kind::BadRequest, Some("user not found"), None));
    let e = DefaultQuery::order(None).unwrap_err();
    assert_eq!(parts(&e), (Kind::BadRequest, Some("order not found"), None));
    let users = DefaultQuery::users(vec![sample_user("a"), sample_user("b"), sample_user("c")]);
    let ids: Vec<String> = users.iter().map(|u| u.id()).collect();
    assert_eq!(ids, vec!["a", "b", "c"]);
}

#[test]
fn output_types() {
    let u = sample_user("u1");
    let created = u.created_at.to_timestamp();
    let me = Me(u);
    assert_eq!(me.id(), "u1");
    assert_eq!(me.name(), "alice");
    assert_eq!(me.created_at().0.to_timestamp(), created);
    let order = Order::new(&me.0);
    let view = OrderView(order);
    assert_eq!(view.user_id().as_str(), "u1");
    let d1 = line(&view.0, "apple", 1);
    let d2 = line(&view.0, "pear", 2);
    let lines = OrderView::details(vec![d1, d2]);
    assert_eq!(lines.iter().map(|d| d.product_name()).collect::<Vec<_>>(), vec!["apple", "pear"]);
    assert_eq!(lines[1].quantity(), 2);
    assert_eq!(lines[0].order_id().as_str(), view.id());
    let e = OrderView::user(None).unwrap_err();
    assert_eq!(parts(&e), (Kind::NotFound, Some("user not found"), None));
    let e = OrderDetail::order(None).unwrap_err();
    assert_eq!(parts(&e), (Kind::BadRequest, Some("order not found"), None));
}

#[test]
fn shared_types() {
    assert_eq!(BoolPayload::from(true), BoolPayload { is_ok: true });
    let list = ListPayload::from_items(vec![1, 2, 3]);
    assert_eq!(list.items, vec![1, 2, 3]);
    assert_eq!(list.total_count, None);
    assert_eq!(ItemPayload::from_item(7).item, 7);
    let d = shared::Date::parse("2024-01-31").unwrap();
    assert_eq!(d.to_value(), "2024-01-31");
    assert!(shared::Date::parse("2024-02-31").is_err());
    let t = shared::DateTime(LocalDateTime::from_parts(0, 0, 0).unwrap());
    assert_eq!(t.to_value(), "1970-01-01T00:00:00+00:00");
    assert!(shared::DateTime::parse("nonsense").is_err());
    let g = GenderValue::from_gender(Gender::Female);
    assert_eq!(g.value(), Gender::Female);
    assert_eq!(g.label(), "女性");
}

#[test]
fn lines_are_grouped_by_order() {
    let u = sample_user("u1");
    let o1 = Order::new(&u);
    let o2 = Order::new(&u);
    let items = vec![line(&o1, "a", 1), line(&o2, "b", 2), line(&o1, "c", 3), line(&o2, "d", 4), line(&o1, "e", 5)];
    let groups = group_by_order(items);
    assert_eq!(groups.len(), 2);
    let g1: Vec<&str> = groups.get(o1.id.as_str()).unwrap().iter().map(|d| d.product_name.as_str()).collect();
    let g2: Vec<&str> = groups.get(o2.id.as_str()).unwrap().iter().map(|d| d.product_name.as_str()).collect();
    assert_eq!(g1, vec!["a", "c", "e"]);
    assert_eq!(g2, vec!["b", "d"]);
    assert!(groups.get("other").is_none());
    assert_eq!(group_by_order(Vec::new()).len(), 0);

    let (mine, rest) = partition_by_order(vec![line(&o1, "a", 1), line(&o2, "b", 2)], o2.id.as_str());
    assert_eq!(mine.len(), 1);
    assert_eq!(mine[0].product_name.as_str(), "b");
    assert_eq!(rest[0].product_name.as_str(), "a");
}

#[test]
fn the_user_of_a_request_is_looked_up_once() {
    let mut cell = AuthorizedUser::new();
    assert!(cell.get().is_none());
    let e = cell.settle(Err(Kind::NotFound.into_err())).unwrap_err();
    assert_eq!(parts(&e), (Kind::Unauthorized, Some("ユーザーが存在しません"), None));
    assert!(cell.get().is_none());
    let e = cell.settle(Err(Kind::Internal.from_src("down".to_string()))).unwrap_err();
    assert_eq!(parts(&e), (Kind::Internal, None, Some("down")));
    assert!(cell.get().is_none());
    cell.settle(Ok(sample_user("u1"))).unwrap();
    assert_eq!(cell.get().unwrap().id.as_str(), "u1");
}

#[test]
fn orders_are_written_before_their_lines() {
    let order = Order::new(&sample_user("u1"));
    let id = order.id.as_str().to_string();
    let lines = vec![line(&order, "a", 1), line(&order, "b", 2)];
    let writes = order_writes(order, lines);
    assert_eq!(writes.len(), 3);
    assert!(matches!(&writes[0], OrderWrite::Order(o) if o.id.as_str() == id));
    assert!(matches!(&writes[1], OrderWrite::Detail(d) if d.product_name.as_str() == "a"));
    assert!(matches!(&writes[2], OrderWrite::Detail(d) if d.product_name.as_str() == "b"));
}
