use rust_app::domain::admin_user;
use rust_app::domain::order::detail::{self, Detail};
use rust_app::domain::order::Order;
use rust_app::domain::types::asset_key::AssetKey;
use rust_app::domain::types::email::Email;
use rust_app::domain::types::image_size::ImageSize;
use rust_app::domain::types::pager::Pager;
use rust_app::domain::types::string::check_length;
use rust_app::domain::types::time::{Date, LocalDateTime, ToTimestamp};
use rust_app::domain::user::{self, Gender, User};
use rust_app::domain::{generate_id_str, into_id_map, HasId, Id};

fn date(y: i32, m: u32, d: u32) -> Date {
    Date::from_ymd_opt(y, m, d).unwrap()
}

fn sample_user(id: &str, name: &str) -> User {
    User::new(
        user::Id::from_str(id),
        user::Name::try_from_string(name.to_string()).unwrap(),
        date(1990, 4, 1),
        Gender::Female,
    )
}

#[test]
fn generated_ids_are_22_alphanumeric_characters() {
    for _ in 0..50 {
        let s = generate_id_str();
        assert_eq!(s.chars().count(), 22, "{}", s);
        assert!(s.chars().all(|c| c.is_ascii_alphanumeric()), "{}", s);
    }
    let a: user::Id = Id::generate();
    let b: user::Id = Id::generate();
    assert_ne!(a.as_str(), b.as_str());
}

#[test]
fn ids_keep_their_text() {
    let id: admin_user::Id = Id::new("admin-1".to_string());
    assert_eq!(id.as_str(), "admin-1");
    assert_eq!(id.clone().into_string(), "admin-1");
    let other: admin_user::Id = Id::from_str("admin-1");
    assert!(id == other);
    let third: admin_user::Id = Id::from_str("admin-2");
    assert!(id != third);
}

#[test]
fn id_map_keeps_the_last_entity_of_each_id() {
    let users = vec![sample_user("u1", "first"), sample_user("u2", "second"), sample_user("u1", "third")];
    let map = into_id_map(users);
    assert_eq!(map.len(), 2);
    assert_eq!(map.get("u1").unwrap().name.as_str(), "third");
    assert_eq!(map.get("u2").unwrap().name.as_str(), "second");
    assert!(map.get("u3").is_none());
}

#[test]
fn user_update_keeps_identity_and_creation_time() {
    let u = sample_user("u1", "alice");
    let created = u.created_at.to_timestamp();
    let u2 = u.update(
        user::Name::try_from_string("bob".to_string()).unwrap(),
        date(2000, 2, 29),
        Gender::Male,
    );
    assert_eq!(u2.id.as_str(), "u1");
    assert_eq!(u2.name.as_str(), "bob");
    assert_eq!(u2.gender, Gender::Male);
    assert_eq!((u2.birthdate.year(), u2.birthdate.month(), u2.birthdate.day()), (2000, 2, 29));
    assert_eq!(u2.created_at.to_timestamp(), created);
    assert!(u2.updated_at.to_timestamp() >= created);
    assert_eq!(u2.id().as_str(), "u1");
}

#[test]
fn names_have_between_1_and_255_characters() {
    assert!(user::Name::try_from_string("a".repeat(255)).is_ok());
    assert!(user::Name::try_from_string("あ".repeat(255)).is_ok());
    let e = user::Name::try_from_string(String::new()).unwrap_err();
    assert_eq!(e, "ユーザー名は1文字以上255文字以下で入力してください");
    let e = user::Name::try_from_string("a".repeat(256)).unwrap_err();
    assert_eq!(e, "ユーザー名は1文字以上255文字以下で入力してください");
    let e = detail::Name::try_from_string(String::new()).unwrap_err();
    assert_eq!(e, "商品名は1文字以上255文字以下で入力してください");
    assert_eq!(check_length("abc".to_string(), "項目", 1, 2), Err("項目は1文字以上2文字以下で入力してください".to_string()));
    assert_eq!(check_length("ab".to_string(), "項目", 1, 2), Ok("ab".to_string()));
}

#[test]
fn genders_read_back_from_label_and_name() {
    assert_eq!(Gender::all(), vec![Gender::Male, Gender::Female]);
    for g in Gender::all() {
        assert_eq!(Gender::try_from_string(g.label().to_string()), Ok(g));
        assert_eq!(Gender::try_from_string(g.into_string()), Ok(g));
    }
    assert_eq!(Gender::Male.label(), "男性");
    assert_eq!(Gender::Female.into_string(), "Female");
    assert_eq!(Gender::try_from_string("other".to_string()), Err("error: VariantNotFound".to_string()));
}

#[test]
fn orders_and_lines_point_to_their_owner() {
    let u = sample_user("u1", "alice");
    let o = Order::new(&u);
    assert_eq!(o.user_id.as_str(), "u1");
    assert_eq!(o.id.as_str().chars().count(), 22);
    let d = Detail::new(&o, detail::Name::try_from_string("apple".to_string()).unwrap(), 3);
    assert_eq!(d.order_id.as_str(), o.id.as_str());
    assert_eq!(d.product_name.as_str(), "apple");
    assert_eq!(d.quantity, 3);
    assert_ne!(d.id.as_str(), o.id.as_str());
}

#[test]
fn asset_keys() {
    let uid = user::Id::from_str("u1");
    assert_eq!(AssetKey::asset_key(uid.clone(), "f.png".to_string()).as_str(), "asset/u1/f.png");
    assert_eq!(AssetKey::temp_key(uid, "f.png".to_string()).into_string(), "tmp/u1/f.png");
    assert!(AssetKey::try_from_string("k".to_string()).is_ok());
    assert_eq!(
        AssetKey::try_from_string(String::new()).unwrap_err(),
        "S3キーは1文字以上255文字以下で入力してください"
    );
    assert!(AssetKey::try_from_string("k".repeat(256)).is_err());
}

#[test]
fn emails_are_checked_by_the_address_parser() {
    let e = Email::try_from_string("user@example.com".to_string()).unwrap();
    assert_eq!(e.as_str(), "user@example.com");
    assert_eq!(e.into_string(), "user@example.com");
    assert_eq!(Email::try_from_string("not an address".to_string()).unwrap_err(), "不正なメールアドレスです");
    assert!(Email::try_from_string("no-at-sign".to_string()).is_err());
}

#[test]
fn image_sizes() {
    assert_eq!(ImageSize::Large.width(), 1200);
    assert_eq!(ImageSize::Medium.width(), 600);
    assert_eq!(ImageSize::Small.width(), 300);
    assert_eq!(ImageSize::Medium.query_param(), "w=600");
    for s in [ImageSize::Large, ImageSize::Medium, ImageSize::Small] {
        assert_eq!(ImageSize::from_name(s.name()), Some(s));
    }
    assert_eq!(ImageSize::from_name("huge"), None);
}

#[test]
fn pager_defaults_and_offset() {
    let p = Pager::new(None, None);
    assert_eq!((p.page, p.limit), (1, 20));
    assert_eq!(p.offset(), 0);
    let p = Pager::new(Some(3), Some(10));
    assert_eq!(p.offset(), 20);
}

#[test]
fn local_times_from_parts() {
    let t = LocalDateTime::from_parts(0, 0, 0).unwrap();
    assert_eq!(t.to_timestamp(), 0);
    assert_eq!(t.subsec_nanos(), 0);
    assert!(LocalDateTime::from_parts(0, 1_000_000_000, 0).is_none());
    assert!(LocalDateTime::from_parts(59, 1_500_000_000, 0).is_some());
    assert!(LocalDateTime::from_parts(-1, 1_500_000_000, 0).is_some());
    assert!(LocalDateTime::from_parts(0, 0, 86400).is_none());
    assert!(LocalDateTime::from_parts(i64::MAX, 0, 0).is_none());
    let jst = LocalDateTime::from_parts(100, 5, -3600).unwrap().to_jst();
    assert_eq!((jst.timestamp(), jst.offset_seconds()), (100, 32400));
}
