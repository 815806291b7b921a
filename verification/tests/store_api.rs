//! The API surface end to end: registration, login, the find routes, and
//! the gift-idea lifecycle with its reservation toggle.

use gift_app::api;
use gift_app::api::ApiResponse;
use gift_app::api::MissingKey;
use gift_app::models::NewUser;
use gift_app::shared::GiftIdeaRequestBody;
use gift_app::shared::LoginRequestBody;
use gift_app::shared::RegisterRequestBody;
use gift_app::store::Store;
use gift_app::store::StoreError;

fn register_body(email: &str, password: &str) -> RegisterRequestBody {
    RegisterRequestBody {
        email: email.to_string(),
        password: password.to_string(),
        first_name: None,
        last_name: None,
        phone: None,
    }
}

fn gift_body(title: &str, owner_id: i32, recipient_user_id: i32) -> GiftIdeaRequestBody {
    GiftIdeaRequestBody {
        title: title.to_string(),
        description: Some("desc".to_string()),
        price: Some("9.99".to_string()),
        url: Some("https://example.com".to_string()),
        owner_id,
        recipient_user_id,
    }
}

#[test]
fn register_assigns_ids_counting_up() {
    let mut store = Store::new();
    let a = match api::add_user(&mut store, register_body("a@x.com", "pw")) {
        ApiResponse::Success(u) => u,
        _ => panic!("registration failed"),
    };
    let b = match api::add_user(&mut store, register_body("b@x.com", "pw")) {
        ApiResponse::Success(u) => u,
        _ => panic!("registration failed"),
    };
    assert_eq!(a.id, 1);
    assert_eq!(b.id, 2);
    assert_eq!(a.email, "a@x.com");
    assert_eq!(a.password, "pw");
}

#[test]
fn register_duplicate_email_is_server_error() {
    let mut store = Store::new();
    assert!(matches!(
        api::add_user(&mut store, register_body("a@x.com", "pw")),
        ApiResponse::Success(_)
    ));
    let again = api::add_user(&mut store, register_body("a@x.com", "other"));
    assert!(matches!(again, ApiResponse::ServerError));
    assert_eq!(again.status_code(), 500);
    // the table is untouched: the one user still logs in with the first password
    let login = api::login(
        &store,
        LoginRequestBody { email: "a@x.com".to_string(), password: "pw".to_string() },
    );
    assert!(matches!(login, ApiResponse::Success(_)));
}

#[test]
fn login_wrong_password_is_not_found() {
    let mut store = Store::new();
    api::add_user(&mut store, register_body("a@x.com", "pw"));
    let r = api::login(
        &store,
        LoginRequestBody { email: "a@x.com".to_string(), password: "wrong".to_string() },
    );
    match r {
        ApiResponse::NotFound(MissingKey::UserEmail(email)) => assert_eq!(email, "a@x.com"),
        _ => panic!("expected a 404 naming the email"),
    }
}

#[test]
fn find_user_by_id_unknown_id_is_not_found() {
    let store = Store::new();
    let r = api::find_user_by_id(&store, 77);
    assert_eq!(r.status_code(), 404);
    match r {
        ApiResponse::NotFound(MissingKey::UserId(uid)) => assert_eq!(uid, 77),
        _ => panic!("expected a 404 naming the id"),
    }
}

#[test]
fn find_user_by_email_round_trip() {
    let mut store = Store::new();
    api::add_user(&mut store, register_body("a@x.com", "pw"));
    match api::find_user_by_email(&store, "a@x.com".to_string()) {
        ApiResponse::Success(u) => assert_eq!(u.id, 1),
        _ => panic!("expected the registered user"),
    }
    match api::find_user_by_email(&store, "nobody@x.com".to_string()) {
        ApiResponse::NotFound(MissingKey::UserEmail(email)) => assert_eq!(email, "nobody@x.com"),
        _ => panic!("expected a 404 naming the email"),
    }
}

#[test]
fn find_all_users_empty_table_is_not_found() {
    let store = Store::new();
    let r = api::find_all_users(&store);
    assert_eq!(r.status_code(), 404);
    assert!(matches!(r, ApiResponse::NotFound(MissingKey::NoUsers)));
}

#[test]
fn find_all_users_lists_minimal_info_without_password() {
    let mut store = Store::new();
    let body = RegisterRequestBody {
        email: "a@x.com".to_string(),
        password: "pw".to_string(),
        first_name: Some("Ada".to_string()),
        last_name: Some("Lovelace".to_string()),
        phone: Some("555".to_string()),
    };
    api::add_user(&mut store, body);
    match api::find_all_users(&store) {
        ApiResponse::Success(list) => {
            assert_eq!(list.len(), 1);
            assert_eq!(list[0].id, 1);
            assert_eq!(list[0].email, "a@x.com");
            assert_eq!(list[0].first_name.as_deref(), Some("Ada"));
            assert_eq!(list[0].last_name.as_deref(), Some("Lovelace"));
            assert_eq!(list[0].phone.as_deref(), Some("555"));
        }
        _ => panic!("expected the one-user array"),
    }
}

#[test]
fn update_user_replaces_fields_and_keeps_id() {
    let mut store = Store::new();
    api::add_user(&mut store, register_body("a@x.com", "pw"));
    let patch = NewUser {
        first_name: Some("Ada".to_string()),
        last_name: None,
        email: "a@x.com".to_string(),
        phone: None,
        password: "newpw".to_string(),
    };
    match api::update_user(&mut store, patch) {
        ApiResponse::Success(u) => {
            assert_eq!(u.id, 1);
            assert_eq!(u.password, "newpw");
            assert_eq!(u.first_name.as_deref(), Some("Ada"));
        }
        _ => panic!("expected the updated user"),
    }
}

#[test]
fn update_user_unknown_email_is_server_error() {
    let mut store = Store::new();
    let patch = NewUser {
        first_name: None,
        last_name: None,
        email: "nobody@x.com".to_string(),
        phone: None,
        password: "pw".to_string(),
    };
    assert!(matches!(api::update_user(&mut store, patch), ApiResponse::ServerError));
}

#[test]
fn add_gift_then_find_by_id_echoes_the_request() {
    let mut store = Store::new();
    api::add_user(&mut store, register_body("a@x.com", "pw"));
    api::add_user(&mut store, register_body("b@x.com", "pw"));
    let added = match api::add_gift(&mut store, gift_body("Headphones", 1, 2)) {
        ApiResponse::Success(g) => g,
        _ => panic!("add failed"),
    };
    assert_eq!(added.id, 1);
    match api::find_gift_by_id(&store, added.id) {
        ApiResponse::Success(g) => {
            assert_eq!(g.title, "Headphones");
            assert_eq!(g.description.as_deref(), Some("desc"));
            assert_eq!(g.price.as_deref(), Some("9.99"));
            assert_eq!(g.url.as_deref(), Some("https://example.com"));
            assert_eq!(g.owner_id, 1);
            assert_eq!(g.recipient_user_id, 2);
            assert_eq!(g.reserved_by_user_id, None);
            assert_eq!(g.date_reserved, None);
        }
        _ => panic!("expected the stored gift idea"),
    }
}

#[test]
fn add_gift_with_shared_title_reads_back_the_older_row() {
    // the insert re-reads by title, so a second row under the same title
    // answers with the first row's id
    let mut store = Store::new();
    let first = match api::add_gift(&mut store, gift_body("Socks", 1, 2)) {
        ApiResponse::Success(g) => g,
        _ => panic!("add failed"),
    };
    let second = match api::add_gift(&mut store, gift_body("Socks", 3, 4)) {
        ApiResponse::Success(g) => g,
        _ => panic!("add failed"),
    };
    assert_eq!(first.id, 1);
    assert_eq!(second.id, 1);
    assert_eq!(second.owner_id, first.owner_id);
    // both rows are in the table all the same
    match api::find_all_gifts(&store) {
        ApiResponse::Success(list) => assert_eq!(list.len(), 2),
        _ => panic!("expected two rows"),
    }
}

#[test]
fn find_gift_by_id_unknown_id_is_not_found() {
    let store = Store::new();
    let r = api::find_gift_by_id(&store, 5);
    assert_eq!(r.status_code(), 404);
    match r {
        ApiResponse::NotFound(MissingKey::GiftId(gid)) => assert_eq!(gid, 5),
        _ => panic!("expected a 404 naming the id"),
    }
}

#[test]
fn find_all_gifts_empty_table_is_not_found() {
    let store = Store::new();
    assert!(matches!(
        api::find_all_gifts(&store),
        ApiResponse::NotFound(MissingKey::NoGifts)
    ));
}

#[test]
fn reserve_then_unreserve_round_trip() {
    let mut store = Store::new();
    api::add_gift(&mut store, gift_body("Headphones", 1, 2));
    let reserved = match api::reserve(&mut store, 1, 3) {
        ApiResponse::Success(body) => body,
        _ => panic!("reserve failed"),
    };
    assert_eq!(reserved.reserved_by_user_id, Some(3));
    match api::find_gift_by_id(&store, 1) {
        ApiResponse::Success(g) => assert_eq!(g.reserved_by_user_id, Some(3)),
        _ => panic!("expected the reserved row"),
    }
    let released = match api::unreserve(&mut store, 1) {
        ApiResponse::Success(body) => body,
        _ => panic!("unreserve failed"),
    };
    assert_eq!(released.reserved_by_user_id, None);
    match api::find_gift_by_id(&store, 1) {
        ApiResponse::Success(g) => assert_eq!(g.reserved_by_user_id, None),
        _ => panic!("expected the released row"),
    }
}

#[test]
fn second_reserve_overwrites_the_first_holder() {
    let mut store = Store::new();
    api::add_gift(&mut store, gift_body("Headphones", 1, 2));
    api::reserve(&mut store, 1, 3);
    let r = match api::reserve(&mut store, 1, 4) {
        ApiResponse::Success(body) => body,
        _ => panic!("reserve failed"),
    };
    assert_eq!(r.reserved_by_user_id, Some(4));
}

#[test]
fn reserve_unknown_gift_is_server_error() {
    let mut store = Store::new();
    assert!(matches!(api::reserve(&mut store, 9, 1), ApiResponse::ServerError));
    assert!(matches!(api::unreserve(&mut store, 9), ApiResponse::ServerError));
}

#[test]
fn reserve_does_not_touch_other_fields() {
    let mut store = Store::new();
    api::add_gift(&mut store, gift_body("Headphones", 1, 2));
    let before = match api::find_gift_by_id(&store, 1) {
        ApiResponse::Success(g) => g,
        _ => panic!("missing row"),
    };
    api::reserve(&mut store, 1, 3);
    let after = match api::find_gift_by_id(&store, 1) {
        ApiResponse::Success(g) => g,
        _ => panic!("missing row"),
    };
    assert_eq!(after.title, before.title);
    assert_eq!(after.date_added, before.date_added);
    assert_eq!(after.date_last_modified, before.date_last_modified);
    assert_eq!(after.date_reserved, before.date_reserved);
    assert_eq!(after.owner_id, before.owner_id);
    assert_eq!(after.recipient_user_id, before.recipient_user_id);
}

#[test]
fn update_gift_replaces_the_row() {
    let mut store = Store::new();
    api::add_gift(&mut store, gift_body("Headphones", 1, 2));
    let mut row = match api::find_gift_by_id(&store, 1) {
        ApiResponse::Success(g) => g,
        _ => panic!("missing row"),
    };
    row.title = "Wireless Headphones".to_string();
    row.price = Some("19.99".to_string());
    match api::update_gift(&mut store, row) {
        ApiResponse::Success(g) => assert_eq!(g.title, "Wireless Headphones"),
        _ => panic!("update failed"),
    }
    match api::find_gift_by_id(&store, 1) {
        ApiResponse::Success(g) => {
            assert_eq!(g.title, "Wireless Headphones");
            assert_eq!(g.price.as_deref(), Some("19.99"));
        }
        _ => panic!("expected the updated row"),
    }
}

#[test]
fn update_gift_unknown_id_is_server_error() {
    let mut store = Store::new();
    let row = match api::add_gift(&mut store, gift_body("Headphones", 1, 2)) {
        ApiResponse::Success(g) => g,
        _ => panic!("add failed"),
    };
    let mut stray = row;
    stray.id = 42;
    assert!(matches!(api::update_gift(&mut store, stray), ApiResponse::ServerError));
}

#[test]
fn delete_gift_removes_the_row_and_reports_it() {
    let mut store = Store::new();
    api::add_gift(&mut store, gift_body("Headphones", 1, 2));
    match api::delete_gift(&mut store, 1) {
        ApiResponse::Success(removed) => assert!(removed),
        _ => panic!("delete failed"),
    }
    assert_eq!(api::find_gift_by_id(&store, 1).status_code(), 404);
    // deleting what is already gone answers false, not an error
    match api::delete_gift(&mut store, 1) {
        ApiResponse::Success(removed) => assert!(!removed),
        _ => panic!("delete failed"),
    }
}

#[test]
fn store_error_variants_cover_the_failure_taxonomy() {
    let mut store = Store::new();
    let nu = NewUser::new("a@x.com".to_string(), "pw".to_string());
    assert_eq!(store.add_user(&nu), Ok(gift_app::models::User {
        id: 1,
        email: "a@x.com".to_string(),
        password: "pw".to_string(),
        first_name: None,
        last_name: None,
        phone: None,
    }));
    // duplicate unique key
    assert_eq!(store.add_user(&nu), Err(StoreError::ConstraintViolation));
    // missing row on an update
    let stray = NewUser::new("nobody@x.com".to_string(), "pw".to_string());
    assert_eq!(store.update_user(&stray), Err(StoreError::NotFound));
}

#[test]
fn gift_timestamps_come_from_the_clock() {
    // the clock wrapper never reports a moment before the epoch, and a row
    // built from a request carries it into both timestamp columns
    let g = gift_app::models::NewGiftIdea::new("Headphones".to_string(), 1, 2);
    assert!(g.date_added >= 0);
    assert!(g.date_last_modified >= 0);
    // a generous lower bound pinning that the clock actually ran
    assert!(g.date_added > 1_500_000_000);
}
