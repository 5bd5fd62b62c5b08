//! Scenario and property tests: the end-to-end flow, cross-kind token
//! rejection, ownership gating, and the error taxonomy's wire mapping.

use course_market::db::Db;
use course_market::errors::error_body;
use course_market::errors::error_message;
use course_market::errors::error_status;
use course_market::errors::ApiError;
use course_market::errors::AppError;
use course_market::errors::PrincipalKind;
use course_market::handlers::admin::create_course_handler;
use course_market::handlers::admin::get_all_courses_handler;
use course_market::handlers::admin::signin_admin;
use course_market::handlers::admin::signup_admin;
use course_market::handlers::admin::update_course_handler;
use course_market::handlers::course::purchase_course_handler;
use course_market::handlers::user::signin_user;
use course_market::handlers::user::signup_user;
use course_market::handlers::user::user_purchases;
use course_market::middlewares::admin::admin_middleware;
use course_market::middlewares::user::user_middleware;
use course_market::schema::admin::CreateAdmin;
use course_market::schema::admin::CreateCourseWithoutAdminId;
use course_market::schema::admin::UpdateCourse;
use course_market::schema::user::CreateUser;
use course_market::schema::EmailAndPassword;

const ADMIN_SECRET: &[u8] = b"admin-jwt-password";
const USER_SECRET: &[u8] = b"user-jwt-password";

fn now_ts() -> usize {
    std::time::SystemTime::now()
        .duration_since(std::time::UNIX_EPOCH)
        .unwrap()
        .as_secs() as usize
}

fn new_admin(db: &mut Db, email: &str, password: &str) -> String {
    let admin = CreateAdmin {
        email: email.to_string(),
        name: String::from("Admin"),
        password: password.to_string(),
    };
    signup_admin(db, admin).unwrap().id
}

fn new_user(db: &mut Db, email: &str, password: &str) -> String {
    let user = CreateUser {
        email: email.to_string(),
        name: String::from("User"),
        password: password.to_string(),
    };
    signup_user(db, user).unwrap().id
}

#[test]
fn scenario_end_to_end() {
    let mut db = Db::new();

    // Admin signs up and signs in.
    let admin_id = new_admin(&mut db, "a@x.com", "adminpw12");
    let admin_token = signin_admin(
        &db,
        EmailAndPassword { email: "a@x.com".to_string(), password: "adminpw12".to_string() },
        ADMIN_SECRET,
        now_ts(),
    )
        .unwrap()
        .token;

    // Admin creates a course; the response carries a generated id and
    // echoes the admin's id.
    let email = admin_middleware(Some(&admin_token), ADMIN_SECRET).unwrap();
    let course = create_course_handler(
        &mut db,
        CreateCourseWithoutAdminId { title: "T1".to_string(), image_url: None, price: 5000 },
        Some(email),
    )
        .unwrap();
    assert!(!course.id.is_empty());
    assert_eq!(course.admin_id, admin_id);
    assert_eq!(course.price, 5000);

    // User signs up, signs in, and purchases that course.
    let _user_id = new_user(&mut db, "u@x.com", "userpw123");
    let user_token = signin_user(
        &db,
        EmailAndPassword { email: "u@x.com".to_string(), password: "userpw123".to_string() },
        USER_SECRET,
        now_ts(),
    )
        .unwrap()
        .token;

    let ctx = user_middleware(Some(&user_token), USER_SECRET).unwrap();
    let purchase = purchase_course_handler(&mut db, course.id.clone(), Some(ctx)).unwrap();
    assert_eq!(purchase.message, "Purchased Successfully");

    // A repeated purchase is a duplicate.
    let ctx = user_middleware(Some(&user_token), USER_SECRET).unwrap();
    let repeat = purchase_course_handler(&mut db, course.id.clone(), Some(ctx));
    assert_eq!(repeat.unwrap_err(), ApiError::DuplicatePurchase);

    // The user's purchases list that one course, exactly once.
    let ctx = user_middleware(Some(&user_token), USER_SECRET).unwrap();
    let purchases = user_purchases(&db, Some(ctx)).unwrap();
    assert_eq!(purchases.len(), 1);
    assert_eq!(purchases[0].course_id.to_string(), course.id);
}

#[test]
fn cross_kind_tokens_are_rejected() {
    let mut db = Db::new();
    new_admin(&mut db, "cross-admin@x.com", "adminpw12");
    new_user(&mut db, "cross-user@x.com", "userpw123");

    let admin_token = signin_admin(
        &db,
        EmailAndPassword {
            email: "cross-admin@x.com".to_string(),
            password: "adminpw12".to_string(),
        },
        ADMIN_SECRET,
        now_ts(),
    )
        .unwrap()
        .token;
    let user_token = signin_user(
        &db,
        EmailAndPassword {
            email: "cross-user@x.com".to_string(),
            password: "userpw123".to_string(),
        },
        USER_SECRET,
        now_ts(),
    )
        .unwrap()
        .token;

    // An admin token must never authorize a user-only route, and vice
    // versa.
    assert_eq!(user_middleware(Some(&admin_token), USER_SECRET).unwrap_err(), ApiError::InvalidToken);
    assert_eq!(admin_middleware(Some(&user_token), ADMIN_SECRET).unwrap_err(), ApiError::InvalidToken);

    // Each token authorizes its own kind.
    assert!(admin_middleware(Some(&admin_token), ADMIN_SECRET).is_ok());
    assert!(user_middleware(Some(&user_token), USER_SECRET).is_ok());
}

#[test]
fn related_secrets_accept_the_same_tokens() {
    let mut db = Db::new();
    new_user(&mut db, "related@x.com", "userpw123");

    let token = signin_user(
        &db,
        EmailAndPassword { email: "related@x.com".to_string(), password: "userpw123".to_string() },
        USER_SECRET,
        now_ts(),
    )
        .unwrap()
        .token;

    // HMAC zero-pads a short secret up to its block size, so the secret
    // with a zero byte appended derives the same key and accepts the same
    // tokens: secrets act only through their derived key.
    let mut padded = USER_SECRET.to_vec();
    padded.push(0u8);
    assert!(user_middleware(Some(&token), &padded).is_ok());

    // A secret deriving a different key rejects the token.
    assert!(user_middleware(Some(&token), b"another-user-jwt-password").is_err());
}

#[test]
fn expired_token_is_rejected() {
    let mut db = Db::new();
    new_user(&mut db, "expired@x.com", "userpw123");

    // A token issued far in the past carries an expiry long gone by now.
    let stale_token = signin_user(
        &db,
        EmailAndPassword { email: "expired@x.com".to_string(), password: "userpw123".to_string() },
        USER_SECRET,
        1000,
    )
        .unwrap()
        .token;

    assert_eq!(user_middleware(Some(&stale_token), USER_SECRET).unwrap_err(), ApiError::InvalidToken);
}

#[test]
fn update_by_non_owner_is_forbidden() {
    let mut db = Db::new();
    new_admin(&mut db, "owner@x.com", "adminpw12");
    new_admin(&mut db, "other@x.com", "adminpw12");

    let course = create_course_handler(
        &mut db,
        CreateCourseWithoutAdminId {
            title: "Owned".to_string(),
            image_url: Some("https://x.com/a.jpg".to_string()),
            price: 100,
        },
        Some("owner@x.com".to_string()),
    )
        .unwrap();

    // The non-owning admin is turned away and nothing changes.
    let update = UpdateCourse { title: "Stolen".to_string(), image_url: None, price: 1 };
    let res = update_course_handler(&mut db, update, course.id.clone(), Some("other@x.com".to_string()));
    let err = res.unwrap_err();
    assert_eq!(err, ApiError::Forbidden);
    assert_eq!(error_message(PrincipalKind::Admin, &err).as_str(), "Unauthorized");

    // The owning admin succeeds, and all three mutable fields persist.
    let update = UpdateCourse {
        title: "Renamed".to_string(),
        image_url: Some("https://x.com/b.jpg".to_string()),
        price: 250,
    };
    let updated =
        update_course_handler(&mut db, update, course.id.clone(), Some("owner@x.com".to_string()))
            .unwrap();
    assert_eq!(updated.title, "Renamed");
    assert_eq!(updated.image_url, Some("https://x.com/b.jpg".to_string()));
    assert_eq!(updated.price, 250);
    assert_eq!(updated.id, course.id);
    assert_eq!(updated.admin_id, course.admin_id);

    let mine = get_all_courses_handler(&db, Some("owner@x.com".to_string())).unwrap();
    assert_eq!(mine.len(), 1);
    assert_eq!(mine[0].title, "Renamed");
    assert_eq!(mine[0].price, 250);
}

#[test]
fn my_courses_lists_only_my_courses() {
    let mut db = Db::new();
    new_admin(&mut db, "mine@x.com", "adminpw12");
    new_admin(&mut db, "theirs@x.com", "adminpw12");

    for (owner, title) in [("mine@x.com", "Mine 1"), ("theirs@x.com", "Theirs 1"), ("mine@x.com", "Mine 2")] {
        let _ = create_course_handler(
            &mut db,
            CreateCourseWithoutAdminId { title: title.to_string(), image_url: None, price: 10 },
            Some(owner.to_string()),
        )
            .unwrap();
    }

    let mine = get_all_courses_handler(&db, Some("mine@x.com".to_string())).unwrap();
    assert_eq!(mine.len(), 2);
    assert!(mine.iter().all(|c| c.title.starts_with("Mine")));
}

#[test]
fn invalid_course_id_fails_internally() {
    let mut db = Db::new();
    new_admin(&mut db, "parse@x.com", "adminpw12");
    new_user(&mut db, "parser@x.com", "userpw123");

    // A path that is no identifier: non-digits, and a non-canonical form.
    for bad in ["abc", "01", "", "9999999999999999999999999999"] {
        let update = UpdateCourse { title: "T".to_string(), image_url: None, price: 1 };
        let res = update_course_handler(
            &mut db,
            update,
            bad.to_string(),
            Some("parse@x.com".to_string()),
        );
        assert_eq!(res.unwrap_err(), ApiError::InternalError);

        let ctx = course_market::schema::StructWithEmail { email: "parser@x.com".to_string() };
        let res = purchase_course_handler(&mut db, bad.to_string(), Some(ctx));
        assert_eq!(res.unwrap_err(), ApiError::InternalError);
    }
}

#[test]
fn purchase_of_missing_course_fails_internally() {
    let mut db = Db::new();
    new_user(&mut db, "ghostbuyer@x.com", "userpw123");

    let ctx = course_market::schema::StructWithEmail { email: "ghostbuyer@x.com".to_string() };
    let res = purchase_course_handler(&mut db, "424242".to_string(), Some(ctx));
    assert_eq!(res.unwrap_err(), ApiError::InternalError);

    let ctx = course_market::schema::StructWithEmail { email: "ghostbuyer@x.com".to_string() };
    let purchases = user_purchases(&db, Some(ctx)).unwrap();
    assert!(purchases.is_empty());
}

#[test]
fn error_taxonomy_maps_to_statuses_and_messages() {
    assert_eq!(error_status(&ApiError::DuplicateEmail), 400);
    assert_eq!(error_status(&ApiError::NotRegistered), 400);
    assert_eq!(error_status(&ApiError::InvalidCredentials), 400);
    assert_eq!(error_status(&ApiError::DuplicatePurchase), 400);
    assert_eq!(error_status(&ApiError::TokenMissing), 403);
    assert_eq!(error_status(&ApiError::InvalidToken), 403);
    assert_eq!(error_status(&ApiError::Forbidden), 403);
    assert_eq!(error_status(&ApiError::InternalError), 500);

    assert_eq!(
        error_body(PrincipalKind::Admin, &ApiError::DuplicateEmail).error,
        "User exists already with this email"
    );
    assert_eq!(error_body(PrincipalKind::User, &ApiError::NotRegistered).error, "Signup first");
    assert_eq!(
        error_message(PrincipalKind::Admin, &ApiError::InvalidToken).as_str(),
        "Internal Error"
    );
    assert_eq!(
        error_message(PrincipalKind::User, &ApiError::InvalidToken).as_str(),
        "Invalid token"
    );
    assert_eq!(
        error_message(PrincipalKind::User, &ApiError::DuplicatePurchase).as_str(),
        "Already Purchased"
    );

    assert_eq!(AppError::DbConnect.status_code(), 500);
    assert_eq!(AppError::SocketBind.status_code(), 500);
    assert_eq!(AppError::ServerStart.status_code(), 500);
    assert_eq!(AppError::InternalError.status_code(), 500);
}

#[test]
fn user_and_admin_email_namespaces_are_disjoint() {
    let mut db = Db::new();

    // The same email can exist independently as an admin and as a user.
    new_admin(&mut db, "same@x.com", "adminpw12");
    new_user(&mut db, "same@x.com", "userpw123");

    // Each signs in against its own store with its own password.
    assert!(signin_admin(
        &db,
        EmailAndPassword { email: "same@x.com".to_string(), password: "adminpw12".to_string() },
        ADMIN_SECRET,
        now_ts(),
    )
        .is_ok());
    assert!(signin_user(
        &db,
        EmailAndPassword { email: "same@x.com".to_string(), password: "userpw123".to_string() },
        USER_SECRET,
        now_ts(),
    )
        .is_ok());
    assert_eq!(
        signin_user(
            &db,
            EmailAndPassword { email: "same@x.com".to_string(), password: "adminpw12".to_string() },
            USER_SECRET,
            now_ts(),
        )
            .unwrap_err(),
        ApiError::InvalidCredentials
    );
}
