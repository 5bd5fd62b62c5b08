//! The user routes, exercised end to end against a fresh store: signup,
//! signin, and the purchase listing behind the user gate.

use course_market::db::Db;
use course_market::errors::error_message;
use course_market::errors::PrincipalKind;
use course_market::handlers::user::signin_user;
use course_market::handlers::user::signup_user;
use course_market::handlers::user::user_purchases;
use course_market::middlewares::user::user_middleware;
use course_market::schema::user::CreateUser;
use course_market::schema::EmailAndPassword;

const USER_SECRET: &[u8] = b"user-jwt-password";

fn now_ts() -> usize {
    std::time::SystemTime::now()
        .duration_since(std::time::UNIX_EPOCH)
        .unwrap()
        .as_secs() as usize
}

#[test]
fn test_signup_and_signin() {
    let mut db = Db::new();

    let user = CreateUser {
        email: String::from("vk@gmail.com"),
        name: String::from("Iron Man"),
        password: String::from("THERIYATHU"),
    };

    let res = signup_user(&mut db, user);
    assert!(res.is_ok());

    let signup_res_body = res.unwrap();
    assert_eq!(signup_res_body.message, "Signed up successfully".to_string());

    let json = EmailAndPassword {
        email: "vk@gmail.com".to_string(),
        password: "THERIYATHU".to_string(),
    };

    let res = signin_user(&db, json, USER_SECRET, now_ts());
    assert!(res.is_ok());

    let res_body = res.unwrap();
    assert_eq!(&res_body.message, "Signined in Successfully");
}

#[test]
fn test_invalid_credentials() {
    let mut db = Db::new();

    let user = CreateUser {
        email: String::from("newone@gmail.com"),
        name: String::from("Iron Man"),
        password: String::from("THERIYATHU"),
    };

    let res = signup_user(&mut db, user);
    assert!(res.is_ok());

    let signup_res_body = res.unwrap();
    assert_eq!(signup_res_body.message, "Signed up successfully".to_string());

    let json = EmailAndPassword {
        email: "newone@gmail.com".to_string(),
        password: "IRONMAN".to_string(),
    };

    let res = signin_user(&db, json, USER_SECRET, now_ts());
    let err = res.unwrap_err();
    assert_eq!(error_message(PrincipalKind::User, &err).as_str(), "Enter Valid Password");
}

#[test]
fn test_signin_with_unused_email() {
    let db = Db::new();

    let json = EmailAndPassword {
        email: "unused@gmail.com".to_string(),
        password: "THERIYATHU".to_string(),
    };

    let res = signin_user(&db, json, USER_SECRET, now_ts());
    let err = res.unwrap_err();
    assert_eq!(error_message(PrincipalKind::User, &err).as_str(), "Signup first");
}

#[test]
fn test_signup_twice() {
    let mut db = Db::new();

    let user = CreateUser {
        email: String::from("twice@gmail.com"),
        name: String::from("Iron Man"),
        password: String::from("THERIYATHU"),
    };

    let res = signup_user(&mut db, user);
    assert!(res.is_ok());

    let signup_res_body = res.unwrap();
    assert_eq!(signup_res_body.message, "Signed up successfully".to_string());

    let user = CreateUser {
        email: String::from("twice@gmail.com"),
        name: String::from("Iron Man"),
        password: String::from("THERIYATHU"),
    };

    let res = signup_user(&mut db, user);
    assert!(res.is_err());

    let err = res.unwrap_err();
    assert_eq!(
        error_message(PrincipalKind::User, &err).as_str(),
        "User exists already with this email"
    );
}

#[test]
fn test_user_purchases() {
    let mut db = Db::new();

    let user = CreateUser {
        email: String::from("purchase@test.com"),
        name: String::from("Iron Man"),
        password: String::from("THERIYATHU"),
    };

    let res = signup_user(&mut db, user);
    assert!(res.is_ok());

    let json = EmailAndPassword {
        email: "purchase@test.com".to_string(),
        password: "THERIYATHU".to_string(),
    };

    let res_1 = signin_user(&db, json, USER_SECRET, now_ts());
    assert!(res_1.is_ok());

    let token = res_1.unwrap().token;

    let ctx = user_middleware(Some(&token), USER_SECRET).unwrap();
    let res = user_purchases(&db, Some(ctx));
    assert!(res.is_ok());

    let res_body = res.unwrap();
    assert!(res_body.is_empty());
}

#[test]
fn test_user_purchases_wo_headers() {
    let res = user_middleware(None, USER_SECRET);

    if let Err(e) = res {
        assert_eq!(error_message(PrincipalKind::User, &e).as_str(), "Token Not found");
        return;
    }

    panic!("Expected error");
}
