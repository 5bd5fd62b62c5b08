//! The course routes: the public catalogue, and purchasing behind the
//! user gate.

use course_market::db::Db;
use course_market::errors::error_message;
use course_market::errors::PrincipalKind;
use course_market::handlers::admin::create_course_handler;
use course_market::handlers::admin::signin_admin;
use course_market::handlers::admin::signup_admin;
use course_market::handlers::course::get_all_courses_handler;
use course_market::handlers::course::purchase_course_handler;
use course_market::handlers::hello_world;
use course_market::handlers::user::signin_user;
use course_market::handlers::user::signup_user;
use course_market::handlers::user::user_purchases;
use course_market::middlewares::admin::admin_middleware;
use course_market::middlewares::user::user_middleware;
use course_market::schema::admin::CreateAdmin;
use course_market::schema::admin::CreateCourseWithoutAdminId;
use course_market::schema::user::CreateUser;
use course_market::schema::EmailAndPassword;

const ADMIN_SECRET: &[u8] = b"admin-jwt-password";
const USER_SECRET: &[u8] = b"user-jwt-password";

fn now_ts() -> usize {
    std::time::SystemTime::now()
        .duration_since(std::time::UNIX_EPOCH)
        .unwrap()
        .as_secs() as usize
}

#[test]
fn test_purchase_course() {
    let mut db = Db::new();

    // 1. Create an admin
    let admin = CreateAdmin {
        email: String::from("admin_purchase@test.com"),
        name: String::from("Test Admin"),
        password: String::from("adminpass123"),
    };

    let _ = signup_admin(&mut db, admin);

    // Sign in admin to get token
    let admin_creds = EmailAndPassword {
        email: "admin_purchase@test.com".to_string(),
        password: "adminpass123".to_string(),
    };

    let admin_token = signin_admin(&db, admin_creds, ADMIN_SECRET, now_ts()).unwrap().token;

    // 2. Create a course
    let course = CreateCourseWithoutAdminId {
        title: "Test Purchase Course".to_string(),
        image_url: Some("https://test.com/image.jpg".to_string()),
        price: 5000,
    };

    let admin_email = admin_middleware(Some(&admin_token), ADMIN_SECRET).unwrap();
    let course_res = create_course_handler(&mut db, course, Some(admin_email)).unwrap();

    // 3. Create a user
    let user = CreateUser {
        email: String::from("user_purchase@test.com"),
        name: String::from("Test User"),
        password: String::from("userpass123"),
    };

    let _ = signup_user(&mut db, user);

    // Sign in user to get token
    let user_creds = EmailAndPassword {
        email: "user_purchase@test.com".to_string(),
        password: "userpass123".to_string(),
    };

    let user_token = signin_user(&db, user_creds, USER_SECRET, now_ts()).unwrap().token;

    // 4. Purchase the course
    let ctx = user_middleware(Some(&user_token), USER_SECRET).unwrap();
    let purchase_res = purchase_course_handler(&mut db, course_res.id.clone(), Some(ctx));
    assert!(purchase_res.is_ok());

    let purchase_body = purchase_res.unwrap();
    assert_eq!(purchase_body.message, "Purchased Successfully");

    // 5. Verify purchase exists in user's purchases
    let ctx = user_middleware(Some(&user_token), USER_SECRET).unwrap();
    let purchases = user_purchases(&db, Some(ctx)).unwrap();
    assert_eq!(purchases.len(), 1);
    assert_eq!(purchases[0].course_id.to_string(), course_res.id);

    // 6. Try purchasing same course again (should fail)
    let ctx = user_middleware(Some(&user_token), USER_SECRET).unwrap();
    let repeat_purchase_res = purchase_course_handler(&mut db, course_res.id.clone(), Some(ctx));

    let error_body = repeat_purchase_res.unwrap_err();
    assert_eq!(error_message(PrincipalKind::User, &error_body).as_str(), "Already Purchased");
}

#[test]
fn test_hello_world() {
    let body_str = hello_world();
    assert_eq!(body_str, "hello_world!");
}

#[test]
fn public_catalogue_lists_all_admins_courses() {
    let mut db = Db::new();

    for (email, title) in
        [("first@x.com", "Alpha"), ("second@x.com", "Beta")] {
        let admin = CreateAdmin {
            email: email.to_string(),
            name: String::from("Admin"),
            password: String::from("pw123456"),
        };
        let _ = signup_admin(&mut db, admin).unwrap();
        let course = CreateCourseWithoutAdminId {
            title: title.to_string(),
            image_url: None,
            price: 1000,
        };
        let _ = create_course_handler(&mut db, course, Some(email.to_string())).unwrap();
    }

    let all = get_all_courses_handler(&db).unwrap();
    assert_eq!(all.len(), 2);
    assert!(all.iter().any(|c| c.title == "Alpha"));
    assert!(all.iter().any(|c| c.title == "Beta"));
}
