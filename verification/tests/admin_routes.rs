//! The admin routes, exercised end to end against a fresh store: signup,
//! signin, and course management behind the admin gate.

use course_market::db::Db;
use course_market::errors::error_message;
use course_market::errors::ApiError;
use course_market::errors::PrincipalKind;
use course_market::handlers::admin::create_course_handler;
use course_market::handlers::admin::get_all_courses_handler;
use course_market::handlers::admin::signin_admin;
use course_market::handlers::admin::signup_admin;
use course_market::handlers::admin::update_course_handler;
use course_market::middlewares::admin::admin_middleware;
use course_market::schema::admin::CreateAdmin;
use course_market::schema::admin::CreateCourseWithoutAdminId;
use course_market::schema::admin::UpdateCourse;
use course_market::schema::EmailAndPassword;

const ADMIN_SECRET: &[u8] = b"admin-jwt-password";

fn now_ts() -> usize {
    std::time::SystemTime::now()
        .duration_since(std::time::UNIX_EPOCH)
        .unwrap()
        .as_secs() as usize
}

#[test]
fn test_admin_signup_and_signin() {
    let mut db = Db::new();

    let admin = CreateAdmin {
        email: String::from("admin@test.com"),
        name: String::from("Test Admin"),
        password: String::from("adminpass123"),
    };

    let res = signup_admin(&mut db, admin);
    assert!(res.is_ok());
    let signup_res_body = res.unwrap();
    assert_eq!(signup_res_body.message, "Signed up successfully".to_string());

    let json = EmailAndPassword {
        email: "admin@test.com".to_string(),
        password: "adminpass123".to_string(),
    };

    let res = signin_admin(&db, json, ADMIN_SECRET, now_ts());
    assert!(res.is_ok());

    let res_body = res.unwrap();
    assert_eq!(&res_body.message, "Signined in Successfully");
}

#[test]
fn test_admin_invalid_credentials() {
    let mut db = Db::new();

    let admin = CreateAdmin {
        email: String::from("admin2@test.com"),
        name: String::from("Test Admin"),
        password: String::from("adminpass123"),
    };

    let res = signup_admin(&mut db, admin);
    assert!(res.is_ok());

    let json = EmailAndPassword {
        email: "admin2@test.com".to_string(),
        password: "wrongpassword".to_string(),
    };

    let res = signin_admin(&db, json, ADMIN_SECRET, now_ts());
    let err = res.unwrap_err();
    assert_eq!(error_message(PrincipalKind::Admin, &err).as_str(), "Enter Valid Password");
}

#[test]
fn test_create_course() {
    let mut db = Db::new();

    // First signup and signin to get token
    let admin = CreateAdmin {
        email: String::from("admin3@test.com"),
        name: String::from("Test Admin"),
        password: String::from("adminpass123"),
    };

    let _ = signup_admin(&mut db, admin);

    let json = EmailAndPassword {
        email: "admin3@test.com".to_string(),
        password: "adminpass123".to_string(),
    };

    let signin_body = signin_admin(&db, json, ADMIN_SECRET, now_ts()).unwrap();
    let token = signin_body.token;

    // Create course, with the token passing the admin gate first
    let course = CreateCourseWithoutAdminId {
        title: "Test Course".to_string(),
        image_url: Some("https://test.com/image.jpg".to_string()),
        price: 5000,
    };

    let email = admin_middleware(Some(&token), ADMIN_SECRET).unwrap();
    let res = create_course_handler(&mut db, course, Some(email));
    assert!(res.is_ok());

    let course_res = res.unwrap();
    assert_eq!(course_res.title, "Test Course");
}

#[test]
fn test_create_course_without_auth() {
    let res = admin_middleware(None, ADMIN_SECRET);

    match res {
        Ok(_) => panic!("Expected error"),
        Err(e) => {
            assert_eq!(error_message(PrincipalKind::Admin, &e).as_str(), "token missing");
        },
    }
}

#[test]
fn test_update_course() {
    let mut db = Db::new();

    // First create an admin and get token
    let admin = CreateAdmin {
        email: String::from("admin4@test.com"),
        name: String::from("Test Admin"),
        password: String::from("adminpass123"),
    };

    let _ = signup_admin(&mut db, admin);

    let json = EmailAndPassword {
        email: "admin4@test.com".to_string(),
        password: "adminpass123".to_string(),
    };

    let signin_body = signin_admin(&db, json, ADMIN_SECRET, now_ts()).unwrap();
    let token = signin_body.token;

    // First create a course
    let course = CreateCourseWithoutAdminId {
        title: "Original Course".to_string(),
        image_url: Some("https://test.com/old.jpg".to_string()),
        price: 5000,
    };

    let email = admin_middleware(Some(&token), ADMIN_SECRET).unwrap();
    let created_course = create_course_handler(&mut db, course, Some(email)).unwrap();

    // Now update the course
    let update_course = UpdateCourse {
        title: "Updated Course".to_string(),
        image_url: Some("https://test.com/new.jpg".to_string()),
        price: 6000,
    };

    let email = admin_middleware(Some(&token), ADMIN_SECRET).unwrap();
    let update_res =
        update_course_handler(&mut db, update_course, created_course.id.clone(), Some(email));
    assert!(update_res.is_ok());

    let updated_course = update_res.unwrap();
    assert_eq!(updated_course.title, "Updated Course");
    assert_eq!(updated_course.price, 6000);
}

#[test]
fn test_get_all_courses() {
    let mut db = Db::new();

    // Create admin and get token
    let admin = CreateAdmin {
        email: String::from("admin7@test.com"),
        name: String::from("Test Admin"),
        password: String::from("adminpass123"),
    };

    let _ = signup_admin(&mut db, admin);

    let json = EmailAndPassword {
        email: "admin7@test.com".to_string(),
        password: "adminpass123".to_string(),
    };

    let signin_res_body = signin_admin(&db, json, ADMIN_SECRET, now_ts()).unwrap();
    let token = signin_res_body.token;

    // Create multiple courses
    let courses = vec![
        CreateCourseWithoutAdminId {
            title: "Course 1".to_string(),
            image_url: Some("https://test.com/1.jpg".to_string()),
            price: 5000,
        },
        CreateCourseWithoutAdminId {
            title: "Course 2".to_string(),
            image_url: Some("https://test.com/2.jpg".to_string()),
            price: 6000,
        },
    ];

    for course in courses {
        let email = admin_middleware(Some(&token), ADMIN_SECRET).unwrap();
        let _ = create_course_handler(&mut db, course, Some(email)).unwrap();
    }

    // Get all courses of this admin
    let email = admin_middleware(Some(&token), ADMIN_SECRET).unwrap();
    let get_res = get_all_courses_handler(&db, Some(email));
    assert!(get_res.is_ok());

    let courses = get_res.unwrap();
    assert_eq!(courses.len(), 2);
    assert!(courses.iter().any(|c| c.title == "Course 1"));
    assert!(courses.iter().any(|c| c.title == "Course 2"));
}

#[test]
fn admin_middleware_rejects_garbage_token() {
    let garbage = String::from("not-a-token");
    let res = admin_middleware(Some(&garbage), ADMIN_SECRET);
    assert_eq!(res.unwrap_err(), ApiError::InvalidToken);
}
