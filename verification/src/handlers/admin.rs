//! The admin-facing handlers: signup, signin, and course management.

use vstd::prelude::*;

use crate::db::Db;
use crate::errors::ApiError;
use crate::ids::lemma_parse_of_dec;
use crate::ids::parse_u64;
use crate::ids::spec_dec;
use crate::ids::spec_parse_dec;
use crate::models::admin::check_admin_exists;
use crate::models::admin::create_admin;
use crate::models::admin::get_admin_id_by_email;
use crate::models::admin::retrieve_admin_password;
use crate::models::admin::Admin;
use crate::models::course::create_course;
use crate::models::course::get_all_admin_courses;
use crate::models::course::get_course_by_id;
use crate::models::course::owned_by;
use crate::models::course::update_course;
use crate::models::course::Course;
use crate::schema::admin::course_response_matches;
use crate::schema::admin::CourseResponse;
use crate::schema::admin::CreateAdmin;
use crate::schema::admin::CreateCourse;
use crate::schema::admin::CreateCourseWithoutAdminId;
use crate::schema::admin::UpdateCourse;
use crate::schema::EmailAndPassword;
use crate::schema::JWTClaims;
use crate::schema::SigninResponse;
use crate::schema::SignupResponse;
use crate::token::jwt_encode;
use crate::token::jwt_valid;
use crate::utils::hash_password;
use crate::utils::password_matches;
use crate::utils::verify_password;

verus! {

/// What a completed admin signup guarantees, relating the store before and
/// after to the result. With the email already registered, nothing changes
/// and the duplicate is reported. With a fresh email, either a row whose
/// hash verifies against the given password is appended, the identifier is
/// returned, and the email is registered from then on — so a repeated
/// signup with the same email falls under the first case — or the hasher
/// failed and nothing changed.
pub open spec fn signup_admin_post(
    db1: Db,
    db2: Db,
    admin: CreateAdmin,
    r: Result<SignupResponse, ApiError>,
) -> bool {
    &&& db1.has_admin_email(admin.email@) ==> r == Err::<SignupResponse, ApiError>(
        ApiError::DuplicateEmail,
    ) && db2 == db1
    &&& !db1.has_admin_email(admin.email@) ==> match r {
        Ok(resp) => {
            &&& resp.message@ == "Signed up successfully"@
            &&& resp.id@ == spec_dec(db1.next_id as nat)
            &&& exists|h: String|
                #[trigger] password_matches(admin.password@, h@) && db2.admins@
                    == db1.admins@.push(
                    Admin { id: db1.next_id, name: admin.name, email: admin.email, password: h },
                )
            &&& db2.users@ == db1.users@
            &&& db2.courses@ == db1.courses@
            &&& db2.purchases@ == db1.purchases@
            &&& db2.next_id == db1.next_id + 1
            &&& db2.has_admin_email(admin.email@)
        },
        Err(e) => e == ApiError::InternalError && db2 == db1,
    }
}

/// Sign up a new admin: reject an email that is already registered, hash
/// the password, and persist the record.
pub fn signup_admin(db: &mut Db, admin: CreateAdmin) -> (r: Result<SignupResponse, ApiError>)
    requires
        old(db).wf(),
        old(db).next_id < u64::MAX,
    ensures
        final(db).wf(),
        signup_admin_post(*old(db), *final(db), admin, r),
{
    let admin_exists = check_admin_exists(db, admin.email.as_str());
    let exists_flag = match admin_exists {
        Ok(b) => b,
        Err(_) => {
            return Err(ApiError::InternalError);
        },
    };
    if exists_flag {
        return Err(ApiError::DuplicateEmail);
    }
    let password_hash = hash_password(admin.password.as_str());
    let hashed = match password_hash {
        Ok(h) => h,
        Err(_) => {
            return Err(ApiError::InternalError);
        },
    };
    let ghost hval = hashed;
    let admin_meta = CreateAdmin {
        email: admin.email.clone(),
        name: admin.name.clone(),
        password: hashed,
    };
    let signup_result = create_admin(db, admin_meta);
    match signup_result {
        Ok(res) => {
            proof {
                assert(password_matches(admin.password@, hval@));
                assert(db.admins@ == old(db).admins@.push(
                    Admin {
                        id: old(db).next_id,
                        name: admin.name,
                        email: admin.email,
                        password: hval,
                    },
                ));
                assert(db.admins@[old(db).admins@.len() as int].email@ == admin.email@);
                assert(db.has_admin_email(admin.email@));
            }
            Ok(SignupResponse { message: "Signed up successfully".to_owned(), id: res })
        },
        Err(_) => Err(ApiError::InternalError),
    }
}

/// Sign in an admin: an unregistered email is turned away first, then the
/// password is verified against the stored hash, and only then is a token
/// minted under the admin secret — promised to arrive, and asserting the
/// email and an expiry of exactly one day past the given issuance time.
pub fn signin_admin(db: &Db, admin_data: EmailAndPassword, secret: &[u8], now: usize) -> (r: Result<
    SigninResponse,
    ApiError,
>)
    requires
        db.wf(),
        now + 86400 <= usize::MAX,
    ensures
        !db.has_admin_email(admin_data.email@) ==> r == Err::<SigninResponse, ApiError>(
            ApiError::NotRegistered,
        ),
        db.has_admin_email(admin_data.email@) && !password_matches(
            admin_data.password@,
            db.admin_record(admin_data.email@).password@,
        ) ==> r == Err::<SigninResponse, ApiError>(ApiError::InvalidCredentials),
        db.has_admin_email(admin_data.email@) && password_matches(
            admin_data.password@,
            db.admin_record(admin_data.email@).password@,
        ) ==> (r matches Ok(resp) && resp.message@ == "Signined in Successfully"@ && jwt_valid(
            resp.token@,
            secret@,
            admin_data.email@,
            (now + 86400) as usize,
        )),
{
    let user_exists = match check_admin_exists(db, admin_data.email.as_str()) {
        Ok(b) => b,
        Err(_) => {
            return Err(ApiError::InternalError);
        },
    };
    if !user_exists {
        return Err(ApiError::NotRegistered);
    }
    let hash = match retrieve_admin_password(db, admin_data.email.as_str()) {
        Ok(h) => h,
        Err(_) => {
            return Err(ApiError::InternalError);
        },
    };
    let is_valid = verify_password(admin_data.password.as_str(), hash.as_str());
    if is_valid.is_err() {
        return Err(ApiError::InvalidCredentials);
    }
    let claims = JWTClaims { sub: admin_data.email.clone(), exp: now + 86400 };
    match jwt_encode(&claims, secret) {
        Some(token) => Ok(
            SigninResponse { message: "Signined in Successfully".to_owned(), token },
        ),
        None => Err(ApiError::InternalError),
    }
}

/// Create a course owned by the authenticated admin: resolve the admin
/// email from the context to its identifier, persist the course, and
/// return it rendered for the wire.
pub fn create_course_handler(
    db: &mut Db,
    course: CreateCourseWithoutAdminId,
    admin_email: Option<String>,
) -> (r: Result<CourseResponse, ApiError>)
    requires
        old(db).wf(),
        old(db).next_id < u64::MAX,
    ensures
        final(db).wf(),
        admin_email is None ==> r == Err::<CourseResponse, ApiError>(ApiError::Forbidden)
            && *final(db) == *old(db),
        admin_email matches Some(e) ==> (if !old(db).has_admin_email(e@) {
            r == Err::<CourseResponse, ApiError>(ApiError::InternalError) && *final(db) == *old(db)
        } else {
            let row = Course {
                id: old(db).next_id,
                title: course.title,
                image_url: course.image_url,
                price: course.price,
                admin_id: old(db).admin_record(e@).id,
            };
            &&& (r matches Ok(resp) && course_response_matches(resp, row))
            &&& final(db).courses@ == old(db).courses@.push(row)
            &&& final(db).admins@ == old(db).admins@
            &&& final(db).users@ == old(db).users@
            &&& final(db).purchases@ == old(db).purchases@
            &&& final(db).next_id == old(db).next_id + 1
        }),
{
    let admin_email = match admin_email {
        None => {
            return Err(ApiError::Forbidden);
        },
        Some(e) => e,
    };
    let admin_id_str = match get_admin_id_by_email(db, &admin_email) {
        Ok(s) => s,
        Err(_) => {
            return Err(ApiError::InternalError);
        },
    };
    proof {
        lemma_parse_of_dec(db.admin_record(admin_email@).id);
    }
    let admin_id = match parse_u64(admin_id_str.as_str()) {
        Some(n) => n,
        None => {
            return Err(ApiError::InternalError);
        },
    };
    let course_details = CreateCourse {
        title: course.title,
        image_url: course.image_url,
        price: course.price,
        admin_id,
    };
    proof {
        let idx = db.admin_index(admin_email@);
        assert(db.admins@[idx].id == admin_id);
        assert(db.has_admin_id(admin_id));
    }
    match create_course(db, course_details) {
        Ok(c) => Ok(CourseResponse::from_course(&c)),
        Err(_) => Err(ApiError::InternalError),
    }
}

/// Update a course: the path identifier must parse, the authenticated
/// admin must exist and must own the course — otherwise the update is
/// forbidden — and on success all three mutable fields are overwritten and
/// the updated record returned.
pub fn update_course_handler(
    db: &mut Db,
    course: UpdateCourse,
    path: String,
    admin_email: Option<String>,
) -> (r: Result<CourseResponse, ApiError>)
    requires
        old(db).wf(),
    ensures
        final(db).wf(),
        spec_parse_dec(path@) is None ==> r == Err::<CourseResponse, ApiError>(
            ApiError::InternalError,
        ) && *final(db) == *old(db),
        spec_parse_dec(path@) matches Some(cid) ==> match admin_email {
            None => r == Err::<CourseResponse, ApiError>(ApiError::Forbidden)
                && *final(db) == *old(db),
            Some(e) => (if !old(db).has_admin_email(e@) {
                r == Err::<CourseResponse, ApiError>(ApiError::InternalError)
                    && *final(db) == *old(db)
            } else if !old(db).has_course(cid) {
                r == Err::<CourseResponse, ApiError>(ApiError::InternalError)
                    && *final(db) == *old(db)
            } else if old(db).course_record(cid).admin_id != old(db).admin_record(e@).id {
                r == Err::<CourseResponse, ApiError>(ApiError::Forbidden) && *final(db) == *old(db)
            } else {
                let row = Course {
                    id: cid,
                    title: course.title,
                    image_url: course.image_url,
                    price: course.price,
                    admin_id: old(db).course_record(cid).admin_id,
                };
                &&& (r matches Ok(resp) && course_response_matches(resp, row))
                &&& final(db).courses@ == old(db).courses@.update(old(db).course_index(cid), row)
                &&& final(db).admins@ == old(db).admins@
                &&& final(db).users@ == old(db).users@
                &&& final(db).purchases@ == old(db).purchases@
                &&& final(db).next_id == old(db).next_id
            }),
        },
{
    let course_id = match parse_u64(path.as_str()) {
        Some(n) => n,
        None => {
            return Err(ApiError::InternalError);
        },
    };
    let admin_email = match admin_email {
        None => {
            return Err(ApiError::Forbidden);
        },
        Some(e) => e,
    };
    let admin_id_str = match get_admin_id_by_email(db, &admin_email) {
        Ok(s) => s,
        Err(_) => {
            return Err(ApiError::InternalError);
        },
    };
    proof {
        lemma_parse_of_dec(db.admin_record(admin_email@).id);
    }
    let admin_id = match parse_u64(admin_id_str.as_str()) {
        Some(n) => n,
        None => {
            return Err(ApiError::InternalError);
        },
    };
    let existing_course = match get_course_by_id(db, course_id) {
        Ok(c) => c,
        Err(_) => {
            return Err(ApiError::InternalError);
        },
    };
    if existing_course.admin_id != admin_id {
        return Err(ApiError::Forbidden);
    }
    match update_course(db, course_id, course) {
        Ok(c) => Ok(CourseResponse::from_course(&c)),
        Err(_) => Err(ApiError::InternalError),
    }
}

/// List the courses owned by the authenticated admin, rendered for the
/// wire, in store order.
pub fn get_all_courses_handler(db: &Db, admin_email: Option<String>) -> (r: Result<
    Vec<CourseResponse>,
    ApiError,
>)
    requires
        db.wf(),
    ensures
        admin_email is None ==> r == Err::<Vec<CourseResponse>, ApiError>(ApiError::Forbidden),
        admin_email matches Some(e) ==> (if !db.has_admin_email(e@) {
            r == Err::<Vec<CourseResponse>, ApiError>(ApiError::InternalError)
        } else {
            let mine = db.courses@.filter(owned_by(db.admin_record(e@).id));
            r matches Ok(v) && v@.len() == mine.len() && (forall|k: int|
                0 <= k < v@.len() ==> course_response_matches(#[trigger] v@[k], mine[k]))
        }),
{
    let admin_email = match admin_email {
        None => {
            return Err(ApiError::Forbidden);
        },
        Some(e) => e,
    };
    let admin_id_str = match get_admin_id_by_email(db, &admin_email) {
        Ok(s) => s,
        Err(_) => {
            return Err(ApiError::InternalError);
        },
    };
    proof {
        lemma_parse_of_dec(db.admin_record(admin_email@).id);
    }
    let admin_id = match parse_u64(admin_id_str.as_str()) {
        Some(n) => n,
        None => {
            return Err(ApiError::InternalError);
        },
    };
    let courses = match get_all_admin_courses(db, admin_id) {
        Ok(v) => v,
        Err(_) => {
            return Err(ApiError::InternalError);
        },
    };
    let mut out: Vec<CourseResponse> = Vec::new();
    let n = courses.len();
    let mut i: usize = 0;
    while i < n
        invariant
            n == courses@.len(),
            0 <= i <= n,
            out@.len() == i,
            forall|k: int|
                0 <= k < i ==> course_response_matches(#[trigger] out@[k], courses@[k]),
        decreases n - i,
    {
        out.push(CourseResponse::from_course(&courses[i]));
        i = i + 1;
    }
    Ok(out)
}

} // verus!
