//! The user-facing handlers: signup, signin, and the purchase listing.

use vstd::prelude::*;

use crate::db::Db;
use crate::errors::ApiError;
use crate::ids::lemma_parse_of_dec;
use crate::ids::parse_u64;
use crate::ids::spec_dec;
use crate::models::purchase::get_user_purchases;
use crate::models::purchase::purchased_by;
use crate::models::purchase::Purchase;
use crate::models::user::check_user_exists;
use crate::models::user::create_user;
use crate::models::user::get_user_id_by_email;
use crate::models::user::retrieve_password;
use crate::models::user::User;
use crate::schema::user::CreateUser;
use crate::schema::EmailAndPassword;
use crate::schema::JWTClaims;
use crate::schema::SigninResponse;
use crate::schema::SignupResponse;
use crate::schema::StructWithEmail;
use crate::token::jwt_encode;
use crate::token::jwt_valid;
use crate::utils::hash_password;
use crate::utils::password_matches;
use crate::utils::verify_password;

verus! {

/// What a completed user signup guarantees, relating the store before and
/// after to the result. With the email already registered, nothing changes
/// and the duplicate is reported. With a fresh email, either a row whose
/// hash verifies against the given password is appended, the identifier is
/// returned, and the email is registered from then on — so a repeated
/// signup with the same email falls under the first case — or the hasher
/// failed and nothing changed.
pub open spec fn signup_user_post(
    db1: Db,
    db2: Db,
    user: CreateUser,
    r: Result<SignupResponse, ApiError>,
) -> bool {
    &&& db1.has_user_email(user.email@) ==> r == Err::<SignupResponse, ApiError>(
        ApiError::DuplicateEmail,
    ) && db2 == db1
    &&& !db1.has_user_email(user.email@) ==> match r {
        Ok(resp) => {
            &&& resp.message@ == "Signed up successfully"@
            &&& resp.id@ == spec_dec(db1.next_id as nat)
            &&& exists|h: String|
                #[trigger] password_matches(user.password@, h@) && db2.users@ == db1.users@.push(
                    User { id: db1.next_id, name: user.name, email: user.email, password: h },
                )
            &&& db2.admins@ == db1.admins@
            &&& db2.courses@ == db1.courses@
            &&& db2.purchases@ == db1.purchases@
            &&& db2.next_id == db1.next_id + 1
            &&& db2.has_user_email(user.email@)
        },
        Err(e) => e == ApiError::InternalError && db2 == db1,
    }
}

/// Sign up a new user: reject an email that is already registered, hash
/// the password, and persist the record.
pub fn signup_user(db: &mut Db, user: CreateUser) -> (r: Result<SignupResponse, ApiError>)
    requires
        old(db).wf(),
        old(db).next_id < u64::MAX,
    ensures
        final(db).wf(),
        signup_user_post(*old(db), *final(db), user, r),
{
    let user_exists = check_user_exists(db, user.email.as_str());
    let exists_flag = match user_exists {
        Ok(b) => b,
        Err(_) => {
            return Err(ApiError::InternalError);
        },
    };
    if exists_flag {
        return Err(ApiError::DuplicateEmail);
    }
    let password_hash = hash_password(user.password.as_str());
    let hashed = match password_hash {
        Ok(h) => h,
        Err(_) => {
            return Err(ApiError::InternalError);
        },
    };
    let ghost hval = hashed;
    let user_meta = CreateUser {
        email: user.email.clone(),
        name: user.name.clone(),
        password: hashed,
    };
    let signup_result = create_user(db, user_meta);
    match signup_result {
        Ok(res) => {
            proof {
                assert(password_matches(user.password@, hval@));
                assert(db.users@ == old(db).users@.push(
                    User {
                        id: old(db).next_id,
                        name: user.name,
                        email: user.email,
                        password: hval,
                    },
                ));
                assert(db.users@[old(db).users@.len() as int].email@ == user.email@);
                assert(db.has_user_email(user.email@));
            }
            Ok(SignupResponse { message: "Signed up successfully".to_owned(), id: res })
        },
        Err(_) => Err(ApiError::InternalError),
    }
}

/// Sign in a user: an unregistered email is turned away first, then the
/// password is verified against the stored hash, and only then is a token
/// minted under the user secret — promised to arrive, and asserting the
/// email and an expiry of exactly one day past the given issuance time.
pub fn signin_user(db: &Db, user_data: EmailAndPassword, secret: &[u8], now: usize) -> (r: Result<
    SigninResponse,
    ApiError,
>)
    requires
        db.wf(),
        now + 86400 <= usize::MAX,
    ensures
        !db.has_user_email(user_data.email@) ==> r == Err::<SigninResponse, ApiError>(
            ApiError::NotRegistered,
        ),
        db.has_user_email(user_data.email@) && !password_matches(
            user_data.password@,
            db.user_record(user_data.email@).password@,
        ) ==> r == Err::<SigninResponse, ApiError>(ApiError::InvalidCredentials),
        db.has_user_email(user_data.email@) && password_matches(
            user_data.password@,
            db.user_record(user_data.email@).password@,
        ) ==> (r matches Ok(resp) && resp.message@ == "Signined in Successfully"@ && jwt_valid(
            resp.token@,
            secret@,
            user_data.email@,
            (now + 86400) as usize,
        )),
{
    let user_exists = match check_user_exists(db, user_data.email.as_str()) {
        Ok(b) => b,
        Err(_) => {
            return Err(ApiError::InternalError);
        },
    };
    if !user_exists {
        return Err(ApiError::NotRegistered);
    }
    let hash = match retrieve_password(db, user_data.email.as_str()) {
        Ok(h) => h,
        Err(_) => {
            return Err(ApiError::InternalError);
        },
    };
    let is_valid = verify_password(user_data.password.as_str(), hash.as_str());
    if is_valid.is_err() {
        return Err(ApiError::InvalidCredentials);
    }
    let claims = JWTClaims { sub: user_data.email.clone(), exp: now + 86400 };
    match jwt_encode(&claims, secret) {
        Some(token) => Ok(
            SigninResponse { message: "Signined in Successfully".to_owned(), token },
        ),
        None => Err(ApiError::InternalError),
    }
}

/// List the authenticated user's purchases, as stored, in store order.
pub fn user_purchases(db: &Db, ctx: Option<StructWithEmail>) -> (r: Result<Vec<Purchase>, ApiError>)
    requires
        db.wf(),
    ensures
        ctx is None ==> r == Err::<Vec<Purchase>, ApiError>(ApiError::Forbidden),
        ctx matches Some(c) ==> (if !db.has_user_email(c.email@) {
            r == Err::<Vec<Purchase>, ApiError>(ApiError::Forbidden)
        } else {
            r matches Ok(v) && v@ == db.purchases@.filter(
                purchased_by(db.user_record(c.email@).id),
            )
        }),
{
    let ctx = match ctx {
        None => {
            return Err(ApiError::Forbidden);
        },
        Some(c) => c,
    };
    let user_id_str = match get_user_id_by_email(db, &ctx.email) {
        Ok(s) => s,
        Err(_) => {
            return Err(ApiError::Forbidden);
        },
    };
    proof {
        lemma_parse_of_dec(db.user_record(ctx.email@).id);
    }
    let user_id = match parse_u64(user_id_str.as_str()) {
        Some(n) => n,
        None => {
            return Err(ApiError::Forbidden);
        },
    };
    match get_user_purchases(db, user_id) {
        Ok(purchases) => Ok(purchases),
        Err(_) => Err(ApiError::InternalError),
    }
}

} // verus!
