//! Laws of the library: properties that relate several operations, proved
//! from those operations' contracts alone.

use vstd::prelude::*;

use crate::db::lemma_admin_index_is;
use crate::db::lemma_user_index_is;
use crate::db::Db;
use crate::errors::ApiError;
use crate::handlers::admin::signup_admin_post;
use crate::handlers::course::purchase_course_post;
use crate::handlers::user::signup_user_post;
use crate::ids::spec_parse_dec;
use crate::models::admin::Admin;
use crate::models::user::User;
use crate::schema::admin::CreateAdmin;
use crate::schema::user::CreateUser;
use crate::schema::PurchaseResponse;
use crate::schema::SignupResponse;
use crate::schema::StructWithEmail;
use crate::token::hmac_key_of;
use crate::token::jwt_valid;
use crate::token::token_authorizes;
use crate::utils::password_matches;

verus! {

/// Admin signup succeeds exactly once per email: from a well-formed store
/// in which the email is not yet registered, a signup run that succeeds
/// registers it, and any later signup run with the same email, from the
/// store the first one left, is rejected as a duplicate and changes
/// nothing.
pub proof fn lemma_signup_admin_exactly_once(
    db1: Db,
    db2: Db,
    db3: Db,
    first: CreateAdmin,
    second: CreateAdmin,
    r1: Result<SignupResponse, ApiError>,
    r2: Result<SignupResponse, ApiError>,
)
    requires
        db1.wf(),
        !db1.has_admin_email(first.email@),
        signup_admin_post(db1, db2, first, r1),
        r1 is Ok,
        second.email@ == first.email@,
        signup_admin_post(db2, db3, second, r2),
    ensures
        db2.has_admin_email(first.email@),
        r2 == Err::<SignupResponse, ApiError>(ApiError::DuplicateEmail),
        db3 == db2,
{
}

/// User signup succeeds exactly once per email, independently of the
/// admin namespace: the same law as for admins, over the user table.
pub proof fn lemma_signup_user_exactly_once(
    db1: Db,
    db2: Db,
    db3: Db,
    first: CreateUser,
    second: CreateUser,
    r1: Result<SignupResponse, ApiError>,
    r2: Result<SignupResponse, ApiError>,
)
    requires
        db1.wf(),
        !db1.has_user_email(first.email@),
        signup_user_post(db1, db2, first, r1),
        r1 is Ok,
        second.email@ == first.email@,
        signup_user_post(db2, db3, second, r2),
    ensures
        db2.has_user_email(first.email@),
        r2 == Err::<SignupResponse, ApiError>(ApiError::DuplicateEmail),
        db3 == db2,
{
}

/// A successful admin signup stores a hash that verifies against the very
/// password that was signed up: signin with those same credentials
/// therefore, by the signin contract, succeeds and mints the token.
pub proof fn lemma_signup_admin_enables_signin(
    db1: Db,
    db2: Db,
    input: CreateAdmin,
    r1: Result<SignupResponse, ApiError>,
)
    requires
        db1.wf(),
        db2.wf(),
        signup_admin_post(db1, db2, input, r1),
        r1 is Ok,
    ensures
        db2.has_admin_email(input.email@),
        password_matches(input.password@, db2.admin_record(input.email@).password@),
{
    assert(!db1.has_admin_email(input.email@));
    let h = choose|h: String|
        password_matches(input.password@, h@) && db2.admins@ == db1.admins@.push(
            Admin { id: db1.next_id, name: input.name, email: input.email, password: h },
        );
    let last = db1.admins@.len() as int;
    assert(db2.admins@[last].email@ == input.email@);
    lemma_admin_index_is(db2, input.email@, last);
    assert(db2.admin_record(input.email@).password == h);
}

/// A successful user signup stores a hash that verifies against the very
/// password that was signed up: the same law as for admins, over the user
/// table.
pub proof fn lemma_signup_user_enables_signin(
    db1: Db,
    db2: Db,
    input: CreateUser,
    r1: Result<SignupResponse, ApiError>,
)
    requires
        db1.wf(),
        db2.wf(),
        signup_user_post(db1, db2, input, r1),
        r1 is Ok,
    ensures
        db2.has_user_email(input.email@),
        password_matches(input.password@, db2.user_record(input.email@).password@),
{
    assert(!db1.has_user_email(input.email@));
    let h = choose|h: String|
        password_matches(input.password@, h@) && db2.users@ == db1.users@.push(
            User { id: db1.next_id, name: input.name, email: input.email, password: h },
        );
    let last = db1.users@.len() as int;
    assert(db2.users@[last].email@ == input.email@);
    lemma_user_index_is(db2, input.email@, last);
    assert(db2.user_record(input.email@).password == h);
}

/// The two principal kinds are authorization-disjoint: a token minted
/// under one secret is never accepted as authorization under a secret
/// that derives a different HMAC key. Since each middleware hands a
/// principal on only when `token_authorizes` holds under its own kind's
/// secret, an admin token never authorizes a user-only route, nor a user
/// token an admin-only one, whenever the two kinds' secrets derive
/// distinct keys — which any two distinct secrets of at most the block
/// size without trailing zero bytes do, ordinary configured secrets among
/// them.
pub proof fn lemma_cross_kind_rejection(
    token: Seq<char>,
    sub: Seq<char>,
    exp: usize,
    mint_secret: Seq<u8>,
    route_secret: Seq<u8>,
    email: Seq<char>,
)
    requires
        hmac_key_of(mint_secret) != hmac_key_of(route_secret),
        jwt_valid(token, mint_secret, sub, exp),
    ensures
        !token_authorizes(token, route_secret, email),
{
    if token_authorizes(token, route_secret, email) {
        assert(hmac_key_of(mint_secret) == hmac_key_of(route_secret));
    }
}

/// The same course is purchased at most once by the same user: a purchase
/// run that succeeds records the pair, and any later purchase run by the
/// same authenticated user for the same course identifier, from the store
/// the first one left, is rejected as a duplicate and changes nothing.
pub proof fn lemma_purchase_course_exactly_once(
    db1: Db,
    db2: Db,
    db3: Db,
    path: String,
    path2: String,
    ctx: Option<StructWithEmail>,
    ctx2: Option<StructWithEmail>,
    r1: Result<PurchaseResponse, ApiError>,
    r2: Result<PurchaseResponse, ApiError>,
)
    requires
        db1.wf(),
        db2.wf(),
        purchase_course_post(db1, db2, path, ctx, r1),
        r1 is Ok,
        path2@ == path@,
        ctx2 == ctx,
        purchase_course_post(db2, db3, path2, ctx2, r2),
    ensures
        r2 == Err::<PurchaseResponse, ApiError>(ApiError::DuplicatePurchase),
        db3 == db2,
{
    match ctx {
        None => {
            assert(false);
        },
        Some(c) => {
            assert(db1.has_user_email(c.email@));
            match spec_parse_dec(path@) {
                None => {
                    assert(false);
                },
                Some(cid) => {
                    let uid = db1.user_record(c.email@).id;
                    assert(db2.has_purchase(uid, cid));
                    assert(db2.users@ == db1.users@);
                    let i1 = db1.user_index(c.email@);
                    assert(db1.users@[i1].email@ == c.email@);
                    assert(db2.users@[i1].email@ == c.email@);
                    lemma_user_index_is(db2, c.email@, i1);
                    assert(db2.user_record(c.email@).id == uid);
                },
            }
        },
    }
}

} // verus!
