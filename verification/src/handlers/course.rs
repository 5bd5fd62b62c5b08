//! The public course listing and the purchase handler.

use vstd::prelude::*;
use vstd::seq_lib::*;

use crate::db::Db;
use crate::errors::ApiError;
use crate::ids::lemma_parse_of_dec;
use crate::ids::parse_u64;
use crate::ids::spec_dec;
use crate::ids::spec_parse_dec;
use crate::models::course::get_all_courses;
use crate::models::purchase::get_user_purchases;
use crate::models::purchase::purchase_course;
use crate::models::purchase::purchased_by;
use crate::models::purchase::Purchase;
use crate::models::user::get_user_id_by_email;
use crate::schema::admin::course_response_matches;
use crate::schema::admin::CourseResponse;
use crate::schema::PurchaseResponse;
use crate::schema::StructWithEmail;

verus! {

/// An element of a filtering comes from the filtered sequence and
/// satisfies the predicate.
proof fn lemma_filter_membership<A>(s: Seq<A>, pred: spec_fn(A) -> bool, i: int)
    requires
        0 <= i < s.filter(pred).len(),
    ensures
        exists|j: int| 0 <= j < s.len() && s[j] == s.filter(pred)[i],
        pred(s.filter(pred)[i]),
    decreases s.len(),
{
    reveal(Seq::filter);
    broadcast use Seq::lemma_filter_len;

    if s.len() == 0 {
    } else {
        let pre = s.drop_last();
        if pred(s.last()) {
            if i < pre.filter(pred).len() {
                lemma_filter_membership(pre, pred, i);
                let j = choose|j: int| 0 <= j < pre.len() && pre[j] == pre.filter(pred)[i];
                assert(s[j] == pre[j]);
                assert(s.filter(pred)[i] == pre.filter(pred)[i]);
            } else {
                assert(s.filter(pred)[i] == s.last());
                assert(s[s.len() - 1] == s.last());
            }
        } else {
            assert(s.filter(pred) == pre.filter(pred));
            lemma_filter_membership(pre, pred, i);
            let j = choose|j: int| 0 <= j < pre.len() && pre[j] == pre.filter(pred)[i];
            assert(s[j] == pre[j]);
        }
    }
}

/// What a completed purchase guarantees, relating the store before and
/// after to the result. Without an authenticated user context, or with a
/// context whose email resolves to no user, the purchase is forbidden; a
/// path that is no identifier fails internally; a course the user already
/// purchased is reported as a duplicate and nothing changes — so after a
/// successful purchase a repeated one falls under that case; a course
/// identifier that exists and is new for the user is recorded, and the
/// fresh purchase identifier returned.
pub open spec fn purchase_course_post(
    db1: Db,
    db2: Db,
    path: String,
    ctx: Option<StructWithEmail>,
    r: Result<PurchaseResponse, ApiError>,
) -> bool {
    match ctx {
        None => r == Err::<PurchaseResponse, ApiError>(ApiError::Forbidden) && db2 == db1,
        Some(c) => (if !db1.has_user_email(c.email@) {
            r == Err::<PurchaseResponse, ApiError>(ApiError::Forbidden) && db2 == db1
        } else {
            match spec_parse_dec(path@) {
                None => r == Err::<PurchaseResponse, ApiError>(ApiError::InternalError) && db2
                    == db1,
                Some(cid) => {
                    let uid = db1.user_record(c.email@).id;
                    if db1.has_purchase(uid, cid) {
                        r == Err::<PurchaseResponse, ApiError>(ApiError::DuplicatePurchase) && db2
                            == db1
                    } else if !db1.has_course(cid) {
                        r == Err::<PurchaseResponse, ApiError>(ApiError::InternalError) && db2
                            == db1
                    } else {
                        &&& (r matches Ok(resp) && resp.id@ == spec_dec(db1.next_id as nat)
                            && resp.message@ == "Purchased Successfully"@)
                        &&& db2.purchases@ == db1.purchases@.push(
                            (Purchase { id: db1.next_id, user_id: uid, course_id: cid }),
                        )
                        &&& db2.admins@ == db1.admins@
                        &&& db2.users@ == db1.users@
                        &&& db2.courses@ == db1.courses@
                        &&& db2.next_id == db1.next_id + 1
                        &&& db2.has_purchase(uid, cid)
                    }
                },
            }
        }),
    }
}

/// Purchase the course named by the path for the authenticated user: at
/// most one purchase per (user, course) pair ever succeeds.
pub fn purchase_course_handler(db: &mut Db, path: String, ctx: Option<StructWithEmail>) -> (r:
    Result<PurchaseResponse, ApiError>)
    requires
        old(db).wf(),
        old(db).next_id < u64::MAX,
    ensures
        final(db).wf(),
        purchase_course_post(*old(db), *final(db), path, ctx, r),
{
    let principal = match ctx {
        None => {
            return Err(ApiError::Forbidden);
        },
        Some(c) => c,
    };
    let user_id_str = match get_user_id_by_email(db, &principal.email) {
        Ok(s) => s,
        Err(_) => {
            return Err(ApiError::Forbidden);
        },
    };
    proof {
        lemma_parse_of_dec(db.user_record(principal.email@).id);
    }
    let user_id = match parse_u64(user_id_str.as_str()) {
        Some(n) => n,
        None => {
            return Err(ApiError::Forbidden);
        },
    };
    let course_id = match parse_u64(path.as_str()) {
        Some(n) => n,
        None => {
            return Err(ApiError::InternalError);
        },
    };
    let existing_purchases = match get_user_purchases(db, user_id) {
        Ok(v) => v,
        Err(_) => {
            return Err(ApiError::InternalError);
        },
    };
    let n = existing_purchases.len();
    let mut i: usize = 0;
    while i < n
        invariant
            db.wf(),
            n == existing_purchases@.len(),
            0 <= i <= n,
            ctx == Some(principal),
            db.has_user_email(principal.email@),
            user_id == db.user_record(principal.email@).id,
            spec_parse_dec(path@) == Some(course_id),
            existing_purchases@ == db.purchases@.filter(purchased_by(user_id)),
            forall|k: int| 0 <= k < i ==> (#[trigger] existing_purchases@[k].course_id)
                != course_id,
        decreases n - i,
    {
        if existing_purchases[i].course_id == course_id {
            proof {
                lemma_filter_membership(db.purchases@, purchased_by(user_id), i as int);
                let j = choose|j: int|
                    0 <= j < db.purchases@.len() && db.purchases@[j] == db.purchases@.filter(
                        purchased_by(user_id),
                    )[i as int];
                assert(db.purchases@[j].user_id == user_id && db.purchases@[j].course_id
                    == course_id);
                assert(db.has_purchase(user_id, course_id));
            }
            return Err(ApiError::DuplicatePurchase);
        }
        i = i + 1;
    }
    proof {
        assert(!db.has_purchase(user_id, course_id)) by {
            if db.has_purchase(user_id, course_id) {
                let j = choose|j: int|
                    0 <= j < db.purchases@.len() && (#[trigger] db.purchases@[j]).user_id == user_id
                        && db.purchases@[j].course_id == course_id;
                assert(purchased_by(user_id)(db.purchases@[j]));
                db.purchases@.lemma_filter_contains(purchased_by(user_id), j);
                assert(db.purchases@.filter(purchased_by(user_id)).contains(db.purchases@[j]));
                let k = choose|k: int|
                    0 <= k < existing_purchases@.len() && existing_purchases@[k]
                        == db.purchases@[j];
                assert(existing_purchases@[k].course_id == course_id);
            }
        }
    }
    match purchase_course(db, course_id, user_id) {
        Ok(res) => Ok(PurchaseResponse { id: res.id, message: "Purchased Successfully" }),
        Err(_) => Err(ApiError::InternalError),
    }
}

/// List every course of every admin, rendered for the wire, in store
/// order: the public catalogue, no authentication required.
pub fn get_all_courses_handler(db: &Db) -> (r: Result<Vec<CourseResponse>, ApiError>)
    ensures
        r matches Ok(v) && v@.len() == db.courses@.len() && (forall|k: int|
            0 <= k < v@.len() ==> course_response_matches(#[trigger] v@[k], db.courses@[k])),
{
    let courses = match get_all_courses(db) {
        Ok(v) => v,
        Err(_) => {
            return Err(ApiError::InternalError);
        },
    };
    let mut out: Vec<CourseResponse> = Vec::new();
    let n = courses.len();
    let mut i: usize = 0;
    while i < n
        invariant
            n == courses@.len(),
            0 <= i <= n,
            out@.len() == i,
            forall|k: int| 0 <= k < i ==> course_response_matches(#[trigger] out@[k], courses@[k]),
        decreases n - i,
    {
        out.push(CourseResponse::from_course(&courses[i]));
        i = i + 1;
    }
    Ok(out)
}

} // verus!
