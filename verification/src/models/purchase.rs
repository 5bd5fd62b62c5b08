//! The purchase store.
//!
//! The store lives in memory (see [`crate::db`]); an operation fails only
//! where a constraint is violated, never for unavailability.

use vstd::prelude::*;

use crate::db::lemma_wf_push_purchase;
use crate::db::Db;
use crate::errors::CustomError;
use crate::ids::format_u64;
use crate::ids::spec_dec;
use crate::schema::StructWithId;

verus! {

/// A stored purchase record: this user bought this course.
#[derive(Debug, Clone, Copy, PartialEq, Eq, Structural)]
pub struct Purchase {
    pub id: u64,
    pub user_id: u64,
    pub course_id: u64,
}

/// Whether a purchase row belongs to this user.
pub open spec fn purchased_by(user_id: u64) -> spec_fn(Purchase) -> bool {
    |p: Purchase| p.user_id == user_id
}

/// Filtering distributes over appending one element.
proof fn lemma_filter_push<A>(s: Seq<A>, pred: spec_fn(A) -> bool, x: A)
    ensures
        s.push(x).filter(pred) == (if pred(x) {
            s.filter(pred).push(x)
        } else {
            s.filter(pred)
        }),
{
    reveal(Seq::filter);
    assert(s.push(x).drop_last() =~= s);
    assert(s.push(x).last() == x);
}

/// List the purchases of this user, in store order.
pub fn get_user_purchases(db: &Db, user_id: u64) -> (r: Result<Vec<Purchase>, CustomError>)
    ensures
        r matches Ok(v) && v@ == db.purchases@.filter(purchased_by(user_id)),
{
    let mut out: Vec<Purchase> = Vec::new();
    let n = db.purchases.len();
    let mut i: usize = 0;
    proof {
        reveal(Seq::filter);
        assert(db.purchases@.take(0).filter(purchased_by(user_id)) =~= Seq::<Purchase>::empty());
    }
    while i < n
        invariant
            n == db.purchases@.len(),
            0 <= i <= n,
            out@ == db.purchases@.take(i as int).filter(purchased_by(user_id)),
        decreases n - i,
    {
        proof {
            assert(db.purchases@.take(i + 1) =~= db.purchases@.take(i as int).push(
                db.purchases@[i as int],
            ));
            lemma_filter_push(
                db.purchases@.take(i as int),
                purchased_by(user_id),
                db.purchases@[i as int],
            );
        }
        if db.purchases[i].user_id == user_id {
            let p = db.purchases[i];
            out.push(p);
        }
        i = i + 1;
    }
    proof {
        assert(db.purchases@.take(n as int) =~= db.purchases@);
    }
    Ok(out)
}

/// Whether a user row with this identifier exists.
fn has_user_with_id(db: &Db, user_id: u64) -> (b: bool)
    ensures
        b == db.has_user_id(user_id),
{
    let n = db.users.len();
    let mut i: usize = 0;
    while i < n
        invariant
            n == db.users@.len(),
            0 <= i <= n,
            forall|k: int| 0 <= k < i ==> (#[trigger] db.users@[k].id) != user_id,
        decreases n - i,
    {
        if db.users[i].id == user_id {
            assert(db.has_user_id(user_id));
            return true;
        }
        i = i + 1;
    }
    false
}

/// Whether a course row with this identifier exists.
fn has_course_with_id(db: &Db, course_id: u64) -> (b: bool)
    ensures
        b == db.has_course(course_id),
{
    let n = db.courses.len();
    let mut i: usize = 0;
    while i < n
        invariant
            n == db.courses@.len(),
            0 <= i <= n,
            forall|k: int| 0 <= k < i ==> (#[trigger] db.courses@[k].id) != course_id,
        decreases n - i,
    {
        if db.courses[i].id == course_id {
            assert(db.has_course(course_id));
            return true;
        }
        i = i + 1;
    }
    false
}

/// Record that this user purchased this course, assigning the row a fresh
/// identifier, and return the identifier in display form. Fails exactly
/// when the pair is already recorded (the store's uniqueness constraint on
/// it) or when the user or the course does not exist (its foreign-key
/// constraints).
pub fn purchase_course(db: &mut Db, course_id: u64, user_id: u64) -> (r: Result<
    StructWithId,
    CustomError,
>)
    requires
        old(db).wf(),
        old(db).next_id < u64::MAX,
    ensures
        final(db).wf(),
        (old(db).has_purchase(user_id, course_id) || !old(db).has_user_id(user_id) || !old(
            db,
        ).has_course(course_id)) ==> *final(db) == *old(db) && (r matches Err(e) && e.error@
            == "Error while purchasing the course"@),
        (!old(db).has_purchase(user_id, course_id) && old(db).has_user_id(user_id) && old(
            db,
        ).has_course(course_id)) ==> (r matches Ok(s) && s.id@ == spec_dec(
            old(db).next_id as nat,
        )) && final(db).purchases@ == old(db).purchases@.push(
            (Purchase { id: old(db).next_id, user_id: user_id, course_id: course_id }),
        ) && final(db).admins@ == old(db).admins@ && final(db).users@ == old(db).users@ && final(db).courses@ == old(
            db,
        ).courses@ && final(db).next_id == old(db).next_id + 1 && final(db).has_purchase(user_id, course_id),
{
    let n = db.purchases.len();
    let mut i: usize = 0;
    while i < n
        invariant
            db.wf(),
            n == db.purchases@.len(),
            0 <= i <= n,
            forall|k: int|
                0 <= k < i ==> !((#[trigger] db.purchases@[k]).user_id == user_id
                    && db.purchases@[k].course_id == course_id),
        decreases n - i,
    {
        if db.purchases[i].user_id == user_id && db.purchases[i].course_id == course_id {
            assert(db.has_purchase(user_id, course_id));
            return Err(CustomError { error: "Error while purchasing the course".to_owned() });
        }
        i = i + 1;
    }
    if !has_user_with_id(db, user_id) {
        return Err(CustomError { error: "Error while purchasing the course".to_owned() });
    }
    if !has_course_with_id(db, course_id) {
        return Err(CustomError { error: "Error while purchasing the course".to_owned() });
    }
    let id_num = db.next_id;
    let row = Purchase { id: id_num, user_id: user_id, course_id: course_id };
    let ghost db1 = *db;
    db.purchases.push(row);
    db.next_id = id_num + 1;
    proof {
        lemma_wf_push_purchase(db1, *db, row);
    }
    Ok(StructWithId { id: format_u64(id_num) })
}

} // verus!
