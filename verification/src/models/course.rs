//! The course store.
//!
//! The store lives in memory (see [`crate::db`]); an operation fails only
//! where a constraint is violated, never for unavailability.

use vstd::prelude::*;

use crate::db::lemma_course_index_is;
use crate::db::lemma_wf_push_course;
use crate::db::lemma_wf_update_course;
use crate::db::Db;
use crate::errors::CustomError;
use crate::schema::admin::CreateCourse;
use crate::schema::admin::UpdateCourse;

verus! {

/// A stored course record.
#[derive(Debug)]
pub struct Course {
    pub id: u64,
    pub title: String,
    pub image_url: Option<String>,
    pub price: i32,
    pub admin_id: u64,
}

/// Whether a course row is owned by this admin.
pub open spec fn owned_by(admin_id: u64) -> spec_fn(Course) -> bool {
    |c: Course| c.admin_id == admin_id
}

/// Duplicate an optional string, value for value.
fn clone_opt_string(o: &Option<String>) -> (r: Option<String>)
    ensures
        r == *o,
{
    match o {
        Some(s) => Some(s.clone()),
        None => None,
    }
}

/// Duplicate a course row, field for field.
fn clone_course(c: &Course) -> (r: Course)
    ensures
        r == *c,
{
    Course {
        id: c.id,
        title: c.title.clone(),
        image_url: clone_opt_string(&c.image_url),
        price: c.price,
        admin_id: c.admin_id,
    }
}

/// Filtering distributes over appending one element.
proof fn lemma_filter_push<A>(s: Seq<A>, pred: spec_fn(A) -> bool, x: A)
    ensures
        s.push(x).filter(pred) == (if pred(x) {
            s.filter(pred).push(x)
        } else {
            s.filter(pred)
        }),
{
    reveal(Seq::filter);
    assert(s.push(x).drop_last() =~= s);
    assert(s.push(x).last() == x);
}

/// Whether an admin row with this identifier exists.
fn has_admin_with_id(db: &Db, admin_id: u64) -> (b: bool)
    ensures
        b == db.has_admin_id(admin_id),
{
    let n = db.admins.len();
    let mut i: usize = 0;
    while i < n
        invariant
            n == db.admins@.len(),
            0 <= i <= n,
            forall|k: int| 0 <= k < i ==> (#[trigger] db.admins@[k].id) != admin_id,
        decreases n - i,
    {
        if db.admins[i].id == admin_id {
            assert(db.has_admin_id(admin_id));
            return true;
        }
        i = i + 1;
    }
    false
}

/// The row index of the course with this identifier, if any.
fn find_course_index(db: &Db, id: u64) -> (r: Option<usize>)
    requires
        db.wf(),
    ensures
        r matches Some(i) ==> i < db.courses@.len() && db.courses@[i as int].id == id
            && db.course_index(id) == i && db.has_course(id) && db.course_record(id)
            == db.courses@[i as int],
        r is None ==> !db.has_course(id),
{
    let n = db.courses.len();
    let mut i: usize = 0;
    while i < n
        invariant
            db.wf(),
            n == db.courses@.len(),
            0 <= i <= n,
            forall|k: int| 0 <= k < i ==> (#[trigger] db.courses@[k].id) != id,
        decreases n - i,
    {
        if db.courses[i].id == id {
            proof {
                lemma_course_index_is(*db, id, i as int);
            }
            return Some(i);
        }
        i = i + 1;
    }
    None
}

/// Insert a new course record owned by this admin, assigning it a fresh
/// identifier, and return the inserted row. Fails exactly when the owning
/// admin does not exist: the store's foreign-key constraint.
pub fn create_course(db: &mut Db, course_details: CreateCourse) -> (r: Result<Course, CustomError>)
    requires
        old(db).wf(),
        old(db).next_id < u64::MAX,
    ensures
        final(db).wf(),
        !old(db).has_admin_id(course_details.admin_id) ==> *final(db) == *old(db) && (r matches Err(e)
            && e.error@ == "Error while creating a course"@),
        old(db).has_admin_id(course_details.admin_id) ==> (r matches Ok(c) && c == (Course {
            id: old(db).next_id,
            title: course_details.title,
            image_url: course_details.image_url,
            price: course_details.price,
            admin_id: course_details.admin_id,
        })) && final(db).courses@ == old(db).courses@.push(
            (Course {
                id: old(db).next_id,
                title: course_details.title,
                image_url: course_details.image_url,
                price: course_details.price,
                admin_id: course_details.admin_id,
            }),
        ) && final(db).admins@ == old(db).admins@ && final(db).users@ == old(db).users@ && final(db).purchases@ == old(
            db,
        ).purchases@ && final(db).next_id == old(db).next_id + 1,
{
    if !has_admin_with_id(db, course_details.admin_id) {
        return Err(CustomError { error: "Error while creating a course".to_owned() });
    }
    let id_num = db.next_id;
    let row = Course {
        id: id_num,
        title: course_details.title,
        image_url: course_details.image_url,
        price: course_details.price,
        admin_id: course_details.admin_id,
    };
    let result = clone_course(&row);
    let ghost db1 = *db;
    let ghost row_spec = row;
    db.courses.push(row);
    db.next_id = id_num + 1;
    proof {
        lemma_wf_push_course(db1, *db, row_spec);
    }
    Ok(result)
}

/// Fetch the course with this identifier. Fails exactly when there is
/// none.
pub fn get_course_by_id(db: &Db, id: u64) -> (r: Result<Course, CustomError>)
    requires
        db.wf(),
    ensures
        db.has_course(id) ==> (r matches Ok(c) && c == db.course_record(id)),
        !db.has_course(id) ==> (r matches Err(e) && e.error@ == "Error while fetching the course"@),
{
    match find_course_index(db, id) {
        Some(i) => Ok(clone_course(&db.courses[i])),
        None => Err(CustomError { error: "Error while fetching the course".to_owned() }),
    }
}

/// Overwrite the three mutable fields of the course with this identifier —
/// its identifier and owning admin are immutable — and return the updated
/// row. Fails exactly when there is no such course.
pub fn update_course(db: &mut Db, id: u64, updated_course: UpdateCourse) -> (r: Result<
    Course,
    CustomError,
>)
    requires
        old(db).wf(),
    ensures
        final(db).wf(),
        !old(db).has_course(id) ==> *final(db) == *old(db) && (r matches Err(e) && e.error@
            == "Error while updating the course"@),
        old(db).has_course(id) ==> (r matches Ok(c) && c == (Course {
            id: id,
            title: updated_course.title,
            image_url: updated_course.image_url,
            price: updated_course.price,
            admin_id: old(db).course_record(id).admin_id,
        })) && final(db).courses@ == old(db).courses@.update(
            old(db).course_index(id),
            (Course {
                id: id,
                title: updated_course.title,
                image_url: updated_course.image_url,
                price: updated_course.price,
                admin_id: old(db).course_record(id).admin_id,
            }),
        ) && final(db).admins@ == old(db).admins@ && final(db).users@ == old(db).users@ && final(db).purchases@ == old(
            db,
        ).purchases@ && final(db).next_id == old(db).next_id,
{
    let found = find_course_index(db, id);
    match found {
        Some(i) => {
            let stored = Course {
                id: id,
                title: updated_course.title,
                image_url: updated_course.image_url,
                price: updated_course.price,
                admin_id: db.courses[i].admin_id,
            };
            let result = clone_course(&stored);
            let ghost db1 = *db;
            let ghost stored_spec = stored;
            db.courses[i] = stored;
            proof {
                lemma_wf_update_course(db1, *db, i as int, stored_spec);
            }
            Ok(result)
        },
        None => Err(CustomError { error: "Error while updating the course".to_owned() }),
    }
}

/// List the courses owned by this admin, in store order.
pub fn get_all_admin_courses(db: &Db, admin_id: u64) -> (r: Result<Vec<Course>, CustomError>)
    ensures
        r matches Ok(v) && v@ == db.courses@.filter(owned_by(admin_id)),
{
    let mut out: Vec<Course> = Vec::new();
    let n = db.courses.len();
    let mut i: usize = 0;
    proof {
        reveal(Seq::filter);
        assert(db.courses@.take(0).filter(owned_by(admin_id)) =~= Seq::<Course>::empty());
    }
    while i < n
        invariant
            n == db.courses@.len(),
            0 <= i <= n,
            out@ == db.courses@.take(i as int).filter(owned_by(admin_id)),
        decreases n - i,
    {
        proof {
            assert(db.courses@.take(i + 1) =~= db.courses@.take(i as int).push(
                db.courses@[i as int],
            ));
            lemma_filter_push(db.courses@.take(i as int), owned_by(admin_id), db.courses@[i as int]);
        }
        if db.courses[i].admin_id == admin_id {
            out.push(clone_course(&db.courses[i]));
        }
        i = i + 1;
    }
    proof {
        assert(db.courses@.take(n as int) =~= db.courses@);
    }
    Ok(out)
}

/// List every course of every admin, in store order.
pub fn get_all_courses(db: &Db) -> (r: Result<Vec<Course>, CustomError>)
    ensures
        r matches Ok(v) && v@ == db.courses@,
{
    let mut out: Vec<Course> = Vec::new();
    let n = db.courses.len();
    let mut i: usize = 0;
    while i < n
        invariant
            n == db.courses@.len(),
            0 <= i <= n,
            out@ == db.courses@.take(i as int),
        decreases n - i,
    {
        out.push(clone_course(&db.courses[i]));
        proof {
            assert(db.courses@.take(i + 1) =~= db.courses@.take(i as int).push(
                db.courses@[i as int],
            ));
        }
        i = i + 1;
    }
    proof {
        assert(db.courses@.take(n as int) =~= db.courses@);
    }
    Ok(out)
}

} // verus!
