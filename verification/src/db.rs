//! The relational store, modeled in memory.
//!
//! One table per entity kind, each row carrying an opaque numeric
//! identifier drawn from a single counter. [`Db::wf`] is the store's
//! invariant: email uniqueness scoped independently within admins and
//! within users, course-identifier uniqueness, at most one purchase per
//! (user, course) pair, and referential integrity — a course references an
//! existing admin, a purchase an existing user and course. Every store
//! operation preserves it.

use vstd::prelude::*;

use crate::models::admin::Admin;
use crate::models::course::Course;
use crate::models::purchase::Purchase;
use crate::models::user::User;

verus! {

/// The whole persistent state of the system.
#[derive(Debug)]
pub struct Db {
    pub admins: Vec<Admin>,
    pub users: Vec<User>,
    pub courses: Vec<Course>,
    pub purchases: Vec<Purchase>,
    /// The next identifier to assign; strictly above every identifier in
    /// the four tables.
    pub next_id: u64,
}

impl Db {
    /// Some admin row has this identifier.
    pub open spec fn has_admin_id(self, id: u64) -> bool {
        exists|j: int| 0 <= j < self.admins@.len() && #[trigger] self.admins@[j].id == id
    }

    /// Some user row has this identifier.
    pub open spec fn has_user_id(self, id: u64) -> bool {
        exists|j: int| 0 <= j < self.users@.len() && #[trigger] self.users@[j].id == id
    }

    /// Some course row has this identifier.
    pub open spec fn has_course(self, id: u64) -> bool {
        exists|j: int| 0 <= j < self.courses@.len() && #[trigger] self.courses@[j].id == id
    }

    /// Some admin row has this email.
    pub open spec fn has_admin_email(self, email: Seq<char>) -> bool {
        exists|j: int| 0 <= j < self.admins@.len() && #[trigger] self.admins@[j].email@ == email
    }

    /// Some user row has this email.
    pub open spec fn has_user_email(self, email: Seq<char>) -> bool {
        exists|j: int| 0 <= j < self.users@.len() && #[trigger] self.users@[j].email@ == email
    }

    /// This user has already purchased this course.
    pub open spec fn has_purchase(self, user_id: u64, course_id: u64) -> bool {
        exists|j: int|
            0 <= j < self.purchases@.len() && (#[trigger] self.purchases@[j]).user_id == user_id
                && self.purchases@[j].course_id == course_id
    }

    /// The row index of the admin with this email; meaningful when
    /// [`Db::has_admin_email`] holds, and then unique under [`Db::wf`].
    pub open spec fn admin_index(self, email: Seq<char>) -> int {
        choose|j: int| 0 <= j < self.admins@.len() && #[trigger] self.admins@[j].email@ == email
    }

    /// The admin row with this email.
    pub open spec fn admin_record(self, email: Seq<char>) -> Admin {
        self.admins@[self.admin_index(email)]
    }

    /// The row index of the user with this email.
    pub open spec fn user_index(self, email: Seq<char>) -> int {
        choose|j: int| 0 <= j < self.users@.len() && #[trigger] self.users@[j].email@ == email
    }

    /// The user row with this email.
    pub open spec fn user_record(self, email: Seq<char>) -> User {
        self.users@[self.user_index(email)]
    }

    /// The row index of the course with this identifier.
    pub open spec fn course_index(self, id: u64) -> int {
        choose|j: int| 0 <= j < self.courses@.len() && #[trigger] self.courses@[j].id == id
    }

    /// The course row with this identifier.
    pub open spec fn course_record(self, id: u64) -> Course {
        self.courses@[self.course_index(id)]
    }

    /// The store's invariant.
    pub open spec fn wf(self) -> bool {
        &&& forall|i: int, j: int|
            0 <= i < j < self.admins@.len() ==> (#[trigger] self.admins@[i].email@) != (
            #[trigger] self.admins@[j].email@)
        &&& forall|i: int, j: int|
            0 <= i < j < self.users@.len() ==> (#[trigger] self.users@[i].email@) != (
            #[trigger] self.users@[j].email@)
        &&& forall|i: int, j: int|
            0 <= i < j < self.courses@.len() ==> (#[trigger] self.courses@[i].id) != (
            #[trigger] self.courses@[j].id)
        &&& forall|i: int, j: int|
            0 <= i < j < self.purchases@.len() ==> !((#[trigger] self.purchases@[i]).user_id == (
            #[trigger] self.purchases@[j]).user_id && self.purchases@[i].course_id
                == self.purchases@[j].course_id)
        &&& forall|i: int| 0 <= i < self.admins@.len() ==> (#[trigger] self.admins@[i].id) < self.next_id
        &&& forall|i: int| 0 <= i < self.users@.len() ==> (#[trigger] self.users@[i].id) < self.next_id
        &&& forall|i: int|
            0 <= i < self.courses@.len() ==> (#[trigger] self.courses@[i].id) < self.next_id
        &&& forall|i: int|
            0 <= i < self.purchases@.len() ==> (#[trigger] self.purchases@[i].id) < self.next_id
        &&& forall|i: int|
            0 <= i < self.courses@.len() ==> self.has_admin_id(
                (#[trigger] self.courses@[i]).admin_id,
            )
        &&& forall|i: int|
            0 <= i < self.purchases@.len() ==> self.has_user_id(
                (#[trigger] self.purchases@[i]).user_id,
            ) && self.has_course(self.purchases@[i].course_id)
    }

    /// An empty store, satisfying the invariant.
    pub fn new() -> (db: Db)
        ensures
            db.wf(),
            db.admins@.len() == 0,
            db.users@.len() == 0,
            db.courses@.len() == 0,
            db.purchases@.len() == 0,
            db.next_id == 1,
    {
        Db { admins: Vec::new(), users: Vec::new(), courses: Vec::new(), purchases: Vec::new(), next_id: 1 }
    }
}

/// Appending an admin row with a fresh email and the next identifier
/// preserves the invariant, and the email is registered afterwards.
pub proof fn lemma_wf_push_admin(db1: Db, db2: Db, a: Admin)
    requires
        db1.wf(),
        db1.next_id < u64::MAX,
        !db1.has_admin_email(a.email@),
        a.id == db1.next_id,
        db2.admins@ == db1.admins@.push(a),
        db2.users@ == db1.users@,
        db2.courses@ == db1.courses@,
        db2.purchases@ == db1.purchases@,
        db2.next_id == db1.next_id + 1,
    ensures
        db2.wf(),
        db2.has_admin_email(a.email@),
{
    let last = db1.admins@.len() as int;
    assert(db2.admins@[last] == a);
    assert(db2.admins@[last].email@ == a.email@);
    assert(db2.has_admin_email(a.email@));
    assert forall|i: int, j: int| 0 <= i < j < db2.admins@.len() implies (
    #[trigger] db2.admins@[i].email@) != (#[trigger] db2.admins@[j].email@) by {
        if j < last {
        } else {
            assert(db2.admins@[i] == db1.admins@[i]);
            if db1.admins@[i].email@ == a.email@ {
                assert(db1.has_admin_email(a.email@));
            }
        }
    }
    assert forall|i: int| 0 <= i < db2.admins@.len() implies (#[trigger] db2.admins@[i].id)
        < db2.next_id by {
        if i < last {
            assert(db2.admins@[i] == db1.admins@[i]);
        }
    }
    assert forall|i: int| 0 <= i < db2.courses@.len() implies db2.has_admin_id(
        (#[trigger] db2.courses@[i]).admin_id,
    ) by {
        assert(db1.has_admin_id(db1.courses@[i].admin_id));
        let w = choose|j: int|
            0 <= j < db1.admins@.len() && #[trigger] db1.admins@[j].id == db1.courses@[i].admin_id;
        assert(db2.admins@[w].id == db2.courses@[i].admin_id);
    }
}

/// Appending a user row with a fresh email and the next identifier
/// preserves the invariant, and the email is registered afterwards.
pub proof fn lemma_wf_push_user(db1: Db, db2: Db, u: User)
    requires
        db1.wf(),
        db1.next_id < u64::MAX,
        !db1.has_user_email(u.email@),
        u.id == db1.next_id,
        db2.users@ == db1.users@.push(u),
        db2.admins@ == db1.admins@,
        db2.courses@ == db1.courses@,
        db2.purchases@ == db1.purchases@,
        db2.next_id == db1.next_id + 1,
    ensures
        db2.wf(),
        db2.has_user_email(u.email@),
{
    let last = db1.users@.len() as int;
    assert(db2.users@[last] == u);
    assert(db2.has_user_email(u.email@));
    assert forall|i: int, j: int| 0 <= i < j < db2.users@.len() implies (
    #[trigger] db2.users@[i].email@) != (#[trigger] db2.users@[j].email@) by {
        if j < last {
        } else {
            assert(db2.users@[i] == db1.users@[i]);
            if db1.users@[i].email@ == u.email@ {
                assert(db1.has_user_email(u.email@));
            }
        }
    }
    assert forall|i: int| 0 <= i < db2.users@.len() implies (#[trigger] db2.users@[i].id)
        < db2.next_id by {
        if i < last {
            assert(db2.users@[i] == db1.users@[i]);
        }
    }
    assert forall|i: int| 0 <= i < db2.purchases@.len() implies db2.has_user_id(
        (#[trigger] db2.purchases@[i]).user_id,
    ) && db2.has_course(db2.purchases@[i].course_id) by {
        assert(db2.purchases@[i] == db1.purchases@[i]);
        let w = choose|j: int|
            0 <= j < db1.users@.len() && #[trigger] db1.users@[j].id == db1.purchases@[i].user_id;
        assert(db2.users@[w] == db1.users@[w]);
        assert(db2.users@[w].id == db2.purchases@[i].user_id);
        let v = choose|j: int|
            0 <= j < db1.courses@.len() && #[trigger] db1.courses@[j].id
                == db1.purchases@[i].course_id;
        assert(db2.courses@[v].id == db2.purchases@[i].course_id);
    }
}

/// Appending a course row owned by an existing admin, with the next
/// identifier, preserves the invariant.
pub proof fn lemma_wf_push_course(db1: Db, db2: Db, c: Course)
    requires
        db1.wf(),
        db1.next_id < u64::MAX,
        db1.has_admin_id(c.admin_id),
        c.id == db1.next_id,
        db2.courses@ == db1.courses@.push(c),
        db2.admins@ == db1.admins@,
        db2.users@ == db1.users@,
        db2.purchases@ == db1.purchases@,
        db2.next_id == db1.next_id + 1,
    ensures
        db2.wf(),
        db2.has_course(c.id),
{
    let last = db1.courses@.len() as int;
    assert(db2.courses@[last] == c);
    assert(db2.has_course(c.id));
    assert forall|i: int, j: int| 0 <= i < j < db2.courses@.len() implies (
    #[trigger] db2.courses@[i].id) != (#[trigger] db2.courses@[j].id) by {
        if j < last {
        } else {
            assert(db2.courses@[i] == db1.courses@[i]);
        }
    }
    assert forall|i: int| 0 <= i < db2.courses@.len() implies (#[trigger] db2.courses@[i].id)
        < db2.next_id by {
        if i < last {
            assert(db2.courses@[i] == db1.courses@[i]);
        }
    }
    assert forall|i: int| 0 <= i < db2.courses@.len() implies db2.has_admin_id(
        (#[trigger] db2.courses@[i]).admin_id,
    ) by {
        let owner = if i < last {
            db1.courses@[i].admin_id
        } else {
            c.admin_id
        };
        assert(db2.courses@[i].admin_id == owner);
        assert(db1.has_admin_id(owner));
        let w = choose|j: int| 0 <= j < db1.admins@.len() && #[trigger] db1.admins@[j].id == owner;
        assert(db2.admins@[w].id == owner);
    }
    assert forall|i: int| 0 <= i < db2.purchases@.len() implies db2.has_user_id(
        (#[trigger] db2.purchases@[i]).user_id,
    ) && db2.has_course(db2.purchases@[i].course_id) by {
        assert(db2.purchases@[i] == db1.purchases@[i]);
        let w = choose|j: int|
            0 <= j < db1.users@.len() && #[trigger] db1.users@[j].id == db1.purchases@[i].user_id;
        assert(db2.users@[w].id == db2.purchases@[i].user_id);
        let v = choose|j: int|
            0 <= j < db1.courses@.len() && #[trigger] db1.courses@[j].id
                == db1.purchases@[i].course_id;
        assert(db2.courses@[v] == db1.courses@[v]);
        assert(db2.courses@[v].id == db2.purchases@[i].course_id);
    }
}

/// Appending a purchase row for an existing user and course, not yet
/// purchased by that user, with the next identifier, preserves the
/// invariant, and the purchase is recorded afterwards.
pub proof fn lemma_wf_push_purchase(db1: Db, db2: Db, p: Purchase)
    requires
        db1.wf(),
        db1.next_id < u64::MAX,
        !db1.has_purchase(p.user_id, p.course_id),
        db1.has_user_id(p.user_id),
        db1.has_course(p.course_id),
        p.id == db1.next_id,
        db2.purchases@ == db1.purchases@.push(p),
        db2.admins@ == db1.admins@,
        db2.users@ == db1.users@,
        db2.courses@ == db1.courses@,
        db2.next_id == db1.next_id + 1,
    ensures
        db2.wf(),
        db2.has_purchase(p.user_id, p.course_id),
{
    let last = db1.purchases@.len() as int;
    assert(db2.purchases@[last] == p);
    assert(db2.has_purchase(p.user_id, p.course_id));
    assert forall|i: int, j: int| 0 <= i < j < db2.purchases@.len() implies !((
    #[trigger] db2.purchases@[i]).user_id == (#[trigger] db2.purchases@[j]).user_id
        && db2.purchases@[i].course_id == db2.purchases@[j].course_id) by {
        if j < last {
        } else {
            assert(db2.purchases@[i] == db1.purchases@[i]);
            if db1.purchases@[i].user_id == p.user_id && db1.purchases@[i].course_id
                == p.course_id {
                assert(db1.has_purchase(p.user_id, p.course_id));
            }
        }
    }
    assert forall|i: int| 0 <= i < db2.purchases@.len() implies (#[trigger] db2.purchases@[i].id)
        < db2.next_id by {
        if i < last {
            assert(db2.purchases@[i] == db1.purchases@[i]);
        }
    }
    assert forall|i: int| 0 <= i < db2.purchases@.len() implies db2.has_user_id(
        (#[trigger] db2.purchases@[i]).user_id,
    ) && db2.has_course(db2.purchases@[i].course_id) by {
        let row = if i < last {
            db1.purchases@[i]
        } else {
            p
        };
        assert(db2.purchases@[i] == row);
        assert(db1.has_user_id(row.user_id));
        assert(db1.has_course(row.course_id));
        let w = choose|j: int| 0 <= j < db1.users@.len() && #[trigger] db1.users@[j].id == row.user_id;
        assert(db2.users@[w].id == row.user_id);
        let v = choose|j: int|
            0 <= j < db1.courses@.len() && #[trigger] db1.courses@[j].id == row.course_id;
        assert(db2.courses@[v].id == row.course_id);
    }
}

/// Overwriting the mutable fields of one course row — identifier and
/// owning admin unchanged — preserves the invariant.
pub proof fn lemma_wf_update_course(db1: Db, db2: Db, idx: int, c: Course)
    requires
        db1.wf(),
        0 <= idx < db1.courses@.len(),
        c.id == db1.courses@[idx].id,
        c.admin_id == db1.courses@[idx].admin_id,
        db2.courses@ == db1.courses@.update(idx, c),
        db2.admins@ == db1.admins@,
        db2.users@ == db1.users@,
        db2.purchases@ == db1.purchases@,
        db2.next_id == db1.next_id,
    ensures
        db2.wf(),
{
    assert forall|i: int| 0 <= i < db2.courses@.len() implies (#[trigger] db2.courses@[i]).id
        == db1.courses@[i].id && db2.courses@[i].admin_id == db1.courses@[i].admin_id by {
        if i != idx {
            assert(db2.courses@[i] == db1.courses@[i]);
        }
    }
    assert forall|i: int| 0 <= i < db2.courses@.len() implies db2.has_admin_id(
        (#[trigger] db2.courses@[i]).admin_id,
    ) by {
        assert(db1.has_admin_id(db1.courses@[i].admin_id));
        let w = choose|j: int|
            0 <= j < db1.admins@.len() && #[trigger] db1.admins@[j].id == db1.courses@[i].admin_id;
        assert(db2.admins@[w].id == db2.courses@[i].admin_id);
    }
    assert forall|i: int| 0 <= i < db2.purchases@.len() implies db2.has_user_id(
        (#[trigger] db2.purchases@[i]).user_id,
    ) && db2.has_course(db2.purchases@[i].course_id) by {
        assert(db2.purchases@[i] == db1.purchases@[i]);
        let w = choose|j: int|
            0 <= j < db1.users@.len() && #[trigger] db1.users@[j].id == db1.purchases@[i].user_id;
        assert(db2.users@[w].id == db2.purchases@[i].user_id);
        let v = choose|j: int|
            0 <= j < db1.courses@.len() && #[trigger] db1.courses@[j].id
                == db1.purchases@[i].course_id;
        assert(db2.courses@[v].id == db2.purchases@[i].course_id);
    }
    assert forall|i: int, j: int| 0 <= i < j < db2.admins@.len() implies (
    #[trigger] db2.admins@[i].email@) != (#[trigger] db2.admins@[j].email@) by {
        assert(db2.admins@[i] == db1.admins@[i] && db2.admins@[j] == db1.admins@[j]);
    }
    assert forall|i: int, j: int| 0 <= i < j < db2.users@.len() implies (
    #[trigger] db2.users@[i].email@) != (#[trigger] db2.users@[j].email@) by {
        assert(db2.users@[i] == db1.users@[i] && db2.users@[j] == db1.users@[j]);
    }
    assert forall|i: int, j: int| 0 <= i < j < db2.purchases@.len() implies !((
    #[trigger] db2.purchases@[i]).user_id == (#[trigger] db2.purchases@[j]).user_id
        && db2.purchases@[i].course_id == db2.purchases@[j].course_id) by {
        assert(db2.purchases@[i] == db1.purchases@[i] && db2.purchases@[j] == db1.purchases@[j]);
    }
    assert forall|i: int| 0 <= i < db2.admins@.len() implies (#[trigger] db2.admins@[i].id)
        < db2.next_id by {
        assert(db2.admins@[i] == db1.admins@[i]);
    }
    assert forall|i: int| 0 <= i < db2.users@.len() implies (#[trigger] db2.users@[i].id)
        < db2.next_id by {
        assert(db2.users@[i] == db1.users@[i]);
    }
    assert forall|i: int| 0 <= i < db2.purchases@.len() implies (#[trigger] db2.purchases@[i].id)
        < db2.next_id by {
        assert(db2.purchases@[i] == db1.purchases@[i]);
    }
}

/// Under the invariant, an admin row with a given email is the unique one,
/// so the chosen index is its index.
pub proof fn lemma_admin_index_is(db: Db, email: Seq<char>, i: int)
    requires
        db.wf(),
        0 <= i < db.admins@.len(),
        db.admins@[i].email@ == email,
    ensures
        db.has_admin_email(email),
        db.admin_index(email) == i,
        db.admin_record(email) == db.admins@[i],
{
    assert(db.has_admin_email(email));
    let c = db.admin_index(email);
    if c != i {
        assert(db.admins@[c].email@ == email);
    }
}

/// Under the invariant, a user row with a given email is the unique one.
pub proof fn lemma_user_index_is(db: Db, email: Seq<char>, i: int)
    requires
        db.wf(),
        0 <= i < db.users@.len(),
        db.users@[i].email@ == email,
    ensures
        db.has_user_email(email),
        db.user_index(email) == i,
        db.user_record(email) == db.users@[i],
{
    assert(db.has_user_email(email));
    let c = db.user_index(email);
    if c != i {
        assert(db.users@[c].email@ == email);
    }
}

/// Under the invariant, a course row with a given identifier is the unique
/// one.
pub proof fn lemma_course_index_is(db: Db, id: u64, i: int)
    requires
        db.wf(),
        0 <= i < db.courses@.len(),
        db.courses@[i].id == id,
    ensures
        db.has_course(id),
        db.course_index(id) == i,
        db.course_record(id) == db.courses@[i],
{
    assert(db.has_course(id));
    let c = db.course_index(id);
    if c != i {
        assert(db.courses@[c].id == id);
    }
}

} // verus!
