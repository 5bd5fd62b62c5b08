//! The admin credential store.
//!
//! The store lives in memory (see [`crate::db`]); an operation fails only
//! where a constraint is violated, never for unavailability.

use vstd::prelude::*;

use crate::db::lemma_admin_index_is;
use crate::db::lemma_wf_push_admin;
use crate::db::Db;
use crate::errors::CustomError;
use crate::ids::format_u64;
use crate::ids::spec_dec;
use crate::schema::admin::CreateAdmin;

verus! {

/// A stored admin record; `password` holds the salted hash, never the
/// plaintext.
#[derive(Debug)]
pub struct Admin {
    pub id: u64,
    pub name: String,
    pub email: String,
    pub password: String,
}

/// Insert a new admin record, assigning it a fresh identifier, and return
/// the identifier in display form. Fails exactly when the email is already
/// taken: the store's unique-email constraint.
pub fn create_admin(db: &mut Db, admin_meta: CreateAdmin) -> (r: Result<String, CustomError>)
    requires
        old(db).wf(),
        old(db).next_id < u64::MAX,
    ensures
        final(db).wf(),
        old(db).has_admin_email(admin_meta.email@) ==> *final(db) == *old(db) && (r matches Err(e)
            && e.error@ == "Error while creating admin"@),
        !old(db).has_admin_email(admin_meta.email@) ==> (r matches Ok(id) && id@ == spec_dec(
            old(db).next_id as nat,
        )) && final(db).admins@ == old(db).admins@.push(
            Admin {
                id: old(db).next_id,
                name: admin_meta.name,
                email: admin_meta.email,
                password: admin_meta.password,
            },
        ) && final(db).users@ == old(db).users@ && final(db).courses@ == old(db).courses@ && final(db).purchases@
            == old(db).purchases@ && final(db).next_id == old(db).next_id + 1,
{
    let n = db.admins.len();
    let mut i: usize = 0;
    while i < n
        invariant
            db.wf(),
            n == db.admins@.len(),
            0 <= i <= n,
            forall|k: int| 0 <= k < i ==> (#[trigger] db.admins@[k].email@) != admin_meta.email@,
        decreases n - i,
    {
        if db.admins[i].email == admin_meta.email {
            return Err(CustomError { error: "Error while creating admin".to_owned() });
        }
        i = i + 1;
    }
    let id_num = db.next_id;
    let id_str = format_u64(id_num);
    let row = Admin {
        id: id_num,
        name: admin_meta.name,
        email: admin_meta.email,
        password: admin_meta.password,
    };
    let ghost db1 = *db;
    db.admins.push(row);
    db.next_id = id_num + 1;
    proof {
        lemma_wf_push_admin(
            db1,
            *db,
            Admin {
                id: id_num,
                name: admin_meta.name,
                email: admin_meta.email,
                password: admin_meta.password,
            },
        );
    }
    Ok(id_str)
}

/// Look up the stored password hash of the admin with this email. Fails
/// exactly when no admin has it.
pub fn retrieve_admin_password(db: &Db, email: &str) -> (r: Result<String, CustomError>)
    requires
        db.wf(),
    ensures
        db.has_admin_email(email@) ==> (r matches Ok(h) && h == db.admin_record(email@).password),
        !db.has_admin_email(email@) ==> (r matches Err(e) && e.error@
            == "Error while retrieving admin password"@),
{
    let email_owned = email.to_owned();
    let n = db.admins.len();
    let mut i: usize = 0;
    while i < n
        invariant
            n == db.admins@.len(),
            0 <= i <= n,
            db.wf(),
            email_owned@ == email@,
            forall|k: int| 0 <= k < i ==> (#[trigger] db.admins@[k].email@) != email@,
        decreases n - i,
    {
        if db.admins[i].email == email_owned {
            proof {
                lemma_admin_index_is(*db, email@, i as int);
            }
            return Ok(db.admins[i].password.clone());
        }
        i = i + 1;
    }
    Err(CustomError { error: "Error while retrieving admin password".to_owned() })
}

/// Whether an admin with this email exists.
pub fn check_admin_exists(db: &Db, email: &str) -> (r: Result<bool, CustomError>)
    ensures
        r matches Ok(b) && b == db.has_admin_email(email@),
{
    let email_owned = email.to_owned();
    let n = db.admins.len();
    let mut i: usize = 0;
    while i < n
        invariant
            n == db.admins@.len(),
            0 <= i <= n,
            email_owned@ == email@,
            forall|k: int| 0 <= k < i ==> (#[trigger] db.admins@[k].email@) != email@,
        decreases n - i,
    {
        if db.admins[i].email == email_owned {
            assert(db.has_admin_email(email@));
            return Ok(true);
        }
        i = i + 1;
    }
    Ok(false)
}

/// Look up the identifier of the admin with this email, in display form.
/// Fails exactly when no admin has it.
pub fn get_admin_id_by_email(db: &Db, email: &String) -> (r: Result<String, CustomError>)
    requires
        db.wf(),
    ensures
        db.has_admin_email(email@) ==> (r matches Ok(id) && id@ == spec_dec(
            db.admin_record(email@).id as nat,
        )),
        !db.has_admin_email(email@) ==> (r matches Err(e) && e.error@
            == "Error while fetching admin id"@),
{
    let n = db.admins.len();
    let mut i: usize = 0;
    while i < n
        invariant
            n == db.admins@.len(),
            0 <= i <= n,
            db.wf(),
            forall|k: int| 0 <= k < i ==> (#[trigger] db.admins@[k].email@) != email@,
        decreases n - i,
    {
        if db.admins[i].email == *email {
            proof {
                lemma_admin_index_is(*db, email@, i as int);
            }
            return Ok(format_u64(db.admins[i].id));
        }
        i = i + 1;
    }
    Err(CustomError { error: "Error while fetching admin id".to_owned() })
}

} // verus!
