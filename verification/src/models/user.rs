//! The user credential store.
//!
//! The store lives in memory (see [`crate::db`]); an operation fails only
//! where a constraint is violated, never for unavailability.

use vstd::prelude::*;

use crate::db::lemma_user_index_is;
use crate::db::lemma_wf_push_user;
use crate::db::Db;
use crate::errors::CustomError;
use crate::ids::format_u64;
use crate::ids::spec_dec;
use crate::schema::user::CreateUser;

verus! {

/// A stored user record; `password` holds the salted hash, never the
/// plaintext.
#[derive(Debug)]
pub struct User {
    pub id: u64,
    pub name: String,
    pub email: String,
    pub password: String,
}

/// Whether a user with this email exists.
pub fn check_user_exists(db: &Db, email: &str) -> (r: Result<bool, CustomError>)
    ensures
        r matches Ok(b) && b == db.has_user_email(email@),
{
    let email_owned = email.to_owned();
    let n = db.users.len();
    let mut i: usize = 0;
    while i < n
        invariant
            n == db.users@.len(),
            0 <= i <= n,
            email_owned@ == email@,
            forall|k: int| 0 <= k < i ==> (#[trigger] db.users@[k].email@) != email@,
        decreases n - i,
    {
        if db.users[i].email == email_owned {
            assert(db.has_user_email(email@));
            return Ok(true);
        }
        i = i + 1;
    }
    Ok(false)
}

/// Insert a new user record, assigning it a fresh identifier, and return
/// the identifier in display form. Fails exactly when the email is already
/// taken: the store's unique-email constraint.
pub fn create_user(db: &mut Db, user_meta: CreateUser) -> (r: Result<String, CustomError>)
    requires
        old(db).wf(),
        old(db).next_id < u64::MAX,
    ensures
        final(db).wf(),
        old(db).has_user_email(user_meta.email@) ==> *final(db) == *old(db) && (r matches Err(e)
            && e.error@ == "Error while creating user"@),
        !old(db).has_user_email(user_meta.email@) ==> (r matches Ok(id) && id@ == spec_dec(
            old(db).next_id as nat,
        )) && final(db).users@ == old(db).users@.push(
            User {
                id: old(db).next_id,
                name: user_meta.name,
                email: user_meta.email,
                password: user_meta.password,
            },
        ) && final(db).admins@ == old(db).admins@ && final(db).courses@ == old(db).courses@ && final(db).purchases@
            == old(db).purchases@ && final(db).next_id == old(db).next_id + 1,
{
    let n = db.users.len();
    let mut i: usize = 0;
    while i < n
        invariant
            db.wf(),
            n == db.users@.len(),
            0 <= i <= n,
            forall|k: int| 0 <= k < i ==> (#[trigger] db.users@[k].email@) != user_meta.email@,
        decreases n - i,
    {
        if db.users[i].email == user_meta.email {
            return Err(CustomError { error: "Error while creating user".to_owned() });
        }
        i = i + 1;
    }
    let id_num = db.next_id;
    let id_str = format_u64(id_num);
    let row = User {
        id: id_num,
        name: user_meta.name,
        email: user_meta.email,
        password: user_meta.password,
    };
    let ghost db1 = *db;
    db.users.push(row);
    db.next_id = id_num + 1;
    proof {
        lemma_wf_push_user(
            db1,
            *db,
            User {
                id: id_num,
                name: user_meta.name,
                email: user_meta.email,
                password: user_meta.password,
            },
        );
    }
    Ok(id_str)
}

/// Look up the stored password hash of the user with this email. Fails
/// exactly when no user has it.
pub fn retrieve_password(db: &Db, email: &str) -> (r: Result<String, CustomError>)
    requires
        db.wf(),
    ensures
        db.has_user_email(email@) ==> (r matches Ok(h) && h == db.user_record(email@).password),
        !db.has_user_email(email@) ==> (r matches Err(e) && e.error@
            == "Error while retrieving user password"@),
{
    let email_owned = email.to_owned();
    let n = db.users.len();
    let mut i: usize = 0;
    while i < n
        invariant
            n == db.users@.len(),
            0 <= i <= n,
            db.wf(),
            email_owned@ == email@,
            forall|k: int| 0 <= k < i ==> (#[trigger] db.users@[k].email@) != email@,
        decreases n - i,
    {
        if db.users[i].email == email_owned {
            proof {
                lemma_user_index_is(*db, email@, i as int);
            }
            return Ok(db.users[i].password.clone());
        }
        i = i + 1;
    }
    Err(CustomError { error: "Error while retrieving user password".to_owned() })
}

/// Look up the identifier of the user with this email, in display form.
/// Fails exactly when no user has it.
pub fn get_user_id_by_email(db: &Db, email: &String) -> (r: Result<String, CustomError>)
    requires
        db.wf(),
    ensures
        db.has_user_email(email@) ==> (r matches Ok(id) && id@ == spec_dec(
            db.user_record(email@).id as nat,
        )),
        !db.has_user_email(email@) ==> (r matches Err(e) && e.error@
            == "Error while fetching user id"@),
{
    let n = db.users.len();
    let mut i: usize = 0;
    while i < n
        invariant
            n == db.users@.len(),
            0 <= i <= n,
            db.wf(),
            forall|k: int| 0 <= k < i ==> (#[trigger] db.users@[k].email@) != email@,
        decreases n - i,
    {
        if db.users[i].email == *email {
            proof {
                lemma_user_index_is(*db, email@, i as int);
            }
            return Ok(format_u64(db.users[i].id));
        }
        i = i + 1;
    }
    Err(CustomError { error: "Error while fetching user id".to_owned() })
}

} // verus!
