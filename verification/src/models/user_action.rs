use vstd::prelude::*;

use crate::errors::{AppError, Failure};
use crate::models::database::{
    answers, lemma_no_user_with_id, lemma_user_named, lemma_user_with_id, result_of,
    tables_after, user_named, user_with_id, users_view, Database, Tables,
};
use crate::models::{User, UserKey, UserRecord};

verus! {

/// The newest row of the users table, as `order(id desc).first()` gives it.
pub open spec fn newest_user(t: Tables) -> Result<UserRecord, Failure> {
    if t.users.len() == 0 {
        Err(Failure::NotFound)
    } else {
        Ok(t.users.last())
    }
}

/// Looking a user up by username.
pub open spec fn find_user_by_name(t: Tables, name: Seq<char>) -> Result<UserRecord, Failure> {
    match user_named(t.users, name) {
        Some(u) => Ok(u),
        None => Err(Failure::NotFound),
    }
}

/// Looking a user up by id.
pub open spec fn find_user_by_id(t: Tables, id: i32) -> Result<UserRecord, Failure> {
    match user_with_id(t.users, id) {
        Some(u) => Ok(u),
        None => Err(Failure::NotFound),
    }
}

/// The newest user.
fn latest_user(db: &Database) -> (r: Result<User, AppError>)
    ensures
        answers(r, newest_user(db@)),
{
    let users = db.users();
    let n = users.len();
    if n == 0 {
        Err(AppError::RecordNotFound)
    } else {
        assert(users_view(users@)[n - 1] == users@[n - 1]@);
        Ok(users[n - 1].clone())
    }
}

/// Creates a user named `username` and answers with the new row. Refused with
/// `RecordAlreadyExists` if the name is taken; nothing changes when it is refused.
pub fn create_user(db: &mut Database, username: &str) -> (r: Result<User, AppError>)
    requires
        old(db).wf(),
    ensures
        final(db).wf(),
        final(db)@ == tables_after(old(db)@, old(db)@.create_user(username@)),
        answers(r, result_of(old(db)@.create_user(username@))),
{
    match db.insert_user(username) {
        Ok(()) => {},
        Err(e) => {
            return Err(e);
        },
    }
    latest_user(db)
}

/// Looks a user up by username or by id; `RecordNotFound` if there is none.
pub fn find_user(db: &Database, key: UserKey) -> (r: Result<User, AppError>)
    requires
        db.wf(),
    ensures
        match key {
            UserKey::Username(name) => answers(r, find_user_by_name(db@, name@)),
            UserKey::ID(id) => answers(r, find_user_by_id(db@, id)),
        },
{
    match key {
        UserKey::Username(name) => match db.user_position_by_name(name) {
            Some(i) => {
                proof {
                    lemma_user_named(db@.users, i as int);
                }
                let users = db.users();
                assert(users_view(users@)[i as int] == users@[i as int]@);
                Ok(users[i].clone())
            },
            None => Err(AppError::RecordNotFound),
        },
        UserKey::ID(id) => match db.user_position(id) {
            Some(i) => {
                proof {
                    lemma_user_with_id(db@.users, i as int);
                }
                let users = db.users();
                assert(users_view(users@)[i as int] == users@[i as int]@);
                Ok(users[i].clone())
            },
            None => {
                proof {
                    lemma_no_user_with_id(db@.users, id);
                }
                Err(AppError::RecordNotFound)
            },
        },
    }
}

} // verus!
