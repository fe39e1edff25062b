//! What each endpoint answers, given how the repository's call ended.
//!
//! An endpoint has two answers. When the store did what was asked, the status
//! is 200 and the body is a JSON value. When the store failed, the status is
//! 500 and the body is empty, whatever the failure was: no detail of it
//! reaches the caller. Looking up an email that no document has is no failure:
//! the answer is 200 with a null body.

use crate::user_service::User;
use bson::{Bson, Document};
use vstd::prelude::*;

verus! {

/// The status of an answer with a body.
pub const STATUS_OK: u16 = 200;

/// The status of every failure.
pub const STATUS_INTERNAL_SERVER_ERROR: u16 = 500;

/// What the store reports of an insert.
pub struct InsertOutcome {
    /// The identifier that the store gave the new document.
    pub inserted_id: Bson,
}

/// What the store reports of an update.
pub struct UpdateOutcome {
    /// How many documents the filter named.
    pub matched_count: i64,
    /// How many documents were changed.
    pub modified_count: i64,
}

/// What the store reports of a delete.
pub struct DeleteOutcome {
    /// How many documents were removed.
    pub deleted_count: i64,
}

/// An endpoint's answer.
pub enum Reply<T> {
    /// Status 200; the value is sent as the JSON body.
    Success(T),
    /// Status 500 with an empty body.
    Failure,
}

impl<T> Reply<T> {
    /// The status code of the answer.
    pub open spec fn status_code(self) -> u16 {
        match self {
            Reply::Success(_) => STATUS_OK,
            Reply::Failure => STATUS_INTERNAL_SERVER_ERROR,
        }
    }

    /// The status code of the answer: 200 for a success, 500 for a failure.
    pub fn status(&self) -> (code: u16)
        ensures
            code == self.status_code(),
    {
        match self {
            Reply::Success(_) => STATUS_OK,
            Reply::Failure => STATUS_INTERNAL_SERVER_ERROR,
        }
    }
}

/// The answer to listing all users: the users, in the order of the listing.
pub fn get_all_users<E>(outcome: Result<Vec<User>, E>) -> (reply: Reply<Vec<User>>)
    ensures
        outcome matches Ok(users) ==> reply == Reply::Success(users),
        outcome is Err ==> reply == Reply::<Vec<User>>::Failure,
{
    match outcome {
        Ok(users) => Reply::Success(users),
        Err(_) => Reply::Failure,
    }
}

/// The answer to looking up an email: the first document that the store found
/// for it, as the store holds it, or null where it found none.
pub fn get_user_email<E>(outcome: Result<Option<Document>, E>) -> (reply: Reply<Option<Document>>)
    ensures
        outcome matches Ok(found) ==> reply == Reply::Success(found),
        outcome is Err ==> reply == Reply::<Option<Document>>::Failure,
{
    match outcome {
        Ok(found) => Reply::Success(found),
        Err(_) => Reply::Failure,
    }
}

/// The answer to creating a user: the identifier of the inserted document.
pub fn add_user<E>(outcome: Result<InsertOutcome, E>) -> (reply: Reply<Bson>)
    ensures
        outcome matches Ok(inserted) ==> reply == Reply::Success(inserted.inserted_id),
        outcome is Err ==> reply == Reply::<Bson>::Failure,
{
    match outcome {
        Ok(inserted) => Reply::Success(inserted.inserted_id),
        Err(_) => Reply::Failure,
    }
}

/// The answer to updating a user: the number of documents that were changed,
/// which is 0 where no document has the user's email.
pub fn update_user<E>(outcome: Result<UpdateOutcome, E>) -> (reply: Reply<i64>)
    ensures
        outcome matches Ok(updated) ==> reply == Reply::Success(updated.modified_count),
        outcome is Err ==> reply == Reply::<i64>::Failure,
{
    match outcome {
        Ok(updated) => Reply::Success(updated.modified_count),
        Err(_) => Reply::Failure,
    }
}

/// The answer to deleting a user: the number of documents that were removed,
/// which is 0 where no document has the email.
pub fn delete_user<E>(outcome: Result<DeleteOutcome, E>) -> (reply: Reply<i64>)
    ensures
        outcome matches Ok(deleted) ==> reply == Reply::Success(deleted.deleted_count),
        outcome is Err ==> reply == Reply::<i64>::Failure,
{
    match outcome {
        Ok(deleted) => Reply::Success(deleted.deleted_count),
        Err(_) => Reply::Failure,
    }
}

} // verus!
