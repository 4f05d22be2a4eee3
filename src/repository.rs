//! What the repository decides around each single call to the document store:
//! which filter and document it sends, and how the store's answer becomes a
//! result of the repository.
use vstd::prelude::*;
use crate::object_id::{UserId, is_id_text, id_bytes};
use crate::token::{generate_token, is_token};
use crate::user::User;

verus! {

/// Why a repository operation failed.
#[derive(Clone, Debug)]
pub enum RepoError {
    /// The identifier is empty or not 24 hexadecimal digits.
    InvalidId,
    /// No record matched.
    NotFound,
    /// The store reported an error; its message is kept.
    Store(String),
}

/// An exact-match filter on the user collection.
#[derive(Clone, Debug)]
pub enum Filter {
    /// The record with this identifier.
    ById(UserId),
    /// Records whose username and password are both equal to these.
    ByCredentials { username: String, password: String },
}

/// The fields that an update sets; nothing else of the record changes.
#[derive(Clone, Debug)]
pub struct UserFields {
    pub username: String,
    pub password: String,
}

/// The filter for a login: both credentials must match.
pub fn credentials_filter(user: User) -> (f: Filter)
    ensures
        f matches Filter::ByCredentials { username, password }
            && username == user.username && password == user.password,
{
    Filter::ByCredentials { username: user.username, password: user.password }
}

/// The filter for one record, from the identifier's text form.
pub fn id_filter(id: &str) -> (r: Result<Filter, RepoError>)
    ensures
        is_id_text(id@) ==> (r matches Ok(Filter::ById(u)) && u@ == id_bytes(id@)),
        !is_id_text(id@) ==> (r matches Err(RepoError::InvalidId)),
{
    match UserId::parse(id) {
        Some(u) => Ok(Filter::ById(u)),
        None => Err(RepoError::InvalidId),
    }
}

/// The document that a create inserts, given the token drawn for it: the
/// request's credentials and that token; any identifier the caller sent is
/// dropped, for the store assigns it.
pub fn document_with_token(user: User, token: String) -> (d: User)
    ensures
        d.id is None,
        d.username == user.username,
        d.password == user.password,
        d.token == Some(token),
{
    User { id: None, username: user.username, password: user.password, token: Some(token) }
}

/// The document that a create inserts, with a freshly drawn token.
pub fn new_user_document(user: User) -> (d: User)
    ensures
        d.id is None,
        d.username == user.username,
        d.password == user.password,
        d.token matches Some(t) && is_token(t@),
{
    let token = generate_token();
    document_with_token(user, token)
}

/// The fields that an update sets: username and password.
pub fn update_fields(user: User) -> (f: UserFields)
    ensures
        f.username == user.username,
        f.password == user.password,
{
    UserFields { username: user.username, password: user.password }
}

/// What a lookup returns for the store's answer.
pub open spec fn found_result(outcome: Result<Option<User>, String>) -> Result<User, RepoError> {
    match outcome {
        Ok(Some(u)) => Ok(u),
        Ok(None) => Err(RepoError::NotFound),
        Err(m) => Err(RepoError::Store(m)),
    }
}

/// A lookup's result: the record found, `NotFound` when none matched, or the
/// store's error.
pub fn found_user(outcome: Result<Option<User>, String>) -> (r: Result<User, RepoError>)
    ensures
        r == found_result(outcome),
{
    match outcome {
        Ok(Some(u)) => Ok(u),
        Ok(None) => Err(RepoError::NotFound),
        Err(m) => Err(RepoError::Store(m)),
    }
}

/// What an insert, update or delete returns for the store's answer.
pub open spec fn stored_result<T>(outcome: Result<T, String>) -> Result<T, RepoError> {
    match outcome {
        Ok(v) => Ok(v),
        Err(m) => Err(RepoError::Store(m)),
    }
}

/// The result of an insert (the assigned identifier), or of an update or a
/// delete (how many records matched or went): the store's error becomes
/// `Store`.
pub fn stored<T>(outcome: Result<T, String>) -> (r: Result<T, RepoError>)
    ensures
        r == stored_result(outcome),
{
    match outcome {
        Ok(v) => Ok(v),
        Err(m) => Err(RepoError::Store(m)),
    }
}

} // verus!
