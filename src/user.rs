//! The user record.
use vstd::prelude::*;
use crate::object_id::UserId;

verus! {

/// A user record as the store holds it. `id` is assigned by the store and
/// absent on requests; `token` is drawn when the record is created.
#[derive(Clone, Debug)]
pub struct User {
    pub id: Option<UserId>,
    pub username: String,
    pub password: String,
    pub token: Option<String>,
}

impl User {
    /// A request body: credentials only, no identifier and no token.
    pub fn from_credentials(username: String, password: String) -> (r: User)
        ensures
            r.id is None,
            r.username == username,
            r.password == password,
            r.token is None,
    {
        User { id: None, username, password, token: None }
    }
}

} // verus!
