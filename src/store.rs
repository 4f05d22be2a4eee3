//! A model of the user collection in the document store, and of what its
//! single-record operations do. The repository sends one of these operations
//! per request; the model is what the laws of the service are stated over.
//! No executable function is checked against the model: the laws hold of the
//! model, and so of the real store only as far as the store behaves as it
//! describes.
use vstd::prelude::*;
use crate::repository::UserFields;
use crate::user::User;

verus! {

/// A stored record, apart from its identifier.
pub struct Record {
    pub username: Seq<char>,
    pub password: Seq<char>,
    pub token: Option<Seq<char>>,
}

/// The collection: records by identifier bytes.
pub type Collection = Map<Seq<u8>, Record>;

/// The record that a user document is stored as.
pub open spec fn record_of(u: User) -> Record {
    Record {
        username: u.username@,
        password: u.password@,
        token: match u.token {
            Some(t) => Some(t@),
            None => None,
        },
    }
}

/// The collection after a document is inserted under a fresh identifier.
pub open spec fn insert(c: Collection, id: Seq<u8>, doc: User) -> Collection {
    c.insert(id, record_of(doc))
}

/// A lookup's answer that agrees with the collection: the record with that
/// identifier when there is one, nothing otherwise; or an error of the store.
pub open spec fn answers_lookup(c: Collection, id: Seq<u8>, found: Result<Option<User>, String>) -> bool {
    match found {
        Ok(Some(u)) => c.contains_key(id) && record_of(u) == c[id]
            && (u.id matches Some(i) && i@ == id),
        Ok(None) => !c.contains_key(id),
        Err(_) => true,
    }
}

/// Whether some record holds exactly these credentials.
pub open spec fn has_credentials(c: Collection, username: Seq<char>, password: Seq<char>) -> bool {
    exists|id: Seq<u8>| #[trigger] c.contains_key(id)
        && c[id].username == username && c[id].password == password
}

/// A login's answer that agrees with the collection: a record holding the
/// credentials when there is one, nothing otherwise; or an error of the store.
pub open spec fn answers_login(
    c: Collection,
    username: Seq<char>,
    password: Seq<char>,
    found: Result<Option<User>, String>,
) -> bool {
    match found {
        Ok(Some(u)) => u.username@ == username && u.password@ == password
            && (u.id matches Some(i) && c.contains_key(i@) && record_of(u) == c[i@]),
        Ok(None) => !has_credentials(c, username, password),
        Err(_) => true,
    }
}

/// How many records a filter by identifier matches, which an update reports
/// as matched and a delete as removed: identifiers are unique.
pub open spec fn matched_count(c: Collection, id: Seq<u8>) -> u64 {
    if c.contains_key(id) { 1 } else { 0 }
}

/// The collection after an update of username and password by identifier.
pub open spec fn apply_update(c: Collection, id: Seq<u8>, f: UserFields) -> Collection {
    if c.contains_key(id) {
        c.insert(id, Record { username: f.username@, password: f.password@, token: c[id].token })
    } else {
        c
    }
}

/// The collection after a delete by identifier.
pub open spec fn apply_delete(c: Collection, id: Seq<u8>) -> Collection {
    c.remove(id)
}

} // verus!
