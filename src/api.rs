//! The HTTP decisions: which status and body each endpoint answers with,
//! given what the repository returned.
use vstd::prelude::*;
use crate::object_id::UserId;
use crate::repository::RepoError;
use crate::user::User;

verus! {

/// HTTP status codes that the service answers with.
pub const STATUS_OK: u16 = 200;
pub const STATUS_BAD_REQUEST: u16 = 400;
pub const STATUS_NOT_FOUND: u16 = 404;
pub const STATUS_INTERNAL_ERROR: u16 = 500;

/// The body of a response.
#[derive(Clone, Debug)]
pub enum Body {
    /// A user record, as JSON.
    User(User),
    /// The identifier that a create was assigned, as JSON.
    Inserted(UserId),
    /// A JSON string.
    Message(String),
    /// Plain text.
    Text(String),
}

/// An HTTP response: a status code and a body.
#[derive(Clone, Debug)]
pub struct Response {
    pub status: u16,
    pub body: Body,
}

/// The status that answers a repository error.
pub open spec fn error_status(e: RepoError) -> u16 {
    match e {
        RepoError::InvalidId => STATUS_BAD_REQUEST,
        RepoError::NotFound => STATUS_NOT_FOUND,
        RepoError::Store(_) => STATUS_INTERNAL_ERROR,
    }
}

/// The status that answers a lookup (login, read, and the read after an
/// update).
pub open spec fn lookup_status(r: Result<User, RepoError>) -> u16 {
    match r {
        Ok(_) => STATUS_OK,
        Err(e) => error_status(e),
    }
}

/// The status that answers an update or a delete by its count: one record
/// affected is success, none is "not found".
pub open spec fn count_status(r: Result<u64, RepoError>) -> u16 {
    match r {
        Ok(n) => if n == 1 { STATUS_OK } else { STATUS_NOT_FOUND },
        Err(e) => error_status(e),
    }
}

/// Whether an update's write matched the record, so that it is read back.
pub open spec fn update_matched(r: Result<u64, RepoError>) -> bool {
    r matches Ok(n) && n == 1
}

/// The text that answers a request whose identifier is invalid.
pub open spec fn invalid_id_text() -> Seq<char> {
    "invalid ID"@
}

/// The text that answers a request for a record that does not exist.
pub open spec fn not_found_text() -> Seq<char> {
    "No user found with specified ID"@
}

/// A response that answers a repository error: its status, and as plain
/// text the fixed message or the store's own.
pub open spec fn answers_error(r: Response, e: RepoError) -> bool {
    &&& r.status == error_status(e)
    &&& match e {
        RepoError::InvalidId => r.body matches Body::Text(t) && t@ == invalid_id_text(),
        RepoError::NotFound => r.body matches Body::Text(t) && t@ == not_found_text(),
        RepoError::Store(m) => r.body matches Body::Text(t) && t == m,
    }
}

/// The response to a repository error: 400 for an invalid identifier, 404
/// when nothing matched, 500 with the store's message otherwise.
pub fn error_response(e: RepoError) -> (r: Response)
    ensures
        answers_error(r, e),
{
    match e {
        RepoError::InvalidId => Response {
            status: STATUS_BAD_REQUEST,
            body: Body::Text(String::from_str("invalid ID")),
        },
        RepoError::NotFound => Response {
            status: STATUS_NOT_FOUND,
            body: Body::Text(String::from_str("No user found with specified ID")),
        },
        RepoError::Store(m) => Response { status: STATUS_INTERNAL_ERROR, body: Body::Text(m) },
    }
}

/// The response to a lookup: the record with 200, or the error's response.
pub fn lookup_response(r: Result<User, RepoError>) -> (resp: Response)
    ensures
        resp.status == lookup_status(r),
        r matches Ok(u) ==> (resp.body matches Body::User(v) && v == u),
        r matches Err(e) ==> answers_error(resp, e),
{
    match r {
        Ok(u) => Response { status: STATUS_OK, body: Body::User(u) },
        Err(e) => error_response(e),
    }
}

/// The text that answers a login whose credentials no record holds.
pub open spec fn wrong_credentials_text() -> Seq<char> {
    "Wrong credentials!"@
}

/// The response to a login: the matched record with 200; otherwise the
/// status of the error, with a JSON string body: its own text when no record
/// holds the credentials, the store's message on a store error.
pub fn login_response(r: Result<User, RepoError>) -> (resp: Response)
    ensures
        resp.status == lookup_status(r),
        r matches Ok(u) ==> (resp.body matches Body::User(v) && v == u),
        r matches Err(RepoError::NotFound) ==> (resp.body matches Body::Message(t)
            && t@ == wrong_credentials_text()),
        r matches Err(RepoError::Store(m)) ==> (resp.body matches Body::Message(t) && t == m),
        r matches Err(RepoError::InvalidId) ==> answers_error(resp, RepoError::InvalidId),
{
    match r {
        Ok(u) => Response { status: STATUS_OK, body: Body::User(u) },
        Err(RepoError::NotFound) => Response {
            status: STATUS_NOT_FOUND,
            body: Body::Message(String::from_str("Wrong credentials!")),
        },
        Err(RepoError::Store(m)) => Response { status: STATUS_INTERNAL_ERROR, body: Body::Message(m) },
        Err(RepoError::InvalidId) => error_response(RepoError::InvalidId),
    }
}

/// The text that answers a successful delete.
pub open spec fn deleted_text() -> Seq<char> {
    "User deleted!"@
}

/// The text that answers a delete that removed nothing.
pub open spec fn nothing_deleted_text() -> Seq<char> {
    "User with that id no found!"@
}

/// The response to a create: the assigned identifier with 200, or the
/// error's response.
pub fn create_response(r: Result<UserId, RepoError>) -> (resp: Response)
    ensures
        r is Ok ==> resp.status == STATUS_OK,
        r matches Ok(id) ==> (resp.body matches Body::Inserted(v) && v == id),
        r matches Err(e) ==> answers_error(resp, e),
{
    match r {
        Ok(id) => Response { status: STATUS_OK, body: Body::Inserted(id) },
        Err(e) => error_response(e),
    }
}

/// The text that answers a delete whose identifier is invalid.
pub open spec fn delete_invalid_id_text() -> Seq<char> {
    "Invalid Id"@
}

/// The response to a delete: 200 when one record went, 404 when none did,
/// 400 with its own text for an invalid identifier, or the error's response.
pub fn delete_response(r: Result<u64, RepoError>) -> (resp: Response)
    ensures
        resp.status == count_status(r),
        r matches Ok(n) ==> (resp.body matches Body::Message(t)
            && t@ == (if n == 1 { deleted_text() } else { nothing_deleted_text() })),
        r matches Err(RepoError::InvalidId) ==> (resp.body matches Body::Text(t)
            && t@ == delete_invalid_id_text()),
        r matches Err(e) ==> (e is InvalidId || answers_error(resp, e)),
{
    match r {
        Ok(n) => {
            if n == 1 {
                Response { status: STATUS_OK, body: Body::Message(String::from_str("User deleted!")) }
            } else {
                Response {
                    status: STATUS_NOT_FOUND,
                    body: Body::Message(String::from_str("User with that id no found!")),
                }
            }
        },
        Err(RepoError::InvalidId) => Response {
            status: STATUS_BAD_REQUEST,
            body: Body::Text(String::from_str("Invalid Id")),
        },
        Err(e) => error_response(e),
    }
}

/// What an update does once its write is answered.
#[derive(Clone, Debug)]
pub enum UpdateStep {
    /// The record matched: read it back and answer with `lookup_response`.
    ReadBack,
    /// Answer now.
    Respond(Response),
}

/// The step after an update's write: read the record back when exactly one
/// matched; otherwise answer 404, or the error's response.
pub fn update_step(r: Result<u64, RepoError>) -> (step: UpdateStep)
    ensures
        step is ReadBack <==> update_matched(r),
        step matches UpdateStep::Respond(resp) ==> resp.status == count_status(r),
        (r matches Ok(n) && n != 1) ==> (step matches UpdateStep::Respond(resp)
            && answers_error(resp, RepoError::NotFound)),
        r matches Err(e) ==> (step matches UpdateStep::Respond(resp) && answers_error(resp, e)),
{
    match r {
        Ok(n) => {
            if n == 1 {
                UpdateStep::ReadBack
            } else {
                UpdateStep::Respond(error_response(RepoError::NotFound))
            }
        },
        Err(e) => UpdateStep::Respond(error_response(e)),
    }
}

} // verus!
