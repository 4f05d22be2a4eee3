//! Laws of the service, stated over the store model and the decisions of the
//! repository and the HTTP layer.
use vstd::prelude::*;
use crate::api::{STATUS_NOT_FOUND, STATUS_OK, count_status, lookup_status, update_matched};
use crate::object_id::{UserId, id_bytes, id_text, is_id_text, lemma_id_text_round_trip};
use crate::repository::{RepoError, UserFields, found_result, stored_result};
use crate::store::{
    Collection, answers_login, answers_lookup, apply_delete, apply_update, has_credentials,
    insert, matched_count, record_of,
};
use crate::token::is_token;
use crate::user::User;

verus! {

/// A created record read back at once: the identifier the store assigned
/// reads back from its text form, and the read answers 200 with the request's
/// username and password and a well-formed token. `doc` is the document made
/// for `request`, as `new_user_document` ensures.
pub proof fn lemma_create_then_read(
    c: Collection,
    request: User,
    doc: User,
    new_id: UserId,
    found: Result<Option<User>, String>,
)
    requires
        doc.username == request.username,
        doc.password == request.password,
        doc.token matches Some(t) && is_token(t@),
        !c.contains_key(new_id@),
        answers_lookup(insert(c, new_id@, doc), new_id@, found),
        found is Ok,
    ensures
        is_id_text(id_text(new_id@)),
        id_bytes(id_text(new_id@)) == new_id@,
        lookup_status(found_result(found)) == STATUS_OK,
        found_result(found) matches Ok(u) ==> {
            &&& u.username@ == request.username@
            &&& u.password@ == request.password@
            &&& u.token matches Some(t) && is_token(t@)
        },
{
    lemma_id_text_round_trip(new_id@);
}

/// A well-formed identifier that names no record: read, update and delete
/// all answer 404, and an update reads nothing back.
pub proof fn lemma_unknown_id_not_found(
    c: Collection,
    text: Seq<char>,
    found: Result<Option<User>, String>,
)
    requires
        is_id_text(text),
        !c.contains_key(id_bytes(text)),
        answers_lookup(c, id_bytes(text), found),
        found is Ok,
    ensures
        lookup_status(found_result(found)) == STATUS_NOT_FOUND,
        !update_matched(stored_result(Ok(matched_count(c, id_bytes(text))))),
        count_status(stored_result(Ok(matched_count(c, id_bytes(text))))) == STATUS_NOT_FOUND,
{
}

/// Updating a stored record twice with the same fields matches it both
/// times, and the second update changes nothing more.
pub proof fn lemma_update_twice(c: Collection, id: Seq<u8>, f: UserFields)
    requires
        c.contains_key(id),
    ensures
        update_matched(stored_result(Ok(matched_count(c, id)))),
        update_matched(stored_result(Ok(matched_count(apply_update(c, id, f), id)))),
        apply_update(apply_update(c, id, f), id, f) == apply_update(c, id, f),
{
    assert(apply_update(apply_update(c, id, f), id, f) =~= apply_update(c, id, f));
}

/// Reading a record back after each of two identical updates finds the same
/// record both times, answered 200.
pub proof fn lemma_update_twice_reads_same(
    c: Collection,
    id: Seq<u8>,
    f: UserFields,
    first: Result<Option<User>, String>,
    second: Result<Option<User>, String>,
)
    requires
        c.contains_key(id),
        answers_lookup(apply_update(c, id, f), id, first),
        answers_lookup(apply_update(apply_update(c, id, f), id, f), id, second),
        first is Ok,
        second is Ok,
    ensures
        lookup_status(found_result(first)) == STATUS_OK,
        lookup_status(found_result(second)) == STATUS_OK,
        found_result(first) matches Ok(u1) && found_result(second) matches Ok(u2)
            && record_of(u1) == record_of(u2)
            && u1.id->Some_0@ == u2.id->Some_0@,
{
    lemma_update_twice(c, id, f);
}

/// Deleting an identifier a second time removes nothing: the count is 0, not
/// an error, the answer is 404, and the collection stays as it was.
pub proof fn lemma_delete_twice(c: Collection, id: Seq<u8>)
    ensures
        stored_result(Ok(matched_count(apply_delete(c, id), id))) == Ok::<u64, RepoError>(0),
        count_status(stored_result(Ok(matched_count(apply_delete(c, id), id))))
            == STATUS_NOT_FOUND,
        apply_delete(apply_delete(c, id), id) == apply_delete(c, id),
{
    assert(apply_delete(apply_delete(c, id), id) =~= apply_delete(c, id));
}

/// A login whose credentials no record holds is answered 404.
pub proof fn lemma_unknown_credentials_not_found(
    c: Collection,
    username: Seq<char>,
    password: Seq<char>,
    found: Result<Option<User>, String>,
)
    requires
        !has_credentials(c, username, password),
        answers_login(c, username, password, found),
        found is Ok,
    ensures
        lookup_status(found_result(found)) == STATUS_NOT_FOUND,
{
    if let Ok(Some(u)) = found {
        let i = u.id->Some_0@;
        assert(c.contains_key(i));
    }
}

} // verus!
