use user_service::api::{
    create_response, delete_response, error_response, login_response, lookup_response,
    update_step, Body, UpdateStep,
};
use user_service::object_id::UserId;
use user_service::repository::{
    credentials_filter, document_with_token, found_user, id_filter, new_user_document, stored,
    update_fields, Filter, RepoError,
};
use user_service::token::generate_token;
use user_service::user::User;

const SAMPLE_ID: &str = "507f1f77bcf86cd799439011";

fn sample_bytes() -> [u8; 12] {
    [0x50, 0x7f, 0x1f, 0x77, 0xbc, 0xf8, 0x6c, 0xd7, 0x99, 0x43, 0x90, 0x11]
}

fn alice() -> User {
    User::from_credentials("alice".to_string(), "p1".to_string())
}

fn is_token(t: &str) -> bool {
    t.chars().count() == 32 && t.chars().all(|c| c.is_ascii_alphanumeric())
}

fn text_of(r: &user_service::api::Response) -> String {
    match &r.body {
        Body::Text(t) | Body::Message(t) => t.clone(),
        other => panic!("not a text body: {:?}", other),
    }
}

#[test]
fn parse_reads_hex_identifier() {
    let id = UserId::parse(SAMPLE_ID).unwrap();
    assert_eq!(id.bytes, sample_bytes());
}

#[test]
fn parse_accepts_upper_case() {
    let id = UserId::parse("507F1F77BCF86CD799439011").unwrap();
    assert_eq!(id.bytes, sample_bytes());
}

#[test]
fn parse_rejects_malformed_text() {
    assert!(UserId::parse("").is_none());
    assert!(UserId::parse("507f1f77bcf86cd79943901").is_none());
    assert!(UserId::parse("507f1f77bcf86cd7994390111").is_none());
    assert!(UserId::parse("507f1f77bcf86cd79943901g").is_none());
    assert!(UserId::parse("not-an-id").is_none());
}

#[test]
fn to_hex_writes_lower_case_and_reads_back() {
    let id = UserId { bytes: sample_bytes() };
    let text = id.to_hex();
    assert_eq!(text, SAMPLE_ID);
    assert_eq!(UserId::parse(&text), Some(id));
    let upper = UserId::parse("ABCDEF0123456789ABCDEF01").unwrap();
    assert_eq!(upper.to_hex(), "abcdef0123456789abcdef01");
}

#[test]
fn tokens_are_alphanumeric_and_distinct() {
    let a = generate_token();
    let b = generate_token();
    assert!(is_token(&a));
    assert!(is_token(&b));
    assert_ne!(a, b);
}

#[test]
fn new_document_drops_id_and_draws_token() {
    let mut request = alice();
    request.id = Some(UserId { bytes: sample_bytes() });
    request.token = Some("caller-token".to_string());
    let doc = new_user_document(request);
    assert!(doc.id.is_none());
    assert_eq!(doc.username, "alice");
    assert_eq!(doc.password, "p1");
    assert!(is_token(doc.token.as_deref().unwrap()));
}

#[test]
fn login_filter_uses_both_credentials() {
    match credentials_filter(alice()) {
        Filter::ByCredentials { username, password } => {
            assert_eq!(username, "alice");
            assert_eq!(password, "p1");
        }
        other => panic!("unexpected filter {:?}", other),
    }
}

#[test]
fn id_filter_parses_or_rejects() {
    match id_filter(SAMPLE_ID) {
        Ok(Filter::ById(id)) => assert_eq!(id.bytes, sample_bytes()),
        other => panic!("unexpected {:?}", other),
    }
    assert!(matches!(id_filter("12345"), Err(RepoError::InvalidId)));
}

#[test]
fn update_sets_username_and_password() {
    let f = update_fields(User::from_credentials("bob".to_string(), "p2".to_string()));
    assert_eq!(f.username, "bob");
    assert_eq!(f.password, "p2");
}

#[test]
fn found_user_maps_each_answer() {
    assert_eq!(found_user(Ok(Some(alice()))).unwrap().username, "alice");
    assert!(matches!(found_user(Ok(None)), Err(RepoError::NotFound)));
    match found_user(Err("connection reset".to_string())) {
        Err(RepoError::Store(m)) => assert_eq!(m, "connection reset"),
        other => panic!("unexpected {:?}", other),
    }
}

#[test]
fn stored_keeps_value_or_wraps_error() {
    assert!(matches!(stored::<u64>(Ok(3)), Ok(3)));
    assert!(matches!(stored::<u64>(Err("down".to_string())), Err(RepoError::Store(m)) if m == "down"));
}

#[test]
fn error_responses_have_their_status() {
    let r = error_response(RepoError::InvalidId);
    assert_eq!(r.status, 400);
    assert_eq!(text_of(&r), "invalid ID");
    let r = error_response(RepoError::NotFound);
    assert_eq!(r.status, 404);
    assert_eq!(text_of(&r), "No user found with specified ID");
    let r = error_response(RepoError::Store("timeout".to_string()));
    assert_eq!(r.status, 500);
    assert_eq!(text_of(&r), "timeout");
}

#[test]
fn lookup_response_returns_user() {
    let r = lookup_response(Ok(alice()));
    assert_eq!(r.status, 200);
    assert!(matches!(r.body, Body::User(ref u) if u.username == "alice"));
    assert_eq!(lookup_response(Err(RepoError::Store("x".to_string()))).status, 500);
}

#[test]
fn create_response_returns_identifier() {
    let id = UserId { bytes: sample_bytes() };
    let r = create_response(Ok(id));
    assert_eq!(r.status, 200);
    assert!(matches!(r.body, Body::Inserted(v) if v == id));
    assert_eq!(create_response(Err(RepoError::Store("dup".to_string()))).status, 500);
}

#[test]
fn delete_response_by_count() {
    let r = delete_response(Ok(1));
    assert_eq!(r.status, 200);
    assert_eq!(text_of(&r), "User deleted!");
    let r = delete_response(Ok(0));
    assert_eq!(r.status, 404);
    assert_eq!(text_of(&r), "User with that id no found!");
    assert!(matches!(r.body, Body::Message(_)));
    let r = delete_response(Err(RepoError::InvalidId));
    assert_eq!(r.status, 400);
    assert!(matches!(r.body, Body::Text(ref t) if t == "Invalid Id"));
    let r = delete_response(Err(RepoError::Store("gone".to_string())));
    assert_eq!(r.status, 500);
    assert!(matches!(r.body, Body::Text(ref t) if t == "gone"));
}

#[test]
fn update_step_reads_back_only_on_match() {
    assert!(matches!(update_step(Ok(1)), UpdateStep::ReadBack));
    match update_step(Ok(0)) {
        UpdateStep::Respond(r) => assert_eq!(r.status, 404),
        other => panic!("unexpected {:?}", other),
    }
    match update_step(Err(RepoError::Store("boom".to_string()))) {
        UpdateStep::Respond(r) => assert_eq!(r.status, 500),
        other => panic!("unexpected {:?}", other),
    }
}

#[test]
fn create_then_read_back() {
    let doc = new_user_document(alice());
    let id = UserId { bytes: sample_bytes() };
    let created = create_response(stored(Ok(id)));
    assert_eq!(created.status, 200);
    let text = match created.body {
        Body::Inserted(v) => v.to_hex(),
        other => panic!("unexpected {:?}", other),
    };
    let filter = id_filter(&text).unwrap();
    assert!(matches!(filter, Filter::ById(v) if v == id));
    let mut stored_doc = doc.clone();
    stored_doc.id = Some(id);
    let read = lookup_response(found_user(Ok(Some(stored_doc))));
    assert_eq!(read.status, 200);
    match read.body {
        Body::User(u) => {
            assert_eq!(u.username, "alice");
            assert_eq!(u.password, "p1");
            assert!(is_token(u.token.as_deref().unwrap()));
        }
        other => panic!("unexpected {:?}", other),
    }
}

#[test]
fn update_of_unknown_id_is_not_found() {
    assert!(id_filter("000000000000000000000000").is_ok());
    match update_step(stored(Ok(0))) {
        UpdateStep::Respond(r) => assert_eq!(r.status, 404),
        other => panic!("unexpected {:?}", other),
    }
}

#[test]
fn unknown_id_is_not_found_everywhere() {
    assert_eq!(lookup_response(found_user(Ok(None))).status, 404);
    assert_eq!(delete_response(stored(Ok(0))).status, 404);
}

#[test]
fn empty_id_is_bad_request() {
    let r = match id_filter("") {
        Err(e) => delete_response(Err(e)),
        Ok(f) => panic!("unexpected {:?}", f),
    };
    assert_eq!(r.status, 400);
    assert!(matches!(r.body, Body::Text(ref t) if t == "Invalid Id"));
    assert_eq!(lookup_response(id_filter("").map(|_| alice())).status, 400);
}

#[test]
fn malformed_id_is_bad_request() {
    for text in ["xyz", "507f1f77bcf86cd79943901z", "507f1f77"] {
        let e = id_filter(text).unwrap_err();
        assert_eq!(lookup_response(Err(e.clone())).status, 400);
        assert_eq!(delete_response(Err(e.clone())).status, 400);
        match update_step(Err(e)) {
            UpdateStep::Respond(r) => assert_eq!(r.status, 400),
            other => panic!("unexpected {:?}", other),
        }
    }
}

#[test]
fn login_without_match_is_not_found() {
    let _filter = credentials_filter(alice());
    let r = login_response(found_user(Ok(None)));
    assert_eq!(r.status, 404);
    assert!(matches!(r.body, Body::Message(ref t) if t == "Wrong credentials!"));
}

#[test]
fn login_answers_matched_user() {
    let r = login_response(found_user(Ok(Some(alice()))));
    assert_eq!(r.status, 200);
    assert!(matches!(r.body, Body::User(ref u) if u.username == "alice" && u.password == "p1"));
}

#[test]
fn login_store_error_is_json_message() {
    let r = login_response(found_user(Err("no server".to_string())));
    assert_eq!(r.status, 500);
    assert!(matches!(r.body, Body::Message(ref t) if t == "no server"));
}

#[test]
fn document_keeps_the_drawn_token() {
    let a = document_with_token(alice(), "A".repeat(32));
    let b = document_with_token(alice(), "B".repeat(32));
    assert_eq!(a.token.as_deref(), Some("A".repeat(32).as_str()));
    assert_ne!(a.token, b.token);
    assert!(a.id.is_none());
    assert_eq!(a.username, "alice");
}

#[test]
fn update_twice_matches_both_times() {
    assert!(matches!(update_step(stored(Ok(1))), UpdateStep::ReadBack));
    assert!(matches!(update_step(stored(Ok(1))), UpdateStep::ReadBack));
}

#[test]
fn delete_twice_reports_zero_not_error() {
    assert_eq!(delete_response(stored(Ok(1))).status, 200);
    assert!(matches!(stored::<u64>(Ok(0)), Ok(0)));
    assert_eq!(delete_response(stored(Ok(0))).status, 404);
}
