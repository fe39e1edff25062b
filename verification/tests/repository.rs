use bson::{Bson, Document};
use user_records::user_service::{
    build_user, email_filter, listing_step, update_request, user_to_document, CursorEvent,
    ListingStep, User,
};

fn ada() -> User {
    build_user(
        "A".to_string(),
        "B".to_string(),
        "a@b.com".to_string(),
        "ab".to_string(),
        "p".to_string(),
    )
}

fn stored(first_name: &str, last_name: &str, user_name: &str, password: &str, email: &str) -> Document {
    let mut document = Document::new();
    document.insert("firstName", first_name);
    document.insert("lastName", last_name);
    document.insert("username", user_name);
    document.insert("password", password);
    document.insert("email", email);
    document
}

/// Runs a listing over the given events, as a caller that reads a cursor does.
fn run_listing(events: Vec<CursorEvent<String>>) -> Option<Result<Vec<User>, String>> {
    let mut gathered: Vec<User> = Vec::new();
    for event in events {
        match listing_step(gathered, event) {
            ListingStep::Continue(users) => gathered = users,
            ListingStep::Finished(result) => return Some(result),
        }
    }
    None
}

#[test]
fn email_filter_is_the_single_email_field() {
    let filter = email_filter(&"a@b.com".to_string());
    let mut expected = Document::new();
    expected.insert("email", "a@b.com");
    assert_eq!(filter, expected);
    assert_eq!(filter.len(), 1);
    assert_eq!(filter.get("email"), Some(&Bson::String("a@b.com".to_string())));
}

#[test]
fn email_filter_keeps_the_email_verbatim() {
    let filter = email_filter(&" Mixed.Case+tag@Example.COM ".to_string());
    assert_eq!(filter.get_str("email"), Ok(" Mixed.Case+tag@Example.COM "));
    let empty = email_filter(&String::new());
    assert_eq!(empty.get_str("email"), Ok(""));
    assert_eq!(empty.len(), 1);
}

#[test]
fn email_filter_agrees_with_the_document_of_a_user_with_that_email() {
    let document = user_to_document(&ada());
    let own = email_filter(&"a@b.com".to_string());
    let other = email_filter(&"c@d.com".to_string());
    assert_eq!(document.get("email"), own.get("email"));
    assert_ne!(document.get("email"), other.get("email"));
}

#[test]
fn update_request_filters_by_email_and_replaces_the_whole_document() {
    let mut user = ada();
    user.last_name = "C".to_string();
    let (filter, replacement) = update_request(&user);
    let mut expected_filter = Document::new();
    expected_filter.insert("email", "a@b.com");
    assert_eq!(filter, expected_filter);
    assert_eq!(replacement, stored("A", "C", "ab", "p", "a@b.com"));
    assert_eq!(replacement, user_to_document(&user));
}

#[test]
fn update_request_sends_no_update_operator() {
    let (_, replacement) = update_request(&ada());
    for name in replacement.keys() {
        assert!(!name.starts_with('$'));
    }
    assert_eq!(replacement.len(), 5);
}

#[test]
fn listing_of_an_empty_collection_is_empty() {
    let result = run_listing(vec![CursorEvent::Exhausted]);
    assert_eq!(result, Some(Ok(vec![])));
}

#[test]
fn listing_keeps_the_order_of_the_store() {
    let result = run_listing(vec![
        CursorEvent::Document(stored("A", "B", "ab", "p", "a@b.com")),
        CursorEvent::Document(stored("C", "D", "cd", "q", "c@d.com")),
        CursorEvent::Document(stored("A", "B", "ab", "p", "a@b.com")),
        CursorEvent::Exhausted,
    ]);
    let second = build_user(
        "C".to_string(),
        "D".to_string(),
        "c@d.com".to_string(),
        "cd".to_string(),
        "q".to_string(),
    );
    assert_eq!(result, Some(Ok(vec![ada(), second, ada()])));
}

#[test]
fn listing_reads_a_document_without_password_as_empty_password() {
    let mut document = stored("A", "B", "ab", "p", "a@b.com");
    document.remove("password");
    let result = run_listing(vec![CursorEvent::Document(document), CursorEvent::Exhausted]);
    let users = result.expect("the listing ends").expect("the listing succeeds");
    assert_eq!(users.len(), 1);
    assert_eq!(users[0].password, "");
    assert_eq!(users[0].email, "a@b.com");
    assert_eq!(users[0].first_name, "A");
}

#[test]
fn listing_is_not_ended_by_a_malformed_document() {
    let mut malformed = Document::new();
    malformed.insert("firstName", Bson::I32(1));
    malformed.insert("unrelated", Bson::Null);
    let result = run_listing(vec![
        CursorEvent::Document(malformed),
        CursorEvent::Document(Document::new()),
        CursorEvent::Document(stored("A", "B", "ab", "p", "a@b.com")),
        CursorEvent::Exhausted,
    ]);
    let blank = build_user(
        String::new(),
        String::new(),
        String::new(),
        String::new(),
        String::new(),
    );
    assert_eq!(result, Some(Ok(vec![blank.clone(), blank, ada()])));
}

#[test]
fn listing_fails_with_the_error_of_the_cursor() {
    let result = run_listing(vec![
        CursorEvent::Document(stored("A", "B", "ab", "p", "a@b.com")),
        CursorEvent::Failure("connection reset".to_string()),
        CursorEvent::Document(stored("C", "D", "cd", "q", "c@d.com")),
        CursorEvent::Exhausted,
    ]);
    assert_eq!(result, Some(Err("connection reset".to_string())));
}

#[test]
fn listing_fails_when_the_first_event_is_a_failure() {
    let result = run_listing(vec![CursorEvent::Failure("unreachable host".to_string())]);
    assert_eq!(result, Some(Err("unreachable host".to_string())));
}

#[test]
fn listing_goes_on_until_the_cursor_is_exhausted() {
    let result = run_listing(vec![
        CursorEvent::Document(stored("A", "B", "ab", "p", "a@b.com")),
        CursorEvent::Document(stored("C", "D", "cd", "q", "c@d.com")),
    ]);
    assert_eq!(result, None);
}

#[test]
fn listing_step_appends_the_user_of_the_document() {
    let step = listing_step::<String>(
        vec![ada()],
        CursorEvent::Document(stored("C", "D", "cd", "q", "c@d.com")),
    );
    match step {
        ListingStep::Continue(users) => {
            assert_eq!(users.len(), 2);
            assert_eq!(users[0], ada());
            assert_eq!(users[1].first_name, "C");
            assert_eq!(users[1].last_name, "D");
            assert_eq!(users[1].user_name, "cd");
            assert_eq!(users[1].password, "q");
            assert_eq!(users[1].email, "c@d.com");
        }
        ListingStep::Finished(_) => panic!("a document does not end the listing"),
    }
}

#[test]
fn listing_step_hands_out_the_gathered_users_at_the_end() {
    let step = listing_step::<String>(vec![ada(), ada()], CursorEvent::Exhausted);
    match step {
        ListingStep::Finished(Ok(users)) => assert_eq!(users, vec![ada(), ada()]),
        _ => panic!("an exhausted cursor ends the listing with the users"),
    }
}

#[test]
fn listing_step_drops_the_gathered_users_on_failure() {
    let step = listing_step(vec![ada()], CursorEvent::Failure(17u32));
    match step {
        ListingStep::Finished(Err(code)) => assert_eq!(code, 17),
        _ => panic!("a failure ends the listing with the error"),
    }
}
