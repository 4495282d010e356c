//! Client construction, reply decoding, and the CLI decisions.

use condensate::{
    decode_add_item, decode_retrieve, dispatch, recall_answer_line, CliCommand,
    CondensateClient, CondensateError,
};

fn args(words: &[&str]) -> Vec<String> {
    words.iter().map(|w| String::from(*w)).collect()
}

#[test]
fn empty_key_means_no_authorization_header() {
    let c = CondensateClient::new("http://host:8000", "");
    assert!(c.auth_header().is_none());
    let p = c.add_item_request("hello", "cli");
    assert!(p.auth_header.is_none());
}

#[test]
fn non_empty_key_becomes_a_bearer_header() {
    let c = CondensateClient::new("http://host:8000", "secret");
    assert_eq!(c.auth_header().unwrap(), "Bearer secret");
    let p = c.retrieve_request("q");
    assert_eq!(p.auth_header.as_deref(), Some("Bearer secret"));
}

#[test]
fn trailing_separators_do_not_change_request_urls() {
    let with = CondensateClient::new("http://host:8000/", "");
    let without = CondensateClient::new("http://host:8000", "");
    let many = CondensateClient::new("http://host:8000///", "");
    assert_eq!(with.episodic_url(), without.episodic_url());
    assert_eq!(many.episodic_url(), without.episodic_url());
    assert_eq!(with.retrieve_url(), without.retrieve_url());
    assert_eq!(without.episodic_url(), "http://host:8000/api/v1/episodic");
    assert_eq!(
        without.retrieve_url(),
        "http://host:8000/api/v1/memory/retrieve"
    );
}

#[test]
fn request_plans_carry_url_and_serialized_body() {
    let c = CondensateClient::new("http://host:8000", "");
    let p = c.add_item_request("hello", "cli");
    assert_eq!(p.url, "http://host:8000/api/v1/episodic");
    assert_eq!(p.body, "{\"source\":\"cli\",\"text\":\"hello\"}");
    let p = c.retrieve_request("what happened yesterday");
    assert_eq!(p.url, "http://host:8000/api/v1/memory/retrieve");
    assert_eq!(
        p.body,
        "{\"query\":\"what happened yesterday\",\"skip_llm\":false}"
    );
}

#[test]
fn add_item_reply_yields_the_id() {
    let r = decode_add_item(200, "{\"id\":\"abc123\"}").unwrap();
    assert_eq!(r, "abc123");
}

#[test]
fn add_item_reply_without_id_yields_empty() {
    assert_eq!(decode_add_item(200, "{}").unwrap(), "");
    assert_eq!(decode_add_item(200, "{\"id\":5}").unwrap(), "");
    assert_eq!(decode_add_item(200, "[1,2]").unwrap(), "");
}

#[test]
fn add_item_error_status_is_a_request_error() {
    match decode_add_item(500, "{\"id\":\"abc123\"}") {
        Err(CondensateError::RequestError(d)) => assert_eq!(d, "HTTP status 500"),
        _ => panic!("expected a request error"),
    }
}

#[test]
fn add_item_unparsable_body_is_a_serialization_error() {
    assert!(matches!(
        decode_add_item(200, "not json"),
        Err(CondensateError::SerializationError(_))
    ));
}

#[test]
fn retrieve_null_answer_decodes_as_absent() {
    let r = decode_retrieve(200, "{\"answer\":null,\"context\":[]}").unwrap();
    assert!(r.answer.is_none());
    assert!(r.context.is_empty());
    assert_eq!(recall_answer_line(&r), "Answer: No response");
}

#[test]
fn retrieve_missing_answer_decodes_as_absent() {
    let r = decode_retrieve(200, "{\"context\":[]}").unwrap();
    assert!(r.answer.is_none());
    assert!(r.context.is_empty());
}

#[test]
fn retrieve_reply_passes_context_through() {
    let r = decode_retrieve(
        200,
        "{\"answer\":\"hi\",\"context\":[1,{\"a\":2},\"x\"]}",
    )
    .unwrap();
    assert_eq!(r.answer.as_deref(), Some("hi"));
    assert_eq!(r.context, vec!["1", "{\"a\":2}", "\"x\""]);
    assert_eq!(recall_answer_line(&r), "Answer: hi");
}

#[test]
fn retrieve_wrong_answer_shape_is_a_serialization_error() {
    assert!(matches!(
        decode_retrieve(200, "{\"answer\":5,\"context\":[]}"),
        Err(CondensateError::SerializationError(_))
    ));
}

#[test]
fn retrieve_missing_context_is_a_serialization_error() {
    assert!(matches!(
        decode_retrieve(200, "{\"answer\":\"x\"}"),
        Err(CondensateError::SerializationError(_))
    ));
}

#[test]
fn retrieve_error_status_is_a_request_error() {
    match decode_retrieve(404, "{\"answer\":null,\"context\":[]}") {
        Err(e) => assert_eq!(e.message(), "API Request Failed: HTTP status 404"),
        Ok(_) => panic!("expected an error"),
    }
}

#[test]
fn statuses_outside_the_error_ranges_are_not_failures() {
    // Like the original transport's status check: only 4xx and 5xx fail.
    assert_eq!(decode_add_item(302, "{\"id\":\"x\"}").unwrap(), "x");
    assert_eq!(decode_add_item(399, "{\"id\":\"x\"}").unwrap(), "x");
    match decode_add_item(400, "{\"id\":\"x\"}") {
        Err(CondensateError::RequestError(d)) => assert_eq!(d, "HTTP status 400"),
        _ => panic!("expected a request error"),
    }
    match decode_add_item(599, "{\"id\":\"x\"}") {
        Err(CondensateError::RequestError(d)) => assert_eq!(d, "HTTP status 599"),
        _ => panic!("expected a request error"),
    }
}

#[test]
fn serialization_error_message_names_the_kind() {
    let e = CondensateError::SerializationError(String::from("detail"));
    assert_eq!(e.message(), "Serialization Error: detail");
}

#[test]
fn no_arguments_means_usage() {
    assert!(matches!(dispatch(&args(&["condensate"])), CliCommand::Usage));
}

#[test]
fn ingest_without_text_is_a_misuse() {
    assert!(matches!(
        dispatch(&args(&["condensate", "ingest"])),
        CliCommand::MissingText
    ));
}

#[test]
fn recall_without_query_is_a_misuse() {
    assert!(matches!(
        dispatch(&args(&["condensate", "recall"])),
        CliCommand::MissingQuery
    ));
}

#[test]
fn recall_joins_the_remaining_words() {
    match dispatch(&args(&["condensate", "recall", "what", "happened", "yesterday"])) {
        CliCommand::Recall(q) => assert_eq!(q, "what happened yesterday"),
        _ => panic!("expected a recall decision"),
    }
}

#[test]
fn ingest_joins_the_remaining_words() {
    match dispatch(&args(&["condensate", "ingest", "note", "to", "self"])) {
        CliCommand::Ingest(t) => assert_eq!(t, "note to self"),
        _ => panic!("expected an ingest decision"),
    }
}

#[test]
fn status_is_recognized() {
    assert!(matches!(
        dispatch(&args(&["condensate", "status"])),
        CliCommand::Status
    ));
}

#[test]
fn unrecognized_command_is_reported() {
    match dispatch(&args(&["condensate", "frob"])) {
        CliCommand::Unknown(c) => assert_eq!(c, "frob"),
        _ => panic!("expected an unknown-command decision"),
    }
}
