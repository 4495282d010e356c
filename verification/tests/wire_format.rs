//! Serialization of the wire payloads.

use condensate::{json_node_text, EpisodicItem, JsonNode, RetrieveRequest};

#[test]
fn item_without_metadata_has_no_metadata_key() {
    let item = EpisodicItem {
        source: String::from("cli"),
        text: String::from("hello"),
        metadata: None,
    };
    assert_eq!(item.to_json(), "{\"source\":\"cli\",\"text\":\"hello\"}");
}

#[test]
fn item_with_metadata_writes_it_last() {
    let item = EpisodicItem {
        source: String::from("cli"),
        text: String::from("hello"),
        metadata: Some(vec![
            (String::from("rank"), JsonNode::Num(String::from("1"))),
            (String::from("tag"), JsonNode::Str(String::from("a"))),
        ]),
    };
    assert_eq!(
        item.to_json(),
        "{\"source\":\"cli\",\"text\":\"hello\",\"metadata\":{\"rank\":1,\"tag\":\"a\"}}"
    );
}

#[test]
fn item_with_empty_metadata_list_writes_empty_object() {
    let item = EpisodicItem {
        source: String::from("s"),
        text: String::from("t"),
        metadata: Some(vec![]),
    };
    assert_eq!(
        item.to_json(),
        "{\"source\":\"s\",\"text\":\"t\",\"metadata\":{}}"
    );
}

#[test]
fn request_without_skip_llm_has_no_skip_llm_key() {
    let req = RetrieveRequest {
        query: String::from("what happened yesterday"),
        skip_llm: None,
    };
    assert_eq!(req.to_json(), "{\"query\":\"what happened yesterday\"}");
}

#[test]
fn request_with_skip_llm_writes_the_flag() {
    let req = RetrieveRequest {
        query: String::from("q"),
        skip_llm: Some(false),
    };
    assert_eq!(req.to_json(), "{\"query\":\"q\",\"skip_llm\":false}");
    let req = RetrieveRequest {
        query: String::from("q"),
        skip_llm: Some(true),
    };
    assert_eq!(req.to_json(), "{\"query\":\"q\",\"skip_llm\":true}");
}

#[test]
fn strings_are_escaped() {
    let item = EpisodicItem {
        source: String::from("a\"b\\c"),
        text: String::from("line\nbreak\ttab\rret \u{0001}ctl"),
        metadata: None,
    };
    assert_eq!(
        item.to_json(),
        "{\"source\":\"a\\\"b\\\\c\",\"text\":\"line\\nbreak\\ttab\\rret \\u0001ctl\"}"
    );
}

#[test]
fn serialized_item_is_valid_json_to_serde() {
    let item = EpisodicItem {
        source: String::from("cli"),
        text: String::from("quote \" and \n newline"),
        metadata: None,
    };
    let v: serde_json::Value = serde_json::from_str(&item.to_json()).unwrap();
    assert_eq!(v["source"], serde_json::Value::String(String::from("cli")));
    assert_eq!(
        v["text"],
        serde_json::Value::String(String::from("quote \" and \n newline"))
    );
    assert!(v.get("metadata").is_none());
}

#[test]
fn serialized_request_round_trips_through_serde() {
    let req = RetrieveRequest {
        query: String::from("what happened yesterday"),
        skip_llm: Some(false),
    };
    let v: serde_json::Value = serde_json::from_str(&req.to_json()).unwrap();
    assert_eq!(
        v["query"],
        serde_json::Value::String(String::from("what happened yesterday"))
    );
    assert_eq!(v["skip_llm"], serde_json::Value::Bool(false));
    let bare = RetrieveRequest {
        query: String::from("q"),
        skip_llm: None,
    };
    let v: serde_json::Value = serde_json::from_str(&bare.to_json()).unwrap();
    assert!(v.get("skip_llm").is_none());
}

#[test]
fn node_text_writes_each_shape() {
    assert_eq!(json_node_text(&JsonNode::Null), "null");
    assert_eq!(json_node_text(&JsonNode::Bool(true)), "true");
    assert_eq!(json_node_text(&JsonNode::Bool(false)), "false");
    assert_eq!(json_node_text(&JsonNode::Num(String::from("-12.5"))), "-12.5");
    assert_eq!(json_node_text(&JsonNode::Str(String::from("a\"b"))), "\"a\\\"b\"");
    assert_eq!(
        json_node_text(&JsonNode::Arr(vec![String::from("1"), String::from("true")])),
        "[1,true]"
    );
    assert_eq!(json_node_text(&JsonNode::Arr(vec![])), "[]");
    assert_eq!(
        json_node_text(&JsonNode::Obj(vec![
            (String::from("a"), String::from("1")),
            (String::from("b"), String::from("[2]")),
        ])),
        "{\"a\":1,\"b\":[2]}"
    );
}
