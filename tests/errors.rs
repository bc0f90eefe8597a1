use std::collections::HashMap;

use gql_client::text::decimal;
use gql_client::{GraphQLError, GraphQLErrorLocation, GraphQLErrorMessage, GraphQLErrorPathParam};

fn entry(message: &str) -> GraphQLErrorMessage {
    GraphQLErrorMessage {
        message: message.to_string(),
        locations: None,
        extensions: None,
        path: None,
    }
}

#[test]
fn with_text_has_no_error_list() {
    let e = GraphQLError::with_text("connection refused");
    assert_eq!(e.message(), "connection refused");
    assert!(e.json().is_none());
}

#[test]
fn with_json_points_at_the_list() {
    let e = GraphQLError::with_json(vec![entry("not found")]);
    assert_eq!(e.message(), "Look at json field for more details");
    let list = e.json().unwrap();
    assert_eq!(list.len(), 1);
    assert_eq!(list[0].message, "not found");
}

#[test]
fn with_message_and_json_keeps_an_empty_list() {
    let e = GraphQLError::with_message_and_json("The response is [502]", Vec::new());
    assert_eq!(e.message(), "The response is [502]");
    assert_eq!(e.json().map(|v| v.len()), Some(0));
}

#[test]
fn json_hands_out_a_copy() {
    let mut extensions = HashMap::new();
    extensions.insert("code".to_string(), "NOT_FOUND".to_string());
    let full = GraphQLErrorMessage {
        message: "not found".to_string(),
        locations: Some(vec![GraphQLErrorLocation { line: 3, column: 7 }]),
        extensions: Some(extensions),
        path: Some(vec![
            GraphQLErrorPathParam::String("posts".to_string()),
            GraphQLErrorPathParam::Number(4),
        ]),
    };
    let e = GraphQLError::with_json(vec![full]);
    let mut copy = e.json().unwrap();
    assert_eq!(copy[0].message, "not found");
    assert_eq!(copy[0].locations, Some(vec![GraphQLErrorLocation { line: 3, column: 7 }]));
    assert_eq!(
        copy[0].extensions.as_ref().unwrap().get("code").map(|s| s.as_str()),
        Some("NOT_FOUND")
    );
    let path = copy[0].path.as_ref().unwrap();
    assert!(matches!(&path[0], GraphQLErrorPathParam::String(s) if s == "posts"));
    assert!(matches!(&path[1], GraphQLErrorPathParam::Number(4)));
    copy[0].message = "changed".to_string();
    copy.push(entry("extra"));
    let again = e.json().unwrap();
    assert_eq!(again.len(), 1);
    assert_eq!(again[0].message, "not found");
}

#[test]
fn format_writes_message_then_one_line_per_entry() {
    let e = GraphQLError::with_message_and_json("The response is [500]", vec![entry("a"), entry("b")]);
    assert_eq!(
        gql_client::error::format(&e),
        "\nGQLClient Error: The response is [500]\nMessage: a\nMessage: b\n"
    );
}

#[test]
fn format_without_list_is_one_line() {
    let e = GraphQLError::with_text("timeout");
    assert_eq!(gql_client::error::format(&e), "\nGQLClient Error: timeout\n");
}

#[test]
fn to_string_is_the_formatted_text() {
    let e = GraphQLError::with_json(vec![entry("not found")]);
    assert_eq!(
        e.to_string(),
        "\nGQLClient Error: Look at json field for more details\nMessage: not found\n"
    );
}

#[test]
fn transport_faults_keep_reqwest_text() {
    let fault = reqwest::Proxy::http("ftp://proxy.example").err().unwrap();
    let e = GraphQLError::from_transport(&fault);
    assert_eq!(e.message(), fault.to_string());
    assert!(e.message().starts_with("builder error"));
    assert!(e.json().is_none());
}

#[test]
fn decimal_writes_numbers() {
    assert_eq!(decimal(0), "0");
    assert_eq!(decimal(7), "7");
    assert_eq!(decimal(500), "500");
    assert_eq!(decimal(65535), "65535");
}
