use attestation_bridge::wire::{AttestationResponse, ErrorResponse, Reply};

/// The same object as serde_json writes it from a map of strings.
fn by_serde(members: &[(&str, &str)]) -> String {
    let mut object = serde_json::Map::new();
    for (key, value) in members {
        object.insert(key.to_string(), serde_json::Value::String(value.to_string()));
    }
    serde_json::to_string(&serde_json::Value::Object(object)).unwrap()
}

#[test]
fn document_reply_is_one_member_object() {
    let reply = Reply::attestation("AQID".to_string());
    assert_eq!(reply, Reply::Attestation(AttestationResponse { document: "AQID".to_string() }));
    assert_eq!(reply.to_json(), r#"{"document":"AQID"}"#);
    assert_eq!(reply.to_json(), by_serde(&[("document", "AQID")]));
}

#[test]
fn rejection_has_no_status_member() {
    let reply = Reply::rejection("Invalid nonce encoding", "Invalid padding".to_string());
    assert_eq!(
        reply,
        Reply::Error(ErrorResponse {
            error: "Invalid nonce encoding".to_string(),
            message: "Invalid padding".to_string(),
            status: None,
        })
    );
    assert_eq!(
        reply.to_json(),
        r#"{"error":"Invalid nonce encoding","message":"Invalid padding"}"#
    );
    assert_eq!(
        reply.to_json(),
        by_serde(&[("error", "Invalid nonce encoding"), ("message", "Invalid padding")])
    );
}

#[test]
fn unavailable_reply_carries_the_status_tag() {
    let reply = Reply::unavailable("NSM Error: InputTooLarge".to_string());
    assert_eq!(
        reply,
        Reply::Error(ErrorResponse {
            error: "NSM device not available".to_string(),
            message: "NSM Error: InputTooLarge".to_string(),
            status: Some("NSM_UNAVAILABLE".to_string()),
        })
    );
    assert_eq!(
        reply.to_json(),
        r#"{"error":"NSM device not available","message":"NSM Error: InputTooLarge","status":"NSM_UNAVAILABLE"}"#
    );
    assert_eq!(
        reply.to_json(),
        by_serde(&[
            ("error", "NSM device not available"),
            ("message", "NSM Error: InputTooLarge"),
            ("status", "NSM_UNAVAILABLE"),
        ])
    );
}

#[test]
fn message_text_is_escaped_as_json() {
    let message = "expected `\"` at line 1\n\tcolumn \\ 2 \u{1} \u{e9} \u{1f600}";
    let reply = Reply::rejection("invalid JSON request", message.to_string());
    assert_eq!(
        reply.to_json(),
        "{\"error\":\"invalid JSON request\",\"message\":\"expected `\\\"` at line 1\\n\\tcolumn \\\\ 2 \\u0001 \u{e9} \u{1f600}\"}"
    );
    assert_eq!(
        reply.to_json(),
        by_serde(&[("error", "invalid JSON request"), ("message", message)])
    );
}

#[test]
fn written_reply_parses_back_to_its_members() {
    let reply = Reply::Error(ErrorResponse {
        error: "a \"quoted\" category".to_string(),
        message: String::new(),
        status: Some("tag\\".to_string()),
    });
    let value: serde_json::Value = serde_json::from_str(&reply.to_json()).unwrap();
    let object = value.as_object().unwrap();
    assert_eq!(object.len(), 3);
    assert_eq!(object["error"].as_str(), Some("a \"quoted\" category"));
    assert_eq!(object["message"].as_str(), Some(""));
    assert_eq!(object["status"].as_str(), Some("tag\\"));
}

#[test]
fn bytes_on_the_wire_are_the_json_text_in_utf8() {
    let reply = Reply::rejection("invalid JSON request", "caf\u{e9}".to_string());
    assert_eq!(reply.to_bytes(), reply.to_json().into_bytes());
    assert_eq!(
        reply.to_bytes(),
        b"{\"error\":\"invalid JSON request\",\"message\":\"caf\xc3\xa9\"}".to_vec()
    );
}
