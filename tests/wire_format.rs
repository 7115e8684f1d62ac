use swqos::confirm::{Commitment, Observation};
use swqos::wire::{
    build_request, classify_reply, classify_response, commitment_from_name, compose_send_body, contains_char,
    delivery_from_reply, has_prefix, is_endpoint, observation_from_reply, send_body_for, status_body_for, AuthScheme,
    Delivery,
};

fn header(req: &swqos::wire::HttpRequest, i: usize) -> (&str, &str) {
    (req.headers[i].0.as_str(), req.headers[i].1.as_str())
}

#[test]
fn send_body_wraps_quoted_payload() {
    assert_eq!(
        compose_send_body("\"QUJD\""),
        "{\"id\":1,\"jsonrpc\":\"2.0\",\"method\":\"sendTransaction\",\"params\":[\"QUJD\",{\"encoding\":\"base64\",\"skipPreflight\":true}]}"
    );
}

#[test]
fn send_body_quotes_content() {
    let body = send_body_for("AQID+/==");
    assert_eq!(
        body,
        "{\"id\":1,\"jsonrpc\":\"2.0\",\"method\":\"sendTransaction\",\"params\":[\"AQID+/==\",{\"encoding\":\"base64\",\"skipPreflight\":true}]}"
    );
    let parsed: serde_json::Value = serde_json::from_str(&body).unwrap();
    assert_eq!(parsed["params"][0], "AQID+/==");
    assert_eq!(parsed["params"][1]["skipPreflight"], true);
}

#[test]
fn send_body_escapes_quotes() {
    let body = send_body_for("a\"b");
    assert!(body.contains("[\"a\\\"b\","));
}

#[test]
fn status_body_names_signature() {
    let body = status_body_for("5sig");
    assert_eq!(
        body,
        "{\"id\":1,\"jsonrpc\":\"2.0\",\"method\":\"getSignatureStatuses\",\"params\":[[\"5sig\"],{\"searchTransactionHistory\":false}]}"
    );
}

#[test]
fn header_auth_adds_named_header() {
    let auth = AuthScheme::Header { name: "api-key".into() };
    let r = build_request(&"https://n.example/".into(), &auth, &"k1".into(), "B".into());
    assert_eq!(r.url, "https://n.example/");
    assert_eq!(r.headers.len(), 2);
    assert_eq!(header(&r, 0), ("Content-Type", "application/json"));
    assert_eq!(header(&r, 1), ("api-key", "k1"));
    assert_eq!(r.body, "B");
}

#[test]
fn url_param_auth_extends_query() {
    let auth = AuthScheme::UrlParam { name: "api-key".into() };
    let r = build_request(&"https://n.example/rpc".into(), &auth, &"k1".into(), "B".into());
    assert_eq!(r.url, "https://n.example/rpc?api-key=k1");
    assert_eq!(r.headers.len(), 1);
    let r = build_request(&"https://n.example/rpc?x=1".into(), &auth, &"k1".into(), "B".into());
    assert_eq!(r.url, "https://n.example/rpc?x=1&api-key=k1");
}

#[test]
fn bearer_auth_sets_authorization() {
    let r = build_request(&"https://n.example".into(), &AuthScheme::Bearer, &"tok".into(), "B".into());
    assert_eq!(r.url, "https://n.example");
    assert_eq!(header(&r, 1), ("Authorization", "Bearer tok"));
}

#[test]
fn open_endpoint_has_no_credential() {
    let r = build_request(&"https://rpc".into(), &AuthScheme::NoAuth, &"ignored".into(), "B".into());
    assert_eq!(r.url, "https://rpc");
    assert_eq!(r.headers.len(), 1);
}

#[test]
fn contains_char_finds_characters() {
    assert!(contains_char("a?b", '?'));
    assert!(!contains_char("ab", '?'));
    assert!(!contains_char("", '?'));
}

#[test]
fn delivery_rules() {
    assert_eq!(delivery_from_reply(false, true, true), Delivery::Unrecognized);
    assert_eq!(delivery_from_reply(true, true, true), Delivery::Accepted);
    assert_eq!(delivery_from_reply(true, false, true), Delivery::Rejected);
    assert_eq!(delivery_from_reply(true, false, false), Delivery::Unrecognized);
}

#[test]
fn replies_are_classified() {
    assert_eq!(classify_reply("{\"jsonrpc\":\"2.0\",\"result\":\"5sig\",\"id\":1}"), Delivery::Accepted);
    assert_eq!(
        classify_reply("{\"jsonrpc\":\"2.0\",\"error\":{\"code\":-32002,\"message\":\"x\"},\"id\":1}"),
        Delivery::Rejected
    );
    assert_eq!(classify_reply("{\"id\":1}"), Delivery::Unrecognized);
    assert_eq!(classify_reply("502 Bad Gateway"), Delivery::Unrecognized);
}

#[test]
fn commitment_names() {
    assert_eq!(commitment_from_name(&"processed".into()), Some(Commitment::Processed));
    assert_eq!(commitment_from_name(&"confirmed".into()), Some(Commitment::Confirmed));
    assert_eq!(commitment_from_name(&"finalized".into()), Some(Commitment::Finalized));
    assert_eq!(commitment_from_name(&"rooted".into()), None);
}

#[test]
fn status_reply_unknown_signature() {
    let t = "{\"jsonrpc\":\"2.0\",\"result\":{\"context\":{\"slot\":82},\"value\":[null]},\"id\":1}";
    assert!(matches!(observation_from_reply(t), Some(Observation::NotFound)));
}

#[test]
fn status_reply_confirmed() {
    let t = "{\"jsonrpc\":\"2.0\",\"result\":{\"context\":{\"slot\":82},\"value\":[{\"slot\":72,\"confirmations\":10,\"err\":null,\"status\":{\"Ok\":null},\"confirmationStatus\":\"confirmed\"}]},\"id\":1}";
    match observation_from_reply(t) {
        Some(Observation::Landed { slot, commitment, error }) => {
            assert_eq!(slot, 72);
            assert_eq!(commitment, Commitment::Confirmed);
            assert!(error.is_none());
        }
        other => panic!("unexpected {other:?}"),
    }
}

#[test]
fn status_reply_program_error() {
    let t = "{\"jsonrpc\":\"2.0\",\"result\":{\"context\":{\"slot\":82},\"value\":[{\"slot\":72,\"confirmations\":null,\"err\":{\"InstructionError\":[0,{\"Custom\":6001}]},\"confirmationStatus\":\"processed\"}]},\"id\":1}";
    match observation_from_reply(t) {
        Some(Observation::Landed { slot, commitment, error }) => {
            assert_eq!(slot, 72);
            assert_eq!(commitment, Commitment::Processed);
            assert_eq!(error.unwrap(), "{\"InstructionError\":[0,{\"Custom\":6001}]}");
        }
        other => panic!("unexpected {other:?}"),
    }
}

#[test]
fn status_reply_malformed() {
    assert!(observation_from_reply("nope").is_none());
    assert!(observation_from_reply("{\"result\":{\"value\":[]}}").is_none());
    assert!(observation_from_reply("{\"result\":{\"value\":[{\"slot\":3}]}}").is_none());
}

#[test]
fn prefixes_and_endpoints() {
    assert!(has_prefix("https://x", "https://"));
    assert!(has_prefix("abc", ""));
    assert!(!has_prefix("http", "https"));
    assert!(!has_prefix("ftp://x", "http://"));
    assert!(is_endpoint("http://127.0.0.1:9000"));
    assert!(is_endpoint("https://node1.example/"));
    assert!(!is_endpoint(""));
    assert!(!is_endpoint("https://"));
    assert!(!is_endpoint("node1.example"));
}

#[test]
fn reply_with_both_members_is_accepted() {
    assert_eq!(classify_reply("{\"result\":null,\"error\":{}}"), Delivery::Accepted);
    assert_eq!(classify_reply("[\"result\"]"), Delivery::Unrecognized);
}

#[test]
fn http_status_outside_success_is_a_refusal() {
    let ok = "{\"jsonrpc\":\"2.0\",\"result\":\"5sig\",\"id\":1}";
    assert_eq!(classify_response(200, ok), Delivery::Accepted);
    assert_eq!(classify_response(299, ok), Delivery::Accepted);
    assert_eq!(classify_response(429, ok), Delivery::Rejected);
    assert_eq!(classify_response(199, ok), Delivery::Rejected);
    assert_eq!(classify_response(503, "busy"), Delivery::Rejected);
    assert_eq!(classify_response(200, "busy"), Delivery::Unrecognized);
}
