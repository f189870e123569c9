use lcu_rest::json::normalize_response;
use lcu_rest::json::LcuResponse;
use lcu_rest::rest::LCUClientInfo;
use lcu_rest::rest::LcuError;
use lcu_rest::rest::RESTClient;
use lcu_rest::urls::build_url;

fn sample_info() -> LCUClientInfo {
    LCUClientInfo {
        port: 2999,
        token: String::from("T1"),
        remoting_port: 3000,
        remoting_token: String::from("T2"),
    }
}

#[test]
fn default_identity_targets_default_pair() {
    let client = RESTClient::new(sample_info(), false).unwrap();
    assert_eq!(client.get_port(), 2999);
    assert_eq!(client.chosen_token().as_str(), "T1");
    assert_eq!(
        client.request_url("/lol-summoner/v1/current-summoner"),
        "https://127.0.0.1:2999/lol-summoner/v1/current-summoner"
    );
}

#[test]
fn remoting_identity_targets_remoting_pair() {
    let client = RESTClient::new(sample_info(), true).unwrap();
    assert_eq!(client.get_port(), 3000);
    assert_eq!(client.chosen_token().as_str(), "T2");
    assert_eq!(
        client.request_url("/process-control/v1/process"),
        "https://127.0.0.1:3000/process-control/v1/process"
    );
    let normalized = normalize_response(204, b"").unwrap();
    assert!(matches!(normalized, LcuResponse::NoContent));
    let sentinel: serde_json::Value = serde_json::from_str("{\"status\":204}").unwrap();
    assert_eq!(normalized.into_value(), sentinel);
}

#[test]
fn no_content_yields_sentinel_for_any_body() {
    let sentinel: serde_json::Value = serde_json::from_str("{\"status\":204}").unwrap();
    let from_empty = normalize_response(204, b"").unwrap();
    assert!(matches!(from_empty, LcuResponse::NoContent));
    assert_eq!(from_empty.into_value(), sentinel);
    let from_stray_body = normalize_response(204, b"ignored").unwrap();
    assert!(matches!(from_stray_body, LcuResponse::NoContent));
    assert_eq!(from_stray_body.into_value(), sentinel);
}

#[test]
fn json_body_is_returned_as_is() {
    let normalized = normalize_response(200, b"{\"a\":1}").unwrap();
    assert!(matches!(normalized, LcuResponse::Value(..)));
    let expected: serde_json::Value = serde_json::from_str("{\"a\":1}").unwrap();
    assert_eq!(normalized.into_value(), expected);
}

#[test]
fn error_status_json_body_is_a_normal_result() {
    let normalized = normalize_response(404, b"{\"errorCode\":\"RPC_ERROR\"}").unwrap();
    let expected: serde_json::Value =
        serde_json::from_str("{\"errorCode\":\"RPC_ERROR\"}").unwrap();
    assert_eq!(normalized.into_value(), expected);
}

#[test]
fn non_json_body_is_a_decode_error() {
    let result = normalize_response(200, b"oops");
    assert!(matches!(result, Err(LcuError::Decode(_))));
    let empty = normalize_response(200, b"");
    assert!(matches!(empty, Err(LcuError::Decode(_))));
}

#[test]
fn normalization_is_deterministic() {
    let first = normalize_response(200, b"{\"a\":1}").unwrap().into_value();
    let second = normalize_response(200, b"{\"a\":1}").unwrap().into_value();
    assert_eq!(first, second);
    let client = RESTClient::new(sample_info(), false).unwrap();
    assert_eq!(client.request_url("/x"), client.request_url("/x"));
}

#[test]
fn control_character_in_credential_is_rejected() {
    let mut info = sample_info();
    info.token = String::from("bad\ntoken");
    let result = RESTClient::new(info, false);
    assert!(matches!(result, Err(LcuError::InvalidCredential(_))));
    let mut remoting_info = sample_info();
    remoting_info.remoting_token = String::from("bad\u{7f}token");
    let remoting_result = RESTClient::new(remoting_info, true);
    assert!(matches!(remoting_result, Err(LcuError::InvalidCredential(_))));
}

#[test]
fn tab_and_high_characters_may_stand_in_a_credential() {
    let mut info = sample_info();
    info.token = String::from("a\tb\u{e9}");
    assert!(RESTClient::new(info, false).is_ok());
}

#[test]
fn port_rendering_covers_the_edges() {
    assert_eq!(build_url(0, "/"), "https://127.0.0.1:0/");
    assert_eq!(build_url(65535, "/a?b=c"), "https://127.0.0.1:65535/a?b=c");
    assert_eq!(build_url(80, ""), "https://127.0.0.1:80");
}

#[test]
fn cloned_client_shares_the_configuration() {
    let client = RESTClient::new(sample_info(), true).unwrap();
    let copy = client.clone();
    assert_eq!(copy.get_port(), 3000);
    assert_eq!(copy.chosen_token().as_str(), "T2");
    assert_eq!(copy.request_url("/p"), client.request_url("/p"));
}
