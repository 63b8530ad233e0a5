use agentgen::error::{error_from_fields, error_from_response, is_success_status};
use agentgen::AgentGenError;

#[test]
fn success_is_the_2xx_class() {
    assert!(is_success_status(200));
    assert!(is_success_status(201));
    assert!(is_success_status(299));
    assert!(!is_success_status(199));
    assert!(!is_success_status(300));
    assert!(!is_success_status(402));
    assert!(!is_success_status(500));
}

#[test]
fn payment_required_gives_insufficient_tokens() {
    let body = br#"{"error":"Insufficient tokens","balance":3,"required":10,"buy_more_url":"https://www.agent-gen.com/buy"}"#;
    match error_from_response(402, body) {
        AgentGenError::InsufficientTokens { balance, required, buy_more_url } => {
            assert_eq!(balance, 3);
            assert_eq!(required, 10);
            assert_eq!(buy_more_url, "https://www.agent-gen.com/buy");
        }
        other => panic!("unexpected {:?}", other),
    }
}

#[test]
fn payment_required_with_missing_fields_uses_defaults() {
    match error_from_response(402, br#"{"balance":"many"}"#) {
        AgentGenError::InsufficientTokens { balance, required, buy_more_url } => {
            assert_eq!(balance, 0);
            assert_eq!(required, 0);
            assert_eq!(buy_more_url, "");
        }
        other => panic!("unexpected {:?}", other),
    }
}

#[test]
fn other_status_gives_api_error() {
    let body = br#"{"error":"Validation failed","detail":"html is required"}"#;
    match error_from_response(422, body) {
        AgentGenError::Api { status, message, detail } => {
            assert_eq!(status, 422);
            assert_eq!(message, "Validation failed");
            assert_eq!(detail.as_deref(), Some("html is required"));
        }
        other => panic!("unexpected {:?}", other),
    }
}

#[test]
fn api_error_without_message_is_unknown_error() {
    match error_from_response(500, br#"{"detail":42}"#) {
        AgentGenError::Api { status, message, detail } => {
            assert_eq!(status, 500);
            assert_eq!(message, "Unknown error");
            assert_eq!(detail, None);
        }
        other => panic!("unexpected {:?}", other),
    }
}

#[test]
fn non_object_body_reads_as_missing_fields() {
    match error_from_response(404, b"[1,2,3]") {
        AgentGenError::Api { status, message, detail } => {
            assert_eq!(status, 404);
            assert_eq!(message, "Unknown error");
            assert_eq!(detail, None);
        }
        other => panic!("unexpected {:?}", other),
    }
}

#[test]
fn body_that_is_not_json_still_gives_the_status_error() {
    match error_from_response(502, b"<html>Bad Gateway</html>") {
        AgentGenError::Api { status, message, detail } => {
            assert_eq!(status, 502);
            assert_eq!(message, "Unknown error");
            assert_eq!(detail, None);
        }
        other => panic!("unexpected {:?}", other),
    }
    match error_from_response(402, b"") {
        AgentGenError::InsufficientTokens { balance, required, buy_more_url } => {
            assert_eq!(balance, 0);
            assert_eq!(required, 0);
            assert_eq!(buy_more_url, "");
        }
        other => panic!("unexpected {:?}", other),
    }
}

#[test]
fn fields_give_the_status_error() {
    match error_from_fields(402, Some("x".to_string()), None, Some(7), None, None) {
        AgentGenError::InsufficientTokens { balance, required, buy_more_url } => {
            assert_eq!((balance, required, buy_more_url.as_str()), (7, 0, ""));
        }
        other => panic!("unexpected {:?}", other),
    }
    match error_from_fields(409, None, Some("d".to_string()), Some(1), Some(2), Some("u".to_string())) {
        AgentGenError::Api { status, message, detail } => {
            assert_eq!(status, 409);
            assert_eq!(message, "Unknown error");
            assert_eq!(detail.as_deref(), Some("d"));
        }
        other => panic!("unexpected {:?}", other),
    }
}
