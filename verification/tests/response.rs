use mass_rs::response::{decoded, interpret, status_is_success, Delivery};
use mass_rs::MaasError;

fn answered(status: u16, body: &str) -> Delivery {
    Delivery::Answered { status, body: Ok(body.to_string()) }
}

#[test]
fn not_found_is_an_api_error_with_status_and_body() {
    match interpret(answered(404, "not found")) {
        Err(MaasError::ApiError { status, body }) => {
            assert_eq!(status, 404);
            assert_eq!(body, "not found");
        }
        other => panic!("expected an API error, got {:?}", other),
    }
}

#[test]
fn success_with_broken_json_is_a_serialization_error() {
    assert!(matches!(interpret(answered(200, "{not json")), Err(MaasError::Serialization(_))));
    assert!(matches!(interpret(answered(204, "")), Err(MaasError::Serialization(_))));
}

#[test]
fn connection_failure_is_a_network_error() {
    match interpret(Delivery::Failed("connection refused".to_string())) {
        Err(MaasError::Network(cause)) => assert_eq!(cause, "connection refused"),
        other => panic!("expected a network error, got {:?}", other),
    }
}

#[test]
fn success_with_json_is_the_document() {
    let text = "[{\"system_id\": \"abc12\", \"memory\": 2048}, null, 1.5]";
    let expected: serde_json::Value = serde_json::from_str(text).unwrap();
    assert_eq!(interpret(answered(200, text)).unwrap(), expected);
    assert_eq!(interpret(answered(201, "\"ok\"")).unwrap(), serde_json::Value::String("ok".to_string()));
    assert_ne!(interpret(answered(200, "1")).unwrap(), interpret(answered(200, "2")).unwrap());
}

#[test]
fn unauthorized_is_a_plain_api_error() {
    match interpret(answered(401, "{\"error\": \"denied\"}")) {
        Err(MaasError::ApiError { status, body }) => {
            assert_eq!(status, 401);
            assert_eq!(body, "{\"error\": \"denied\"}");
        }
        other => panic!("expected an API error, got {:?}", other),
    }
}

#[test]
fn unreadable_body_of_a_failure_is_empty() {
    let delivery = Delivery::Answered { status: 500, body: Err("reset by peer".to_string()) };
    match interpret(delivery) {
        Err(MaasError::ApiError { status, body }) => {
            assert_eq!(status, 500);
            assert_eq!(body, "");
        }
        other => panic!("expected an API error, got {:?}", other),
    }
}

#[test]
fn unreadable_body_of_a_success_is_a_network_error() {
    let delivery = Delivery::Answered { status: 200, body: Err("reset by peer".to_string()) };
    match interpret(delivery) {
        Err(MaasError::Network(cause)) => assert_eq!(cause, "reset by peer"),
        other => panic!("expected a network error, got {:?}", other),
    }
}

#[test]
fn success_is_exactly_the_two_hundreds() {
    assert!(!status_is_success(0));
    assert!(!status_is_success(199));
    assert!(status_is_success(200));
    assert!(status_is_success(299));
    assert!(!status_is_success(300));
    assert!(!status_is_success(u16::MAX));
    assert!(matches!(interpret(answered(199, "1")), Err(MaasError::ApiError { status: 199, .. })));
    assert!(matches!(interpret(answered(299, "1")), Ok(_)));
    assert!(matches!(interpret(answered(300, "1")), Err(MaasError::ApiError { status: 300, .. })));
}

#[test]
fn decoding_wraps_the_parser_error() {
    let broken = serde_json::from_str::<serde_json::Value>("{not json");
    let message = broken.as_ref().unwrap_err().to_string();
    match decoded(broken) {
        Err(MaasError::Serialization(e)) => assert_eq!(e.to_string(), message),
        other => panic!("expected a serialization error, got {:?}", other),
    }
    assert_eq!(decoded(Ok(serde_json::Value::Null)).unwrap(), serde_json::Value::Null);
}
