use blaze_transfer::backblaze::BlazeError;
use blaze_transfer::error::{blaze_error_message, TransferError};

fn blaze(status: i64) -> BlazeError {
    BlazeError { status, code: "code".to_string(), message: "some \"text\"".to_string() }
}

#[test]
fn only_401_and_503_are_retryable() {
    assert!(TransferError::Blaze(blaze(401)).is_retryable());
    assert!(TransferError::Blaze(blaze(503)).is_retryable());
    for status in [-503, -1, 0, 200, 400, 402, 403, 404, 408, 429, 500, 502, 504, 4010] {
        assert!(!TransferError::Blaze(blaze(status)).is_retryable(), "status {}", status);
    }
}

#[test]
fn failures_that_are_not_structured_are_not_retryable() {
    assert!(!TransferError::Text("401".to_string()).is_retryable());
    assert!(!TransferError::PoisonError.is_retryable());
    assert!(!TransferError::RusotoError.is_retryable());
    let io = std::io::Error::new(std::io::ErrorKind::Other, "503");
    assert!(!TransferError::Io(io).is_retryable());
}

#[test]
fn messages_without_payload_are_fixed() {
    assert_eq!(TransferError::PoisonError.message(), "Posion Error");
    assert_eq!(TransferError::RusotoError.message(), "Rusoto Error");
}

#[test]
fn message_of_a_text_quotes_it() {
    assert_eq!(TransferError::Text("boom".to_string()).message(), "Custom Error: \"boom\"");
    assert_eq!(
        TransferError::Text("a \"b\"\n".to_string()).message(),
        "Custom Error: \"a \\\"b\\\"\\n\""
    );
}

#[test]
fn message_of_a_structured_failure_shows_its_fields() {
    let e = BlazeError {
        status: 401,
        code: "expired_auth_token".to_string(),
        message: "gone".to_string(),
    };
    assert_eq!(
        blaze_error_message(&e),
        "BlazeError { status: 401, code: \"expired_auth_token\", message: \"gone\" }"
    );
    assert_eq!(
        TransferError::Blaze(e).message(),
        "Blaze Error: BlazeError { status: 401, code: \"expired_auth_token\", message: \"gone\" }"
    );
}

#[test]
fn status_is_shown_in_decimal() {
    let shown = |status: i64| {
        blaze_error_message(&BlazeError {
            status,
            code: String::new(),
            message: String::new(),
        })
    };
    assert_eq!(shown(0), "BlazeError { status: 0, code: \"\", message: \"\" }");
    assert_eq!(shown(7), "BlazeError { status: 7, code: \"\", message: \"\" }");
    assert_eq!(shown(10), "BlazeError { status: 10, code: \"\", message: \"\" }");
    assert_eq!(shown(-12), "BlazeError { status: -12, code: \"\", message: \"\" }");
    assert_eq!(shown(1000), "BlazeError { status: 1000, code: \"\", message: \"\" }");
    assert_eq!(
        shown(i64::MAX),
        "BlazeError { status: 9223372036854775807, code: \"\", message: \"\" }"
    );
    assert_eq!(
        shown(i64::MIN),
        "BlazeError { status: -9223372036854775808, code: \"\", message: \"\" }"
    );
}

#[test]
fn message_of_a_structured_failure_is_its_debug_format() {
    for status in [i64::MIN, -7, 0, 503, i64::MAX] {
        let e = blaze(status);
        assert_eq!(blaze_error_message(&e), format!("{:?}", e));
    }
}

#[test]
fn messages_of_outside_failures_begin_with_their_kind() {
    let io = std::io::Error::new(std::io::ErrorKind::Other, "disk");
    let shown = format!("{:?}", io);
    assert_eq!(TransferError::Io(io).message(), format!("IO Error: {}", shown));
    let json = match serde_json::from_str::<serde_json::Value>("{") {
        Ok(_) => unreachable!(),
        Err(e) => e,
    };
    let shown = format!("{:?}", json);
    assert_eq!(TransferError::Json(json).message(), format!("JSON Error: {}", shown));
}

#[test]
fn message_of_a_request_failure_begins_with_its_kind() {
    let failure = match reqwest::Client::new().get("no address at all").build() {
        Ok(_) => panic!("an address without a scheme was taken"),
        Err(e) => e,
    };
    let shown = format!("{:?}", failure);
    assert!(!shown.is_empty());
    assert_eq!(TransferError::Request(failure).message(), format!("Request Error: {}", shown));
}

#[test]
fn conversion_from_a_string_slice_keeps_the_text() {
    match TransferError::from("Authorization Error") {
        TransferError::Text(text) => assert_eq!(text, "Authorization Error"),
        other => panic!("unexpected: {:?}", other),
    }
    match TransferError::from("") {
        TransferError::Text(text) => assert_eq!(text, ""),
        other => panic!("unexpected: {:?}", other),
    }
}

#[test]
fn conversion_from_a_lock_result_is_a_poison_error() {
    let held: std::sync::LockResult<u8> = Ok(3);
    assert!(matches!(TransferError::from(held), TransferError::PoisonError));
    let poisoned: std::sync::LockResult<u8> = Err(std::sync::PoisonError::new(3));
    assert!(matches!(TransferError::from(poisoned), TransferError::PoisonError));
}

#[test]
fn conversions_pick_the_kind() {
    assert!(matches!(TransferError::from("x".to_string()), TransferError::Text(_)));
    assert!(matches!(TransferError::from(blaze(1)), TransferError::Blaze(_)));
    let io = std::io::Error::new(std::io::ErrorKind::Other, "disk");
    assert!(matches!(TransferError::from(io), TransferError::Io(_)));
    let json = match serde_json::from_str::<serde_json::Value>("{") {
        Ok(_) => unreachable!(),
        Err(e) => e,
    };
    assert!(matches!(TransferError::from(json), TransferError::Json(_)));
}
