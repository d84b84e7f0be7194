use imagekit::{conclude, expected_body, BodyShape, Decoded, ErrorPayload, Exchange, ListError};
use serde_json::Value;

/// Decodes `body` in the shape that `status` calls for, as the caller of
/// the service does before it hands the exchange over.
fn answered(status: u16, body: &str) -> Exchange<Value> {
    let decoded = match expected_body(status) {
        BodyShape::Records => match serde_json::from_str::<Vec<Value>>(body) {
            Ok(records) => Decoded::Records(records),
            Err(_) => Decoded::Malformed,
        },
        BodyShape::ErrorPayload => match serde_json::from_str::<Value>(body) {
            Ok(Value::Object(fields)) => match fields.get("message") {
                Some(Value::String(message)) => {
                    Decoded::ErrorPayload(ErrorPayload { message: message.clone() })
                }
                _ => Decoded::Malformed,
            },
            _ => Decoded::Malformed,
        },
    };
    Exchange::Answered { status, body: decoded }
}

#[test]
fn status_200_with_records_succeeds() {
    let result = conclude(answered(200, "[{\"fileId\":\"abc\"}]"));
    let records = result.expect("one record");
    assert_eq!(records.len(), 1);
    assert_eq!(records[0]["fileId"], Value::String("abc".to_string()));
}

#[test]
fn status_200_with_an_empty_list_succeeds() {
    assert_eq!(conclude(answered(200, "[]")), Ok(Vec::new()));
}

#[test]
fn status_200_with_a_malformed_body_is_a_decode_error() {
    assert_eq!(conclude(answered(200, "not-json")), Err(ListError::Decode));
}

#[test]
fn status_200_with_an_error_payload_is_a_decode_error() {
    assert_eq!(conclude(answered(200, "{\"message\":\"odd\"}")), Err(ListError::Decode));
    let exchange: Exchange<Value> = Exchange::Answered {
        status: 200,
        body: Decoded::ErrorPayload(ErrorPayload { message: "odd".to_string() }),
    };
    assert_eq!(conclude(exchange), Err(ListError::Decode));
}

#[test]
fn status_404_reports_the_message_verbatim() {
    assert_eq!(
        conclude(answered(404, "{\"message\":\"file not found\"}")),
        Err(ListError::ServerReported("file not found".to_string()))
    );
}

#[test]
fn status_404_with_a_malformed_body_is_a_decode_error() {
    assert_eq!(conclude(answered(404, "not-json")), Err(ListError::Decode));
    assert_eq!(conclude(answered(404, "{\"error\":\"x\"}")), Err(ListError::Decode));
}

#[test]
fn status_201_takes_the_error_branch() {
    assert_eq!(expected_body(201), BodyShape::ErrorPayload);
    assert_eq!(
        conclude(answered(201, "{\"message\":\"created\"}")),
        Err(ListError::ServerReported("created".to_string()))
    );
    assert_eq!(conclude(answered(201, "[{\"fileId\":\"abc\"}]")), Err(ListError::Decode));
    let exchange: Exchange<Value> =
        Exchange::Answered { status: 201, body: Decoded::Records(vec![Value::Null]) };
    assert_eq!(conclude(exchange), Err(ListError::Decode));
}

#[test]
fn only_status_200_calls_for_records() {
    for status in 0u16..=u16::MAX {
        let expected = if status == 200 { BodyShape::Records } else { BodyShape::ErrorPayload };
        assert_eq!(expected_body(status), expected);
    }
}

#[test]
fn no_response_is_a_transport_error() {
    let exchange: Exchange<Value> = Exchange::Unreachable;
    assert_eq!(conclude(exchange), Err(ListError::Transport));
}

#[test]
fn the_same_answer_gives_the_same_result() {
    let first = conclude(answered(200, "[{\"fileId\":\"abc\"},{\"fileId\":\"def\"}]"));
    let second = conclude(answered(200, "[{\"fileId\":\"abc\"},{\"fileId\":\"def\"}]"));
    assert_eq!(first, second);
    let first = conclude(answered(500, "{\"message\":\"down\"}"));
    let second = conclude(answered(500, "{\"message\":\"down\"}"));
    assert_eq!(first, second);
}
