use zingo_netutils::{interpret_send_response, SendTransactionError};

#[test]
fn accepted_reply_strips_quotes() {
    let id = interpret_send_response(0, "\"abcd\"".to_string()).unwrap();
    assert_eq!(id, "abcd");
}

#[test]
fn accepted_reply_without_quotes_is_kept() {
    let id = interpret_send_response(0, "abcd".to_string()).unwrap();
    assert_eq!(id, "abcd");
}

#[test]
fn accepted_reply_with_one_quote_is_kept() {
    let id = interpret_send_response(0, "\"abcd".to_string()).unwrap();
    assert_eq!(id, "\"abcd");
}

#[test]
fn accepted_reply_of_empty_quotes() {
    let id = interpret_send_response(0, "\"\"".to_string()).unwrap();
    assert_eq!(id, "");
}

#[test]
fn accepted_reply_strips_only_one_pair() {
    let id = interpret_send_response(0, "\"\"x\"\"".to_string()).unwrap();
    assert_eq!(id, "\"x\"");
}

#[test]
fn rejected_reply_carries_the_reply() {
    match interpret_send_response(-26, "bad-txns-inputs-spent".to_string()) {
        Err(SendTransactionError::SendRejected(reason)) => {
            assert_eq!(
                reason,
                "SendResponse { error_code: -26, error_message: \"bad-txns-inputs-spent\" }"
            );
        }
        other => panic!("expected a rejection, got {:?}", other),
    }
}

#[test]
fn rejected_reply_message_text() {
    let e = interpret_send_response(1, "\"quoted\"".to_string()).unwrap_err();
    assert_eq!(
        e.to_string(),
        "send rejected: SendResponse { error_code: 1, error_message: \"\\\"quoted\\\"\" }"
    );
}

#[test]
fn accepted_reply_of_a_lone_quote_is_kept() {
    let id = interpret_send_response(0, "\"".to_string()).unwrap();
    assert_eq!(id, "\"");
}
