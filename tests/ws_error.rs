use remoteplay_inviter::text::{indent_lines, push_decimal};
use remoteplay_inviter::ws_error::{
    handle_ws_error, header_text, report_rejection, ConnectionErrorMessage, ConnectionErrorType,
    Rejection, WsError, WsErrorStep,
};

const OUTDATED: &str =
    r#"{"message":null,"error":{"type":"Outdated","required":"2.0","download":"http://x"}}"#;

#[test]
fn outdated_header_is_passed_on_for_decoding() {
    let r = handle_ws_error(WsError::Http { status: 400, x_error: Some(OUTDATED.as_bytes().to_vec()) });
    match r {
        Ok(WsErrorStep::Decode { text }) => assert_eq!(text, OUTDATED),
        other => panic!("unexpected {:?}", other),
    }
}

#[test]
fn outdated_payload_gives_update_notice() {
    let msg = ConnectionErrorMessage {
        message: None,
        error: ConnectionErrorType::Outdated { required: "2.0".to_string(), download: "http://x".to_string() },
    };
    match report_rejection("1.0.0", Ok(msg)) {
        Rejection::UpdateRequired { notice, download } => {
            assert!(notice.contains("2.0"));
            assert!(notice.contains("http://x"));
            assert_eq!(notice, "\n\u{2191} Update required: 1.0.0 to 2.0\n  Download: http://x\n\n");
            assert_eq!(download, "http://x");
        }
        other => panic!("unexpected {:?}", other),
    }
}

#[test]
fn missing_header_gives_generic_error_line() {
    match handle_ws_error(WsError::Http { status: 400, x_error: None }) {
        Ok(WsErrorStep::Unreadable { log }) => {
            assert_eq!(log, "Connection refused without error message")
        }
        other => panic!("unexpected {:?}", other),
    }
}

#[test]
fn non_text_header_gives_generic_error_line() {
    match handle_ws_error(WsError::Http { status: 400, x_error: Some(vec![b'{', 0x80, b'}']) }) {
        Ok(WsErrorStep::Unreadable { log }) => {
            assert_eq!(log, "Connection refused with invalid error message")
        }
        other => panic!("unexpected {:?}", other),
    }
}

#[test]
fn non_json_header_gives_generic_error_line() {
    let text = match handle_ws_error(WsError::Http { status: 400, x_error: Some(b"not json".to_vec()) }) {
        Ok(WsErrorStep::Decode { text }) => text,
        other => panic!("unexpected {:?}", other),
    };
    let err = serde_json::from_str::<serde_json::Value>(&text).unwrap_err().to_string();
    match report_rejection("1.0.0", Err(err.clone())) {
        Rejection::Unreadable { log } => assert_eq!(log, err),
        other => panic!("unexpected {:?}", other),
    }
}

#[test]
fn other_error_with_message_is_indented() {
    let msg = ConnectionErrorMessage {
        message: Some("Server full\ntry later".to_string()),
        error: ConnectionErrorType::Other,
    };
    match report_rejection("1.0.0", Ok(msg)) {
        Rejection::Notice { notice } => {
            assert_eq!(notice, "\n\u{2613} Connection error:\n  Server full\n  try later\n\n")
        }
        other => panic!("unexpected {:?}", other),
    }
}

#[test]
fn other_error_without_message_adds_nothing() {
    let msg = ConnectionErrorMessage { message: None, error: ConnectionErrorType::Other };
    assert!(matches!(report_rejection("1.0.0", Ok(msg)), Rejection::Silent));
}

#[test]
fn other_http_status_is_an_error() {
    match handle_ws_error(WsError::Http { status: 503, x_error: None }) {
        Err(e) => assert_eq!(e, "HTTP error: 503 Service Unavailable"),
        other => panic!("unexpected {:?}", other),
    }
}

#[test]
fn unregistered_http_status_has_no_reason() {
    match handle_ws_error(WsError::Http { status: 599, x_error: None }) {
        Err(e) => assert_eq!(e, "HTTP error: 599 <unknown status code>"),
        other => panic!("unexpected {:?}", other),
    }
}

#[test]
fn transport_failure_keeps_its_cause() {
    match handle_ws_error(WsError::Transport { cause: "dns failure".to_string() }) {
        Err(e) => assert_eq!(e, "Failed to connect to the server: dns failure"),
        other => panic!("unexpected {:?}", other),
    }
}

#[test]
fn header_text_accepts_tab_and_rejects_control_bytes() {
    assert_eq!(header_text(b"a\tb".to_vec()), Some("a\tb".to_string()));
    assert_eq!(header_text(vec![b'a', 10]), None);
    assert_eq!(header_text(vec![127]), None);
    assert_eq!(header_text(Vec::new()), Some(String::new()));
}

#[test]
fn indent_and_decimal() {
    assert_eq!(indent_lines("a\nb"), "  a\n  b");
    assert_eq!(indent_lines(""), "");
    assert_eq!(indent_lines("a\r\nb\n"), "  a\n  b");
    assert_eq!(indent_lines("a\r"), "  a\r");
    assert_eq!(indent_lines("\n"), "  ");
    let mut s = String::from("n=");
    push_decimal(&mut s, 0);
    push_decimal(&mut s, 4294967295);
    assert_eq!(s, "n=04294967295");
}
