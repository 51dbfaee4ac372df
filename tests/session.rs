use remoteplay_inviter::session::{Action, Event, Frame, HandlerOutcome, Session};
use remoteplay_inviter::ws_error::{WsError, WsErrorStep};

const OUTDATED: &str =
    r#"{"message":null,"error":{"type":"Outdated","required":"2.0","download":"http://x"}}"#;

fn connected(s: &mut Session) {
    assert!(matches!(s.step(Event::Start), Action::Connect { reconnecting: None }));
    match s.step(Event::Connected) {
        Action::Connected { notice } => assert_eq!(notice, "\u{2713} Connected to the server!"),
        other => panic!("unexpected {:?}", other),
    }
}

#[test]
fn ping_yields_one_pong_and_keeps_reading() {
    let mut s = Session::new(false);
    connected(&mut s);
    match s.step(Event::Received(Frame::Ping(vec![1, 2, 3]))) {
        Action::SendPong { payload } => assert_eq!(payload, vec![1, 2, 3]),
        other => panic!("unexpected {:?}", other),
    }
    assert!(matches!(s.step(Event::PongSent), Action::ReadNext));
    assert!(matches!(s.step(Event::Received(Frame::Pong)), Action::ReadNext));
    assert!(matches!(s.step(Event::Received(Frame::Binary)), Action::ReadNext));
}

#[test]
fn ping_resets_the_delay() {
    let mut s = Session::new(false);
    s.step(Event::Start);
    s.step(Event::ConnectTimedOut);
    s.step(Event::Start);
    s.step(Event::ConnectTimedOut);
    s.step(Event::Start);
    s.step(Event::Connected);
    s.step(Event::ReadTimedOut);
    s.step(Event::Start);
    s.step(Event::Connected);
    s.step(Event::Received(Frame::Ping(Vec::new())));
    s.step(Event::PongSent);
    match s.step(Event::Received(Frame::Close)) {
        Action::Retry { wait_secs, error: None, .. } => assert_eq!(wait_secs, 1),
        other => panic!("unexpected {:?}", other),
    }
}

#[test]
fn close_ends_attempt_without_error() {
    let mut s = Session::new(false);
    connected(&mut s);
    match s.step(Event::Received(Frame::Close)) {
        Action::Retry { rejection: None, error: None, notice, wait_secs } => {
            assert_eq!(wait_secs, 1);
            assert_eq!(notice, "\u{21aa} Connection lost. Reconnecting in 1 seconds...");
        }
        other => panic!("unexpected {:?}", other),
    }
}

#[test]
fn close_resets_delay_only_when_configured() {
    for (reset, expected) in [(false, 4), (true, 1)] {
        let mut s = Session::new(reset);
        s.step(Event::ConnectTimedOut);
        s.step(Event::ConnectTimedOut);
        match s.step(Event::Received(Frame::Close)) {
            Action::Retry { wait_secs, .. } => assert_eq!(wait_secs, expected),
            other => panic!("unexpected {:?}", other),
        }
    }
}

#[test]
fn malformed_text_fails_the_attempt() {
    let mut s = Session::new(false);
    connected(&mut s);
    match s.step(Event::Received(Frame::Text("{oops".to_string()))) {
        Action::Dispatch { text } => assert_eq!(text, "{oops"),
        other => panic!("unexpected {:?}", other),
    }
    match s.step(Event::Handled(HandlerOutcome::Malformed("bad json".to_string()))) {
        Action::Retry { error: Some(e), .. } => assert_eq!(e, "\u{2613} bad json"),
        other => panic!("unexpected {:?}", other),
    }
}

#[test]
fn handled_message_keeps_reading() {
    let mut s = Session::new(false);
    connected(&mut s);
    s.step(Event::Received(Frame::Text("{}".to_string())));
    assert!(matches!(s.step(Event::Handled(HandlerOutcome::Continue)), Action::ReadNext));
    match s.step(Event::Handled(HandlerOutcome::Failed("handler broke".to_string()))) {
        Action::Retry { error: Some(e), .. } => assert_eq!(e, "\u{2613} handler broke"),
        other => panic!("unexpected {:?}", other),
    }
}

#[test]
fn connect_timeout_waits_initial_delay_then_reconnects() {
    let mut s = Session::new(false);
    assert!(matches!(s.step(Event::Start), Action::Connect { reconnecting: None }));
    match s.step(Event::ConnectTimedOut) {
        Action::Retry { rejection: None, error: Some(e), notice, wait_secs } => {
            assert_eq!(e, "\u{2613} Connection timed out to the server");
            assert_eq!(wait_secs, 1);
            assert_eq!(notice, "\u{21aa} Connection lost. Reconnecting in 1 seconds...");
        }
        other => panic!("unexpected {:?}", other),
    }
    match s.step(Event::Start) {
        Action::Connect { reconnecting: Some(n) } => assert_eq!(n, "\u{21aa} Reconnecting to the server..."),
        other => panic!("unexpected {:?}", other),
    }
    match s.step(Event::Connected) {
        Action::Connected { notice } => assert_eq!(notice, "\u{2713} Reconnected!"),
        other => panic!("unexpected {:?}", other),
    }
}

#[test]
fn outdated_rejection_is_shown_and_retried() {
    let mut s = Session::new(false);
    s.step(Event::Start);
    let err = WsError::Http { status: 400, x_error: Some(OUTDATED.as_bytes().to_vec()) };
    match s.step(Event::HandshakeFailed(err)) {
        Action::Retry { rejection: Some(WsErrorStep::Decode { text }), error: None, wait_secs, .. } => {
            assert_eq!(text, OUTDATED);
            assert_eq!(wait_secs, 1);
        }
        other => panic!("unexpected {:?}", other),
    }
    assert!(matches!(s.step(Event::Start), Action::Connect { reconnecting: Some(_) }));
}

#[test]
fn exit_request_stops_everything() {
    let mut s = Session::new(false);
    connected(&mut s);
    s.step(Event::Received(Frame::Text("{}".to_string())));
    assert!(matches!(s.step(Event::Handled(HandlerOutcome::Exit)), Action::Exit));
    assert!(s.exited());
    assert!(matches!(s.step(Event::Start), Action::Exit));
    assert!(matches!(s.step(Event::ConnectTimedOut), Action::Exit));
}

#[test]
fn read_failures_carry_their_cause() {
    let mut s = Session::new(false);
    connected(&mut s);
    match s.step(Event::ReadFailed { cause: "reset".to_string() }) {
        Action::Retry { error: Some(e), .. } => {
            assert_eq!(e, "\u{2613} Failed to receive message from the server: reset")
        }
        other => panic!("unexpected {:?}", other),
    }
    match s.step(Event::PongFailed { cause: "closed".to_string() }) {
        Action::Retry { error: Some(e), wait_secs, .. } => {
            assert_eq!(e, "\u{2613} Failed to send pong message to the server: closed");
            assert_eq!(wait_secs, 2);
        }
        other => panic!("unexpected {:?}", other),
    }
    match s.step(Event::StreamEnded) {
        Action::Retry { error: None, wait_secs, .. } => assert_eq!(wait_secs, 4),
        other => panic!("unexpected {:?}", other),
    }
    match s.step(Event::ReadTimedOut) {
        Action::Retry { error: Some(e), .. } => assert_eq!(e, "\u{2613} Connection timed out"),
        other => panic!("unexpected {:?}", other),
    }
}

#[test]
fn http_rejection_is_an_error_and_retried() {
    let mut s = Session::new(false);
    match s.step(Event::HandshakeFailed(WsError::Http { status: 502, x_error: None })) {
        Action::Retry { rejection: None, error: Some(e), .. } => assert_eq!(e, "\u{2613} HTTP error: 502 Bad Gateway"),
        other => panic!("unexpected {:?}", other),
    }
}

#[test]
fn failed_pong_ends_the_attempt() {
    let mut s = Session::new(false);
    connected(&mut s);
    assert!(matches!(s.step(Event::Received(Frame::Ping(vec![9]))), Action::SendPong { .. }));
    match s.step(Event::PongFailed { cause: "gone".to_string() }) {
        Action::Retry { error: Some(e), wait_secs, .. } => {
            assert_eq!(e, "\u{2613} Failed to send pong message to the server: gone");
            assert_eq!(wait_secs, 1);
        }
        other => panic!("unexpected {:?}", other),
    }
}
