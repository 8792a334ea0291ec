use chat_hub::model::{ClientMessage, ServerMessage};
use chat_hub::server::ChatServer;
use chat_hub::session::{
    connection_user, Frame, HubRequest, SessionAction, WsSession, CLIENT_TIMEOUT_NANOS, HEARTBEAT_INTERVAL_NANOS,
};

fn s(x: &str) -> String {
    x.to_string()
}

fn fixed(session: &str, user: &str) -> WsSession {
    WsSession { session_id: s(session), user_id: s(user), last_heartbeat: 0, stopped: false }
}

#[test]
fn new_session_has_fresh_uuid_id() {
    let a = WsSession::new(s("u1"), 42);
    let b = WsSession::new(s("u1"), 42);
    assert_eq!(a.session_id.len(), 36);
    assert_eq!(a.session_id.chars().nth(8), Some('-'));
    assert_eq!(a.session_id.chars().nth(23), Some('-'));
    assert_ne!(a.session_id, b.session_id);
    assert_eq!(a.user_id, "u1");
    assert_eq!(a.last_heartbeat, 42);
    assert!(!a.stopped);
}

#[test]
fn timeout_is_twice_the_tick_interval() {
    assert_eq!(CLIENT_TIMEOUT_NANOS, 2 * HEARTBEAT_INTERVAL_NANOS);
    assert_eq!(HEARTBEAT_INTERVAL_NANOS, 5_000_000_000);
}

#[test]
fn heartbeat_probes_while_client_is_alive() {
    let session = fixed("A", "u1");
    assert!(matches!(session.heartbeat(HEARTBEAT_INTERVAL_NANOS), SessionAction::Ping));
    assert!(matches!(session.heartbeat(CLIENT_TIMEOUT_NANOS), SessionAction::Ping));
}

#[test]
fn silent_session_times_out_and_disconnects_once() {
    let mut hub: ChatServer<u8> = ChatServer::new();
    let mut session = WsSession::new(s("u1"), 1_000);
    hub.handle_connect(session.connect_request(0u8));
    assert!(hub.is_connected(&session.session_id));
    assert!(matches!(session.heartbeat(1_000 + CLIENT_TIMEOUT_NANOS + 1), SessionAction::Stop));
    let first = session.on_stopping();
    let second = session.on_stopping();
    let d = first.expect("the first stop reports the end");
    assert_eq!(d.session_id, session.session_id);
    assert!(second.is_none());
    hub.handle_disconnect(d);
    assert!(!hub.is_connected(&session.session_id));
}

#[test]
fn traffic_refreshes_liveness() {
    let mut session = fixed("A", "u1");
    let later = CLIENT_TIMEOUT_NANOS + 5;
    assert!(matches!(session.handle_frame(Frame::Pong, later), SessionAction::Ignore));
    assert_eq!(session.last_heartbeat, later);
    assert!(matches!(session.heartbeat(later + 1), SessionAction::Ping));
    match session.handle_frame(Frame::Ping(vec![1, 2]), later + 10) {
        SessionAction::Pong(p) => assert_eq!(p, vec![1, 2]),
        _ => panic!("a ping is answered with a pong"),
    }
    assert_eq!(session.last_heartbeat, later + 10);
}

#[test]
fn binary_close_and_errors() {
    let mut session = fixed("A", "u1");
    assert!(matches!(session.handle_frame(Frame::Binary, 99), SessionAction::Ignore));
    assert_eq!(session.last_heartbeat, 0);
    assert!(matches!(session.handle_frame(Frame::Close, 99), SessionAction::Close));
    assert!(matches!(session.handle_frame(Frame::Other, 99), SessionAction::Stop));
    assert_eq!(session.last_heartbeat, 0);
}

#[test]
fn unreadable_frame_yields_one_error_and_keeps_session() {
    let mut hub: ChatServer<u8> = ChatServer::new();
    let mut session = fixed("A", "u1");
    hub.handle_connect(session.connect_request(1u8));
    let reason = serde_json::from_str::<serde_json::Value>("not json").unwrap_err().to_string();
    let action = session.handle_frame(Frame::Text(Err(reason.clone())), 7);
    match action {
        SessionAction::Reply(text) => {
            let v: serde_json::Value = serde_json::from_str(&text).unwrap();
            assert_eq!(v["type"], "error");
            assert_eq!(v["message"], format!("Invalid message format: {}", reason));
        }
        _ => panic!("an unreadable frame is answered with an error"),
    }
    assert!(!session.stopped);
    assert_eq!(session.last_heartbeat, 7);
    assert!(hub.is_connected(&session.session_id));
}

#[test]
fn ping_message_is_answered_locally() {
    let session = fixed("A", "u1");
    match session.handle_message(ClientMessage::Ping, s("")) {
        SessionAction::Reply(text) => assert_eq!(text, r#"{"type":"pong"}"#),
        _ => panic!("ping is answered with pong"),
    }
}

#[test]
fn join_and_leave_are_forwarded_with_session_id() {
    let session = fixed("A", "u1");
    match session.handle_message(ClientMessage::Join { room_id: s("r") }, s("")) {
        SessionAction::Hub(HubRequest::Join(j)) => {
            assert_eq!(j.session_id, "A");
            assert_eq!(j.room_id, "r");
        }
        _ => panic!("join goes to the hub"),
    }
    match session.handle_message(ClientMessage::Leave { room_id: s("r") }, s("")) {
        SessionAction::Hub(HubRequest::Leave(l)) => {
            assert_eq!(l.session_id, "A");
            assert_eq!(l.room_id, "r");
        }
        _ => panic!("leave goes to the hub"),
    }
}

#[test]
fn chat_message_is_stamped_with_user_and_time() {
    let session = fixed("A", "u1");
    let msg = ClientMessage::Message { room_id: s("lobby"), content: s("hi") };
    match session.handle_message(msg, s("2024-05-01T10:00:00+00:00")) {
        SessionAction::Hub(HubRequest::Broadcast(rm)) => {
            assert_eq!(rm.room_id, "lobby");
            assert_eq!(rm.sender_session_id, "A");
            assert_eq!(
                rm.message,
                ServerMessage::Message {
                    room_id: s("lobby"),
                    sender_id: s("u1"),
                    sender_username: None,
                    content: s("hi"),
                    timestamp: s("2024-05-01T10:00:00+00:00"),
                }
            );
        }
        _ => panic!("a chat message goes to the hub"),
    }
}

#[test]
fn typing_indicators_carry_the_user() {
    let session = fixed("A", "u1");
    match session.handle_message(ClientMessage::Typing { room_id: s("r") }, s("")) {
        SessionAction::Hub(HubRequest::Broadcast(rm)) => {
            assert_eq!(rm.message, ServerMessage::UserTyping { room_id: s("r"), user_id: s("u1") })
        }
        _ => panic!("typing goes to the hub"),
    }
    match session.handle_message(ClientMessage::StopTyping { room_id: s("r") }, s("")) {
        SessionAction::Hub(HubRequest::Broadcast(rm)) => {
            assert_eq!(rm.message, ServerMessage::UserStopTyping { room_id: s("r"), user_id: s("u1") })
        }
        _ => panic!("stop typing goes to the hub"),
    }
}

#[test]
fn text_frame_with_message_gets_a_timestamp() {
    let mut session = fixed("A", "u1");
    let frame = Frame::Text(Ok(ClientMessage::Message { room_id: s("r"), content: s("yo") }));
    match session.handle_frame(frame, 3) {
        SessionAction::Hub(HubRequest::Broadcast(rm)) => match rm.message {
            ServerMessage::Message { timestamp, sender_id, .. } => {
                assert_eq!(sender_id, "u1");
                assert!(timestamp.len() >= 20);
                assert!(timestamp.contains('T'));
            }
            _ => panic!("a chat message event"),
        },
        _ => panic!("a chat message goes to the hub"),
    }
    assert_eq!(session.last_heartbeat, 3);
}

#[test]
fn stopping_twice_reports_once() {
    let mut session = fixed("A", "u1");
    assert!(session.on_stopping().is_some());
    assert!(session.on_stopping().is_none());
    assert!(session.stopped);
}

#[test]
fn connection_user_falls_back_to_anonymous() {
    assert_eq!(connection_user(Some(s("u7"))), "u7");
    assert_eq!(connection_user(None), "anonymous");
}

#[test]
fn every_stop_path_after_the_first_reports_nothing() {
    let mut session = WsSession::new(s("u1"), 0);
    assert!(matches!(session.heartbeat(CLIENT_TIMEOUT_NANOS + 1), SessionAction::Stop));
    assert!(session.on_stopping().is_some());
    assert!(matches!(session.handle_frame(Frame::Close, 1), SessionAction::Close));
    assert!(session.on_stopping().is_none());
    assert!(matches!(session.handle_frame(Frame::Other, 2), SessionAction::Stop));
    assert!(session.on_stopping().is_none());
}
