use chat_hub::model::ServerMessage;
use chat_hub::server::{ChatServer, Connect, Delivery, Disconnect, JoinRoom, LeaveRoom, RoomMessage};

fn s(x: &str) -> String {
    x.to_string()
}

fn connect(hub: &mut ChatServer<u32>, session: &str, user: &str, addr: u32) -> Vec<Delivery> {
    hub.handle_connect(Connect { session_id: s(session), user_id: s(user), addr })
}

fn join(hub: &mut ChatServer<u32>, session: &str, room: &str) -> Vec<Delivery> {
    hub.handle_join_room(JoinRoom { session_id: s(session), room_id: s(room) })
}

fn leave(hub: &mut ChatServer<u32>, session: &str, room: &str) -> Vec<Delivery> {
    hub.handle_leave_room(LeaveRoom { session_id: s(session), room_id: s(room) })
}

fn say(hub: &ChatServer<u32>, session: &str, room: &str, text: &str) -> Vec<Delivery> {
    hub.handle_room_message(RoomMessage {
        room_id: s(room),
        sender_session_id: s(session),
        message: ServerMessage::Message {
            room_id: s(room),
            sender_id: s("someone"),
            sender_username: None,
            content: s(text),
            timestamp: s("t"),
        },
    })
}

fn sorted(v: &[String]) -> Vec<String> {
    let mut v = v.to_vec();
    v.sort();
    v
}

#[test]
fn connect_confirms_to_the_new_session_only() {
    let mut hub: ChatServer<u32> = ChatServer::new();
    let out = connect(&mut hub, "A", "u1", 7);
    assert_eq!(out.len(), 1);
    assert_eq!(out[0].recipients, vec![s("A")]);
    assert_eq!(out[0].text, r#"{"type":"connected","user_id":"u1","session_id":"A"}"#);
    assert!(hub.is_connected(&s("A")));
    assert_eq!(hub.addr_of(&s("A")), Some(&7));
    assert_eq!(hub.session_of_user(&s("u1")), Some(&s("A")));
}

#[test]
fn second_connection_of_a_user_overwrites_the_user_index() {
    let mut hub: ChatServer<u32> = ChatServer::new();
    connect(&mut hub, "A", "u1", 1);
    connect(&mut hub, "B", "u1", 2);
    assert_eq!(hub.session_of_user(&s("u1")), Some(&s("B")));
    assert!(hub.is_connected(&s("A")));
    assert!(hub.is_connected(&s("B")));
}

#[test]
fn session_table_tracks_connects_and_disconnects() {
    let mut hub: ChatServer<u32> = ChatServer::new();
    connect(&mut hub, "A", "u1", 1);
    connect(&mut hub, "B", "u2", 2);
    connect(&mut hub, "C", "u3", 3);
    hub.handle_disconnect(Disconnect { session_id: s("B") });
    hub.handle_disconnect(Disconnect { session_id: s("B") });
    connect(&mut hub, "A", "u1", 4);
    assert!(hub.is_connected(&s("A")));
    assert!(!hub.is_connected(&s("B")));
    assert!(hub.is_connected(&s("C")));
    assert_eq!(hub.addr_of(&s("A")), Some(&4));
    assert_eq!(hub.addr_of(&s("B")), None);
    assert_eq!(hub.session_of_user(&s("u2")), None);
}

#[test]
fn disconnect_of_unknown_session_does_nothing() {
    let mut hub: ChatServer<u32> = ChatServer::new();
    connect(&mut hub, "A", "u1", 1);
    join(&mut hub, "A", "r");
    let out = hub.handle_disconnect(Disconnect { session_id: s("Z") });
    assert!(out.is_empty());
    assert!(hub.is_member(&s("r"), &s("A")));
}

#[test]
fn two_users_join_and_chat_in_lobby() {
    let mut hub: ChatServer<u32> = ChatServer::new();
    connect(&mut hub, "A", "u1", 1);
    connect(&mut hub, "B", "u2", 2);
    let first = join(&mut hub, "A", "lobby");
    assert!(first[0].recipients.is_empty());
    assert_eq!(first[1].recipients, vec![s("A")]);
    assert_eq!(first[1].text, r#"{"type":"joined","room_id":"lobby"}"#);
    let second = join(&mut hub, "B", "lobby");
    assert_eq!(second[0].recipients, vec![s("A")]);
    assert_eq!(second[0].text, r#"{"type":"user_joined","room_id":"lobby","user_id":"u2"}"#);
    assert_eq!(second[1].recipients, vec![s("B")]);
    let chat = hub.handle_room_message(RoomMessage {
        room_id: s("lobby"),
        sender_session_id: s("A"),
        message: ServerMessage::Message {
            room_id: s("lobby"),
            sender_id: s("u1"),
            sender_username: None,
            content: s("hi"),
            timestamp: s("2024-01-01T00:00:00+00:00"),
        },
    });
    assert_eq!(chat.len(), 1);
    assert_eq!(sorted(&chat[0].recipients), vec![s("A"), s("B")]);
    let v: serde_json::Value = serde_json::from_str(&chat[0].text).unwrap();
    assert_eq!(v["type"], "message");
    assert_eq!(v["room_id"], "lobby");
    assert_eq!(v["sender_id"], "u1");
    assert_eq!(v["content"], "hi");
    assert!(v["sender_username"].is_null());
}

#[test]
fn joined_session_receives_room_broadcast() {
    let mut hub: ChatServer<u32> = ChatServer::new();
    connect(&mut hub, "A", "u1", 1);
    join(&mut hub, "A", "r");
    let out = say(&hub, "A", "r", "x");
    assert_eq!(out[0].recipients, vec![s("A")]);
}

#[test]
fn left_session_is_not_reached() {
    let mut hub: ChatServer<u32> = ChatServer::new();
    connect(&mut hub, "A", "u1", 1);
    connect(&mut hub, "B", "u2", 2);
    join(&mut hub, "A", "r");
    join(&mut hub, "B", "r");
    let out = leave(&mut hub, "A", "r");
    assert_eq!(out[0].recipients, vec![s("B")]);
    assert_eq!(out[0].text, r#"{"type":"user_left","room_id":"r","user_id":"u1"}"#);
    assert_eq!(out[1].recipients, vec![s("A")]);
    assert_eq!(out[1].text, r#"{"type":"left","room_id":"r"}"#);
    let chat = say(&hub, "B", "r", "x");
    assert_eq!(chat[0].recipients, vec![s("B")]);
}

#[test]
fn leaving_twice_leaves_membership_as_after_once() {
    let mut hub: ChatServer<u32> = ChatServer::new();
    connect(&mut hub, "A", "u1", 1);
    connect(&mut hub, "B", "u2", 2);
    join(&mut hub, "A", "r");
    join(&mut hub, "B", "r");
    leave(&mut hub, "A", "r");
    assert!(!hub.is_member(&s("r"), &s("A")));
    assert!(hub.is_member(&s("r"), &s("B")));
    let again = leave(&mut hub, "A", "r");
    assert!(again[0].recipients.is_empty());
    assert_eq!(again[1].recipients, vec![s("A")]);
    assert_eq!(again[1].text, r#"{"type":"left","room_id":"r"}"#);
    assert!(!hub.is_member(&s("r"), &s("A")));
    assert!(hub.is_member(&s("r"), &s("B")));
}

#[test]
fn leaving_a_room_never_joined_announces_nothing() {
    let mut hub: ChatServer<u32> = ChatServer::new();
    connect(&mut hub, "A", "u1", 1);
    connect(&mut hub, "B", "u2", 2);
    join(&mut hub, "B", "r");
    let out = leave(&mut hub, "A", "r");
    assert!(out[0].recipients.is_empty());
    assert_eq!(out[1].recipients, vec![s("A")]);
    assert!(hub.is_member(&s("r"), &s("B")));
}

#[test]
fn left_session_stays_unreached_until_it_rejoins() {
    let mut hub: ChatServer<u32> = ChatServer::new();
    connect(&mut hub, "A", "u1", 1);
    connect(&mut hub, "B", "u2", 2);
    join(&mut hub, "A", "r");
    join(&mut hub, "B", "r");
    leave(&mut hub, "A", "r");
    join(&mut hub, "A", "other");
    connect(&mut hub, "C", "u3", 3);
    join(&mut hub, "C", "r");
    leave(&mut hub, "B", "other");
    let chat = say(&hub, "C", "r", "x");
    assert_eq!(sorted(&chat[0].recipients), vec![s("B"), s("C")]);
    join(&mut hub, "A", "r");
    let chat = say(&hub, "C", "r", "y");
    assert_eq!(sorted(&chat[0].recipients), vec![s("A"), s("B"), s("C")]);
}

#[test]
fn rejoining_is_idempotent() {
    let mut hub: ChatServer<u32> = ChatServer::new();
    connect(&mut hub, "A", "u1", 1);
    connect(&mut hub, "B", "u2", 2);
    join(&mut hub, "A", "r");
    join(&mut hub, "B", "r");
    let again = join(&mut hub, "A", "r");
    assert_eq!(again[0].recipients, vec![s("B")]);
    let chat = say(&hub, "A", "r", "x");
    assert_eq!(sorted(&chat[0].recipients), vec![s("A"), s("B")]);
}

#[test]
fn disconnect_notifies_each_room_once_and_not_the_leaver() {
    let mut hub: ChatServer<u32> = ChatServer::new();
    connect(&mut hub, "S", "us", 1);
    connect(&mut hub, "X", "ux", 2);
    connect(&mut hub, "Y", "uy", 3);
    join(&mut hub, "S", "r1");
    join(&mut hub, "S", "r2");
    join(&mut hub, "X", "r1");
    join(&mut hub, "X", "r2");
    join(&mut hub, "Y", "r2");
    let out = hub.handle_disconnect(Disconnect { session_id: s("S") });
    assert_eq!(out.len(), 2);
    let mut seen = Vec::new();
    for d in &out {
        assert!(!d.recipients.contains(&s("S")));
        let v: serde_json::Value = serde_json::from_str(&d.text).unwrap();
        assert_eq!(v["type"], "user_left");
        assert_eq!(v["user_id"], "us");
        let room = v["room_id"].as_str().unwrap().to_string();
        if room == "r1" {
            assert_eq!(sorted(&d.recipients), vec![s("X")]);
        } else {
            assert_eq!(room, "r2");
            assert_eq!(sorted(&d.recipients), vec![s("X"), s("Y")]);
        }
        seen.push(room);
    }
    seen.sort();
    assert_eq!(seen, vec![s("r1"), s("r2")]);
    assert!(!hub.is_connected(&s("S")));
    assert!(!hub.is_member(&s("r1"), &s("S")));
    assert!(!hub.is_member(&s("r2"), &s("S")));
}

#[test]
fn join_of_unregistered_session_uses_empty_user() {
    let mut hub: ChatServer<u32> = ChatServer::new();
    connect(&mut hub, "A", "u1", 1);
    join(&mut hub, "A", "r");
    let out = join(&mut hub, "ghost", "r");
    assert_eq!(out[0].recipients, vec![s("A")]);
    assert_eq!(out[0].text, r#"{"type":"user_joined","room_id":"r","user_id":""}"#);
    assert!(out[1].recipients.is_empty());
    let chat = say(&hub, "A", "r", "x");
    assert_eq!(chat[0].recipients, vec![s("A")]);
}

#[test]
fn broadcast_to_unknown_room_reaches_nobody() {
    let mut hub: ChatServer<u32> = ChatServer::new();
    connect(&mut hub, "A", "u1", 1);
    let out = say(&hub, "A", "nowhere", "x");
    assert_eq!(out.len(), 1);
    assert!(out[0].recipients.is_empty());
}
