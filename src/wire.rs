//! The text form of server events: one compact JSON object per event, whose
//! `type` field names the variant in snake case, followed by the variant's
//! fields in declaration order.

use vstd::prelude::*;
use crate::model::{ServerEvent, ServerMessage};
use crate::text::hex_char;

verus! {

/// How one character is written inside a JSON string literal.
pub open spec fn json_escape(c: char) -> Seq<char> {
    if c == '"' {
        seq!['\\', '"']
    } else if c == '\\' {
        seq!['\\', '\\']
    } else if c == '\u{8}' {
        seq!['\\', 'b']
    } else if c == '\t' {
        seq!['\\', 't']
    } else if c == '\n' {
        seq!['\\', 'n']
    } else if c == '\u{c}' {
        seq!['\\', 'f']
    } else if c == '\r' {
        seq!['\\', 'r']
    } else if (c as u32) < 0x20 {
        seq!['\\', 'u', '0', '0', hex_char((c as u32) as nat / 16), hex_char((c as u32) as nat % 16)]
    } else {
        seq![c]
    }
}

/// The characters of `s`, each escaped.
pub open spec fn json_escaped(s: Seq<char>) -> Seq<char>
    decreases s.len(),
{
    if s.len() == 0 {
        Seq::empty()
    } else {
        json_escaped(s.drop_last()) + json_escape(s.last())
    }
}

/// `s` as a JSON string literal.
pub open spec fn json_quoted(s: Seq<char>) -> Seq<char> {
    seq!['"'] + json_escaped(s) + seq!['"']
}

/// Relies on `serde_json::to_string` on a `str`: the string literal that
/// serde_json's `format_escaped_str` writes (quote, reverse solidus and the
/// control characters escaped, everything else verbatim). Serialising a `str`
/// cannot fail.
#[verifier::external_body]
fn quoted(s: &str) -> (r: String)
    ensures
        r@ == json_quoted(s@),
{
    serde_json::to_string(s).unwrap_or_default()
}

/// Appends `v` as a JSON string literal.
fn push_quoted(s: &mut String, v: &str)
    ensures
        final(s)@ == old(s)@ + json_quoted(v@),
{
    let q = quoted(v);
    s.append(q.as_str());
}

/// The JSON text of a server event.
pub open spec fn server_json(e: ServerEvent) -> Seq<char> {
    match e {
        ServerEvent::Connected { user_id, session_id } => "{\"type\":\"connected\",\"user_id\":"@
            + json_quoted(user_id) + ",\"session_id\":"@ + json_quoted(session_id) + "}"@,
        ServerEvent::Joined { room_id } => "{\"type\":\"joined\",\"room_id\":"@ + json_quoted(
            room_id,
        ) + "}"@,
        ServerEvent::Left { room_id } => "{\"type\":\"left\",\"room_id\":"@ + json_quoted(room_id)
            + "}"@,
        ServerEvent::Message { room_id, sender_id, sender_username, content, timestamp } =>
            "{\"type\":\"message\",\"room_id\":"@ + json_quoted(room_id) + ",\"sender_id\":"@
            + json_quoted(sender_id) + ",\"sender_username\":"@ + match sender_username {
            Some(name) => json_quoted(name),
            None => "null"@,
        } + ",\"content\":"@ + json_quoted(content) + ",\"timestamp\":"@ + json_quoted(timestamp)
            + "}"@,
        ServerEvent::UserTyping { room_id, user_id } => "{\"type\":\"user_typing\",\"room_id\":"@
            + json_quoted(room_id) + ",\"user_id\":"@ + json_quoted(user_id) + "}"@,
        ServerEvent::UserStopTyping { room_id, user_id } =>
            "{\"type\":\"user_stop_typing\",\"room_id\":"@ + json_quoted(room_id)
            + ",\"user_id\":"@ + json_quoted(user_id) + "}"@,
        ServerEvent::UserJoined { room_id, user_id } => "{\"type\":\"user_joined\",\"room_id\":"@
            + json_quoted(room_id) + ",\"user_id\":"@ + json_quoted(user_id) + "}"@,
        ServerEvent::UserLeft { room_id, user_id } => "{\"type\":\"user_left\",\"room_id\":"@
            + json_quoted(room_id) + ",\"user_id\":"@ + json_quoted(user_id) + "}"@,
        ServerEvent::Error { message } => "{\"type\":\"error\",\"message\":"@ + json_quoted(message)
            + "}"@,
        ServerEvent::Pong => "{\"type\":\"pong\"}"@,
    }
}

impl ServerMessage {
    /// The event as the JSON text that is written to the client's socket.
    pub fn to_json(&self) -> (r: String)
        ensures
            r@ == server_json(self@),
    {
        let mut s = String::new();
        match self {
            ServerMessage::Connected { user_id, session_id } => {
                s.append("{\"type\":\"connected\",\"user_id\":");
                push_quoted(&mut s, user_id.as_str());
                s.append(",\"session_id\":");
                push_quoted(&mut s, session_id.as_str());
                s.append("}");
            },
            ServerMessage::Joined { room_id } => {
                s.append("{\"type\":\"joined\",\"room_id\":");
                push_quoted(&mut s, room_id.as_str());
                s.append("}");
            },
            ServerMessage::Left { room_id } => {
                s.append("{\"type\":\"left\",\"room_id\":");
                push_quoted(&mut s, room_id.as_str());
                s.append("}");
            },
            ServerMessage::Message { room_id, sender_id, sender_username, content, timestamp } => {
                s.append("{\"type\":\"message\",\"room_id\":");
                push_quoted(&mut s, room_id.as_str());
                s.append(",\"sender_id\":");
                push_quoted(&mut s, sender_id.as_str());
                s.append(",\"sender_username\":");
                match sender_username {
                    Some(name) => push_quoted(&mut s, name.as_str()),
                    None => s.append("null"),
                }
                s.append(",\"content\":");
                push_quoted(&mut s, content.as_str());
                s.append(",\"timestamp\":");
                push_quoted(&mut s, timestamp.as_str());
                s.append("}");
            },
            ServerMessage::UserTyping { room_id, user_id } => {
                s.append("{\"type\":\"user_typing\",\"room_id\":");
                push_quoted(&mut s, room_id.as_str());
                s.append(",\"user_id\":");
                push_quoted(&mut s, user_id.as_str());
                s.append("}");
            },
            ServerMessage::UserStopTyping { room_id, user_id } => {
                s.append("{\"type\":\"user_stop_typing\",\"room_id\":");
                push_quoted(&mut s, room_id.as_str());
                s.append(",\"user_id\":");
                push_quoted(&mut s, user_id.as_str());
                s.append("}");
            },
            ServerMessage::UserJoined { room_id, user_id } => {
                s.append("{\"type\":\"user_joined\",\"room_id\":");
                push_quoted(&mut s, room_id.as_str());
                s.append(",\"user_id\":");
                push_quoted(&mut s, user_id.as_str());
                s.append("}");
            },
            ServerMessage::UserLeft { room_id, user_id } => {
                s.append("{\"type\":\"user_left\",\"room_id\":");
                push_quoted(&mut s, room_id.as_str());
                s.append(",\"user_id\":");
                push_quoted(&mut s, user_id.as_str());
                s.append("}");
            },
            ServerMessage::Error { message } => {
                s.append("{\"type\":\"error\",\"message\":");
                push_quoted(&mut s, message.as_str());
                s.append("}");
            },
            ServerMessage::Pong => {
                s.append("{\"type\":\"pong\"}");
            },
        }
        s
    }
}

} // verus!
