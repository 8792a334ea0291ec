//! The vocabulary of the chat protocol: what clients send, what the server
//! sends back, and the request shapes of the chat endpoints.

use vstd::prelude::*;

verus! {

/// Kind of a stored chat message.
#[derive(Debug, Clone, Copy, PartialEq, Eq, Structural)]
pub enum MessageType {
    Text,
    Image,
    File,
    System,
}

/// Kind of a chat room.
#[derive(Debug, Clone, Copy, PartialEq, Eq, Structural)]
pub enum RoomType {
    /// One-to-one conversation.
    Direct,
    /// Conversation among a chosen group.
    Group,
    /// Room open to everyone.
    Public,
}

/// An event sent by a client over its socket (tagged by `type` on the wire).
#[derive(Debug, Clone, PartialEq, Eq)]
pub enum ClientMessage {
    /// Join a room.
    Join { room_id: String },
    /// Leave a room.
    Leave { room_id: String },
    /// Send a chat message to a room.
    Message { room_id: String, content: String },
    /// Typing indicator.
    Typing { room_id: String },
    /// End of the typing indicator.
    StopTyping { room_id: String },
    /// Application-level liveness request, answered with `Pong`.
    Ping,
}

/// An event sent by the server to a client (tagged by `type` on the wire).
#[derive(Debug, Clone, PartialEq, Eq)]
pub enum ServerMessage {
    /// The session is registered with the hub.
    Connected { user_id: String, session_id: String },
    /// The session joined a room.
    Joined { room_id: String },
    /// The session left a room.
    Left { room_id: String },
    /// A chat message in a room.
    Message {
        room_id: String,
        sender_id: String,
        sender_username: Option<String>,
        content: String,
        timestamp: String,
    },
    /// A member of the room started typing.
    UserTyping { room_id: String, user_id: String },
    /// A member of the room stopped typing.
    UserStopTyping { room_id: String, user_id: String },
    /// Another user joined the room.
    UserJoined { room_id: String, user_id: String },
    /// A user left the room.
    UserLeft { room_id: String, user_id: String },
    /// The last inbound frame could not be understood.
    Error { message: String },
    /// Answer to a `Ping`.
    Pong,
}

/// Request body for creating a chat room.
#[derive(Debug, Clone)]
pub struct CreateRoomRequest {
    pub name: String,
    pub room_type: RoomType,
    pub participants: Vec<String>,
}

/// Request body for sending a message outside a socket.
#[derive(Debug, Clone)]
pub struct SendMessageRequest {
    pub room_id: String,
    pub content: String,
}

/// Query string of a socket upgrade that carries its credential as `token`.
#[derive(Debug, Clone)]
pub struct TokenQuery {
    pub token: String,
}

/// Mathematical form of a [`ClientMessage`].
pub enum ClientEvent {
    Join { room_id: Seq<char> },
    Leave { room_id: Seq<char> },
    Message { room_id: Seq<char>, content: Seq<char> },
    Typing { room_id: Seq<char> },
    StopTyping { room_id: Seq<char> },
    Ping,
}

/// Mathematical form of a [`ServerMessage`].
pub enum ServerEvent {
    Connected { user_id: Seq<char>, session_id: Seq<char> },
    Joined { room_id: Seq<char> },
    Left { room_id: Seq<char> },
    Message {
        room_id: Seq<char>,
        sender_id: Seq<char>,
        sender_username: Option<Seq<char>>,
        content: Seq<char>,
        timestamp: Seq<char>,
    },
    UserTyping { room_id: Seq<char>, user_id: Seq<char> },
    UserStopTyping { room_id: Seq<char>, user_id: Seq<char> },
    UserJoined { room_id: Seq<char>, user_id: Seq<char> },
    UserLeft { room_id: Seq<char>, user_id: Seq<char> },
    Error { message: Seq<char> },
    Pong,
}

impl View for ClientMessage {
    type V = ClientEvent;

    open spec fn view(&self) -> ClientEvent {
        match self {
            ClientMessage::Join { room_id } => ClientEvent::Join { room_id: room_id@ },
            ClientMessage::Leave { room_id } => ClientEvent::Leave { room_id: room_id@ },
            ClientMessage::Message { room_id, content } => ClientEvent::Message {
                room_id: room_id@,
                content: content@,
            },
            ClientMessage::Typing { room_id } => ClientEvent::Typing { room_id: room_id@ },
            ClientMessage::StopTyping { room_id } => ClientEvent::StopTyping { room_id: room_id@ },
            ClientMessage::Ping => ClientEvent::Ping,
        }
    }
}

impl View for ServerMessage {
    type V = ServerEvent;

    open spec fn view(&self) -> ServerEvent {
        match self {
            ServerMessage::Connected { user_id, session_id } => ServerEvent::Connected {
                user_id: user_id@,
                session_id: session_id@,
            },
            ServerMessage::Joined { room_id } => ServerEvent::Joined { room_id: room_id@ },
            ServerMessage::Left { room_id } => ServerEvent::Left { room_id: room_id@ },
            ServerMessage::Message { room_id, sender_id, sender_username, content, timestamp } =>
                ServerEvent::Message {
                room_id: room_id@,
                sender_id: sender_id@,
                sender_username: match sender_username {
                    Some(name) => Some(name@),
                    None => None,
                },
                content: content@,
                timestamp: timestamp@,
            },
            ServerMessage::UserTyping { room_id, user_id } => ServerEvent::UserTyping {
                room_id: room_id@,
                user_id: user_id@,
            },
            ServerMessage::UserStopTyping { room_id, user_id } => ServerEvent::UserStopTyping {
                room_id: room_id@,
                user_id: user_id@,
            },
            ServerMessage::UserJoined { room_id, user_id } => ServerEvent::UserJoined {
                room_id: room_id@,
                user_id: user_id@,
            },
            ServerMessage::UserLeft { room_id, user_id } => ServerEvent::UserLeft {
                room_id: room_id@,
                user_id: user_id@,
            },
            ServerMessage::Error { message } => ServerEvent::Error { message: message@ },
            ServerMessage::Pong => ServerEvent::Pong,
        }
    }
}

} // verus!
