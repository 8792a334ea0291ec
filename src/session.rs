//! The decisions of one connection: what to do with each inbound frame, with
//! each liveness tick, and when the connection stops. The socket, the timer
//! and the hub's mailbox are driven by the caller, which performs the returned
//! action and reports the next event.

use vstd::prelude::*;
use crate::model::{ClientEvent, ClientMessage, ServerEvent, ServerMessage};
use crate::server::{Connect, Disconnect, JoinRoom, LeaveRoom, RoomMessage};
use crate::wire::server_json;

verus! {

/// How often the liveness tick runs, in nanoseconds (5 s).
pub const HEARTBEAT_INTERVAL_NANOS: u64 = 5_000_000_000;

/// How long a client may stay silent before its session stops, in nanoseconds
/// (10 s, twice the tick interval).
pub const CLIENT_TIMEOUT_NANOS: u64 = 10_000_000_000;

/// Relies on `uuid::Uuid::new_v4` and its `Display`: a random id in the
/// hyphenated lower-case form, 36 characters with hyphens at positions 8, 13,
/// 18 and 23.
#[verifier::external_body]
fn new_session_id() -> (r: String)
    ensures
        r@.len() == 36,
        r@[8] == '-' && r@[13] == '-' && r@[18] == '-' && r@[23] == '-',
{
    uuid::Uuid::new_v4().to_string()
}

/// Relies on `chrono::Utc::now` and `DateTime::to_rfc3339`: the current time
/// as RFC 3339 text. Nothing is known of its value.
#[verifier::external_body]
fn utc_now_rfc3339() -> (r: String) {
    chrono::Utc::now().to_rfc3339()
}

/// A frame received on the socket; text frames arrive already decoded, or
/// with the decoder's complaint.
pub enum Frame {
    /// Transport-level ping, with its payload.
    Ping(Vec<u8>),
    /// Transport-level pong.
    Pong,
    /// A text frame: the client event it holds, or why it could not be read.
    Text(Result<ClientMessage, String>),
    /// A binary frame, which the protocol does not use.
    Binary,
    /// The client closes the connection.
    Close,
    /// Anything else the transport reports, such as a protocol error.
    Other,
}

/// A request from a session to the hub.
pub enum HubRequest {
    Join(JoinRoom),
    Leave(LeaveRoom),
    Broadcast(RoomMessage),
}

/// What the connection does next.
pub enum SessionAction {
    /// Hand a request to the hub.
    Hub(HubRequest),
    /// Write this text to the client.
    Reply(String),
    /// Answer a transport ping with this payload.
    Pong(Vec<u8>),
    /// Probe the client with a transport ping.
    Ping,
    /// Echo the client's close frame, then stop.
    Close,
    /// Stop the session.
    Stop,
    /// Nothing to do.
    Ignore,
}

/// Mathematical form of a [`HubRequest`].
pub enum HubCall {
    Join { session_id: Seq<char>, room_id: Seq<char> },
    Leave { session_id: Seq<char>, room_id: Seq<char> },
    Broadcast { room_id: Seq<char>, sender_session_id: Seq<char>, message: ServerEvent },
}

/// Mathematical form of a [`SessionAction`].
pub enum SessionStep {
    Hub(HubCall),
    Reply(Seq<char>),
    Pong(Seq<u8>),
    Ping,
    Close,
    Stop,
    Ignore,
}

impl View for HubRequest {
    type V = HubCall;

    open spec fn view(&self) -> HubCall {
        match self {
            HubRequest::Join(j) => HubCall::Join { session_id: j.session_id@, room_id: j.room_id@ },
            HubRequest::Leave(l) => HubCall::Leave { session_id: l.session_id@, room_id: l.room_id@ },
            HubRequest::Broadcast(m) => HubCall::Broadcast {
                room_id: m.room_id@,
                sender_session_id: m.sender_session_id@,
                message: m.message@,
            },
        }
    }
}

impl View for SessionAction {
    type V = SessionStep;

    open spec fn view(&self) -> SessionStep {
        match self {
            SessionAction::Hub(h) => SessionStep::Hub(h@),
            SessionAction::Reply(t) => SessionStep::Reply(t@),
            SessionAction::Pong(p) => SessionStep::Pong(p@),
            SessionAction::Ping => SessionStep::Ping,
            SessionAction::Close => SessionStep::Close,
            SessionAction::Stop => SessionStep::Stop,
            SessionAction::Ignore => SessionStep::Ignore,
        }
    }
}

/// What a session with id `session` and user `user` does with a client event;
/// `timestamp` stamps a chat message.
pub open spec fn client_step(session: Seq<char>, user: Seq<char>, m: ClientEvent, timestamp: Seq<char>) -> SessionStep {
    match m {
        ClientEvent::Join { room_id } => SessionStep::Hub(HubCall::Join { session_id: session, room_id }),
        ClientEvent::Leave { room_id } => SessionStep::Hub(HubCall::Leave { session_id: session, room_id }),
        ClientEvent::Message { room_id, content } => SessionStep::Hub(HubCall::Broadcast {
            room_id,
            sender_session_id: session,
            message: ServerEvent::Message {
                room_id,
                sender_id: user,
                sender_username: None,
                content,
                timestamp,
            },
        }),
        ClientEvent::Typing { room_id } => SessionStep::Hub(HubCall::Broadcast {
            room_id,
            sender_session_id: session,
            message: ServerEvent::UserTyping { room_id, user_id: user },
        }),
        ClientEvent::StopTyping { room_id } => SessionStep::Hub(HubCall::Broadcast {
            room_id,
            sender_session_id: session,
            message: ServerEvent::UserStopTyping { room_id, user_id: user },
        }),
        ClientEvent::Ping => SessionStep::Reply(server_json(ServerEvent::Pong)),
    }
}

/// The text of the error event that answers an unreadable frame.
pub open spec fn decode_error_reply(reason: Seq<char>) -> Seq<char> {
    server_json(ServerEvent::Error { message: "Invalid message format: "@ + reason })
}

/// The user a connection acts for: the verified one, else `anonymous`.
pub open spec fn user_or_anonymous(verified: Option<Seq<char>>) -> Seq<char> {
    match verified {
        Some(u) => u,
        None => "anonymous"@,
    }
}

/// The user a new connection acts for: the one its credential verified, or
/// `anonymous` when there is none; a connection is never refused for that.
pub fn connection_user(verified: Option<String>) -> (r: String)
    ensures
        r@ == user_or_anonymous(match verified {
            Some(u) => Some(u@),
            None => None,
        }),
{
    match verified {
        Some(u) => u,
        None => String::from_str("anonymous"),
    }
}

/// How many unregistrations `n` successive stop calls report, starting from
/// a session whose stopped flag is `stopped` (see [`WsSession::on_stopping`]).
pub open spec fn reports_after(stopped: bool, n: nat) -> nat
    decreases n,
{
    if n == 0 {
        0
    } else if stopped {
        0
    } else {
        1 + reports_after(true, (n - 1) as nat)
    }
}

/// However many of its ways to end fire (timeout, close frame, transport
/// error), a session that has not stopped reports its end exactly once.
pub proof fn lemma_end_reported_once(n: nat)
    requires
        n >= 1,
    ensures
        reports_after(false, n) == 1,
{
    lemma_no_report_once_stopped((n - 1) as nat);
}

/// A stopped session reports nothing more.
pub proof fn lemma_no_report_once_stopped(n: nat)
    ensures
        reports_after(true, n) == 0,
{
}

/// The state of one connection.
pub struct WsSession {
    /// Unique id of the session.
    pub session_id: String,
    /// The user behind the connection, or `anonymous`.
    pub user_id: String,
    /// Monotonic clock reading, in nanoseconds, of the last sign of life.
    pub last_heartbeat: u64,
    /// Whether the session has already reported its end to the hub.
    pub stopped: bool,
}

impl WsSession {
    /// A new session of `user_id` with a fresh random id, alive at `now`.
    pub fn new(user_id: String, now: u64) -> (s: Self)
        ensures
            s.user_id == user_id,
            s.last_heartbeat == now,
            s.session_id@.len() == 36,
            !s.stopped,
    {
        WsSession { session_id: new_session_id(), user_id, last_heartbeat: now, stopped: false }
    }

    /// The registration that the session sends to the hub when it starts.
    pub fn connect_request<H>(&self, addr: H) -> (c: Connect<H>)
        ensures
            c.session_id@ == self.session_id@,
            c.user_id@ == self.user_id@,
            c.addr == addr,
    {
        Connect { session_id: self.session_id.clone(), user_id: self.user_id.clone(), addr }
    }

    /// The liveness tick at time `now`: stop when the client has been silent
    /// for longer than the timeout, else probe it.
    pub fn heartbeat(&self, now: u64) -> (r: SessionAction)
        ensures
            r@ == if now > self.last_heartbeat && now - self.last_heartbeat > CLIENT_TIMEOUT_NANOS {
                SessionStep::Stop
            } else {
                SessionStep::Ping
            },
    {
        if now > self.last_heartbeat && now - self.last_heartbeat > CLIENT_TIMEOUT_NANOS {
            SessionAction::Stop
        } else {
            SessionAction::Ping
        }
    }

    /// What to do with a client event; `timestamp` stamps a chat message.
    pub fn handle_message(&self, msg: ClientMessage, timestamp: String) -> (r: SessionAction)
        ensures
            r@ == client_step(self.session_id@, self.user_id@, msg@, timestamp@),
    {
        match msg {
            ClientMessage::Join { room_id } => SessionAction::Hub(
                HubRequest::Join(JoinRoom { session_id: self.session_id.clone(), room_id }),
            ),
            ClientMessage::Leave { room_id } => SessionAction::Hub(
                HubRequest::Leave(LeaveRoom { session_id: self.session_id.clone(), room_id }),
            ),
            ClientMessage::Message { room_id, content } => {
                let message = ServerMessage::Message {
                    room_id: room_id.clone(),
                    sender_id: self.user_id.clone(),
                    sender_username: None,
                    content,
                    timestamp,
                };
                SessionAction::Hub(HubRequest::Broadcast(
                    RoomMessage { room_id, sender_session_id: self.session_id.clone(), message },
                ))
            },
            ClientMessage::Typing { room_id } => {
                let message = ServerMessage::UserTyping { room_id: room_id.clone(), user_id: self.user_id.clone() };
                SessionAction::Hub(HubRequest::Broadcast(
                    RoomMessage { room_id, sender_session_id: self.session_id.clone(), message },
                ))
            },
            ClientMessage::StopTyping { room_id } => {
                let message = ServerMessage::UserStopTyping {
                    room_id: room_id.clone(),
                    user_id: self.user_id.clone(),
                };
                SessionAction::Hub(HubRequest::Broadcast(
                    RoomMessage { room_id, sender_session_id: self.session_id.clone(), message },
                ))
            },
            ClientMessage::Ping => SessionAction::Reply(ServerMessage::Pong.to_json()),
        }
    }

    /// What to do with a client event, stamping a chat message with the
    /// current time.
    pub fn handle_message_now(&self, msg: ClientMessage) -> (r: SessionAction)
        ensures
            exists|timestamp: Seq<char>| r@ == client_step(self.session_id@, self.user_id@, msg@, timestamp),
    {
        let timestamp = match msg {
            ClientMessage::Message { .. } => utc_now_rfc3339(),
            _ => String::new(),
        };
        self.handle_message(msg, timestamp)
    }

    /// What to do with a frame received at time `now`. Pings, pongs and text
    /// frames count as signs of life; an unreadable text frame is answered with
    /// an error event and the connection stays open.
    pub fn handle_frame(&mut self, frame: Frame, now: u64) -> (r: SessionAction)
        ensures
            final(self).session_id == old(self).session_id,
            final(self).user_id == old(self).user_id,
            final(self).stopped == old(self).stopped,
            match frame {
                Frame::Ping(payload) => final(self).last_heartbeat == now && r@ == SessionStep::Pong(payload@),
                Frame::Pong => final(self).last_heartbeat == now && r@ == SessionStep::Ignore,
                Frame::Text(Ok(m)) => final(self).last_heartbeat == now && exists|timestamp: Seq<char>|
                    r@ == client_step(old(self).session_id@, old(self).user_id@, m@, timestamp),
                Frame::Text(Err(reason)) => final(self).last_heartbeat == now
                    && r@ == SessionStep::Reply(decode_error_reply(reason@)),
                Frame::Binary => final(self).last_heartbeat == old(self).last_heartbeat && r@ == SessionStep::Ignore,
                Frame::Close => final(self).last_heartbeat == old(self).last_heartbeat && r@ == SessionStep::Close,
                Frame::Other => final(self).last_heartbeat == old(self).last_heartbeat && r@ == SessionStep::Stop,
            },
    {
        match frame {
            Frame::Ping(payload) => {
                self.last_heartbeat = now;
                SessionAction::Pong(payload)
            },
            Frame::Pong => {
                self.last_heartbeat = now;
                SessionAction::Ignore
            },
            Frame::Text(Ok(m)) => {
                self.last_heartbeat = now;
                self.handle_message_now(m)
            },
            Frame::Text(Err(reason)) => {
                self.last_heartbeat = now;
                let mut message = String::new();
                message.append("Invalid message format: ");
                message.append(reason.as_str());
                SessionAction::Reply(ServerMessage::Error { message }.to_json())
            },
            Frame::Binary => SessionAction::Ignore,
            Frame::Close => SessionAction::Close,
            Frame::Other => SessionAction::Stop,
        }
    }

    /// The unregistration to send to the hub as the connection goes down: the
    /// first call gives it, every later call gives nothing, so the hub hears of
    /// the end once whatever path led to it.
    pub fn on_stopping(&mut self) -> (r: Option<Disconnect>)
        ensures
            final(self).stopped,
            final(self).session_id == old(self).session_id,
            final(self).user_id == old(self).user_id,
            final(self).last_heartbeat == old(self).last_heartbeat,
            old(self).stopped ==> r is None,
            !old(self).stopped ==> (r matches Some(d) && d.session_id@ == old(self).session_id@),
            (if r is Some { 1nat } else { 0nat }) == reports_after(old(self).stopped, 1),
    {
        if self.stopped {
            None
        } else {
            self.stopped = true;
            assert(reports_after(true, 0) == 0);
            Some(Disconnect { session_id: self.session_id.clone() })
        }
    }
}

} // verus!
