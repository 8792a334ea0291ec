//! The hub: the one owner of the session table, the room memberships and the
//! user index. Each operation updates that state and returns the deliveries it
//! makes, each an encoded event and the sessions it goes to, encoded once.
//! A room exists while it has members: it appears with its first join and
//! goes with its last member.

use vstd::prelude::*;
use crate::model::{ServerEvent, ServerMessage};
use crate::table::Table;
use crate::text::ids;
use crate::wire::server_json;

verus! {

/// What the hub keeps of a registered session: its user and the handle
/// through which events are pushed to it.
pub struct SessionInfo<H> {
    pub user_id: String,
    pub addr: H,
}

/// Registers a session under its id.
pub struct Connect<H> {
    pub session_id: String,
    pub user_id: String,
    pub addr: H,
}

/// Unregisters a session and takes it out of every room.
pub struct Disconnect {
    pub session_id: String,
}

/// Adds a session to a room.
pub struct JoinRoom {
    pub session_id: String,
    pub room_id: String,
}

/// Takes a session out of a room.
pub struct LeaveRoom {
    pub session_id: String,
    pub room_id: String,
}

/// Sends an event, already composed, to every member of a room.
pub struct RoomMessage {
    pub room_id: String,
    pub sender_session_id: String,
    pub message: ServerMessage,
}

/// One encoded event and the sessions it is pushed to.
pub struct Delivery {
    pub recipients: Vec<String>,
    pub text: String,
}

/// The characters of a pair of strings.
pub open spec fn pair(e: (String, String)) -> (Seq<char>, Seq<char>) {
    (e.0@, e.1@)
}

/// The characters of an optional string.
pub open spec fn opt_view(o: Option<&String>) -> Option<Seq<char>> {
    match o {
        Some(s) => Some(s@),
        None => None,
    }
}

/// The state of the hub: sessions by id, the (room, session) memberships, and
/// the latest session of each user.
pub struct HubView<H> {
    pub sessions: Map<Seq<char>, SessionInfo<H>>,
    pub members: Set<(Seq<char>, Seq<char>)>,
    pub user_sessions: Map<Seq<char>, String>,
}

/// The registered members of `room`, but `skip`.
pub open spec fn audience<H>(v: HubView<H>, room: Seq<char>, skip: Option<Seq<char>>) -> Set<Seq<char>> {
    Set::new(|s: Seq<char>| v.members.contains((room, s)) && v.sessions.contains_key(s) && skip != Some(s))
}

/// The session itself, if it is registered.
pub open spec fn direct<H>(v: HubView<H>, session: Seq<char>) -> Set<Seq<char>> {
    if v.sessions.contains_key(session) {
        set![session]
    } else {
        Set::empty()
    }
}

/// The user of a session; empty when the session is not registered.
pub open spec fn user_of<H>(v: HubView<H>, session: Seq<char>) -> Seq<char> {
    if v.sessions.contains_key(session) {
        v.sessions[session].user_id@
    } else {
        Seq::empty()
    }
}

/// The rooms that a session is a member of.
pub open spec fn rooms_of<H>(v: HubView<H>, session: Seq<char>) -> Set<Seq<char>> {
    Set::new(|r: Seq<char>| v.members.contains((r, session)))
}

pub open spec fn after_connect<H>(v: HubView<H>, session: String, user: String, addr: H) -> HubView<H> {
    HubView {
        sessions: v.sessions.insert(session@, SessionInfo { user_id: user, addr }),
        members: v.members,
        user_sessions: v.user_sessions.insert(user@, session),
    }
}

/// A registered session leaves every room, its user's entry goes, and then the
/// session itself; for an unknown session nothing changes.
pub open spec fn after_disconnect<H>(v: HubView<H>, session: Seq<char>) -> HubView<H> {
    if v.sessions.contains_key(session) {
        HubView {
            sessions: v.sessions.remove(session),
            members: v.members.filter(|p: (Seq<char>, Seq<char>)| p.1 != session),
            user_sessions: v.user_sessions.remove(v.sessions[session].user_id@),
        }
    } else {
        v
    }
}

pub open spec fn after_join<H>(v: HubView<H>, session: Seq<char>, room: Seq<char>) -> HubView<H> {
    HubView { members: v.members.insert((room, session)), ..v }
}

pub open spec fn after_leave<H>(v: HubView<H>, session: Seq<char>, room: Seq<char>) -> HubView<H> {
    HubView { members: v.members.remove((room, session)), ..v }
}

/// Who hears that a session left a room: the room's remaining registered
/// members when the session was in it, else nobody.
pub open spec fn leave_audience<H>(v: HubView<H>, session: Seq<char>, room: Seq<char>) -> Set<Seq<char>> {
    if v.members.contains((room, session)) {
        audience(after_leave(v, session, room), room, None)
    } else {
        Set::empty()
    }
}

/// `d` carries the text of `e` to exactly the sessions `to`, once each.
pub open spec fn sends(d: Delivery, to: Set<Seq<char>>, e: ServerEvent) -> bool {
    &&& ids(d.recipients@).no_duplicates()
    &&& ids(d.recipients@).to_set() == to
    &&& d.text@ == server_json(e)
}

/// The (room, session) memberships, each once.
struct Memberships {
    entries: Vec<(String, String)>,
    set: Ghost<Set<(Seq<char>, Seq<char>)>>,
}

impl Memberships {
    closed spec fn wf(&self) -> bool {
        &&& forall|i: int, j: int|
            0 <= i < j < self.entries@.len() ==> pair(self.entries@[i]) != pair(self.entries@[j])
        &&& forall|i: int| 0 <= i < self.entries@.len() ==> #[trigger] self.set@.contains(pair(self.entries@[i]))
        &&& forall|p: (Seq<char>, Seq<char>)|
            #[trigger] self.set@.contains(p) ==> exists|i: int| 0 <= i < self.entries@.len() && pair(self.entries@[i]) == p
    }

    fn new() -> (m: Self)
        ensures
            m.wf(),
            m.set@ == Set::<(Seq<char>, Seq<char>)>::empty(),
    {
        Memberships { entries: Vec::new(), set: Ghost(Set::empty()) }
    }

    fn position(&self, room: &String, session: &String) -> (r: Option<usize>)
        requires
            self.wf(),
        ensures
            r is None ==> !self.set@.contains((room@, session@)),
            r matches Some(i) ==> i < self.entries@.len() && pair(self.entries@[i as int]) == (room@, session@),
    {
        let mut i: usize = 0;
        while i < self.entries.len()
            invariant
                self.wf(),
                i <= self.entries@.len(),
                forall|j: int| 0 <= j < i ==> pair(self.entries@[j]) != (room@, session@),
            decreases self.entries@.len() - i,
        {
            if self.entries[i].0 == *room && self.entries[i].1 == *session {
                return Some(i);
            }
            i = i + 1;
        }
        None
    }

    fn add(&mut self, room: &String, session: &String)
        requires
            old(self).wf(),
        ensures
            final(self).wf(),
            final(self).set@ == old(self).set@.insert((room@, session@)),
    {
        match self.position(room, session) {
            Some(i) => {
                assert(self.set@.contains(pair(self.entries@[i as int])));
                assert(self.set@ =~= self.set@.insert((room@, session@)));
            },
            None => {
                let ghost p = (room@, session@);
                self.entries.push((room.clone(), session.clone()));
                self.set = Ghost(self.set@.insert(p));
                assert(pair(self.entries@[self.entries@.len() - 1]) == p);
                assert forall|q: (Seq<char>, Seq<char>)| #[trigger] self.set@.contains(q) implies exists|i: int|
                    0 <= i < self.entries@.len() && pair(self.entries@[i]) == q by {
                    if q != p {
                        let i = choose|i: int| 0 <= i < old(self).entries@.len() && pair(old(self).entries@[i]) == q;
                        assert(pair(self.entries@[i]) == q);
                    }
                }
            },
        }
    }

    /// Drops the membership at position `i`.
    fn remove_at(&mut self, i: usize)
        requires
            old(self).wf(),
            i < old(self).entries@.len(),
        ensures
            final(self).wf(),
            final(self).entries@ == old(self).entries@.remove(i as int),
            final(self).set@ == old(self).set@.remove(pair(old(self).entries@[i as int])),
    {
        let ghost p = pair(self.entries@[i as int]);
        let ghost old_entries = self.entries@;
        self.entries.remove(i);
        self.set = Ghost(self.set@.remove(p));
        assert forall|a: int| 0 <= a < self.entries@.len() implies
            #[trigger] self.set@.contains(pair(self.entries@[a])) by {
            let b = if a < i { a } else { a + 1 };
            assert(self.entries@[a] == old_entries[b]);
            if b < i {
                assert(pair(old_entries[b]) != pair(old_entries[i as int]));
            } else {
                assert(pair(old_entries[i as int]) != pair(old_entries[b]));
            }
            assert(old(self).set@.contains(pair(old_entries[b])));
        }
        assert forall|q: (Seq<char>, Seq<char>)| #[trigger] self.set@.contains(q) implies exists|j: int|
            0 <= j < self.entries@.len() && pair(self.entries@[j]) == q by {
            let j = choose|j: int| 0 <= j < old_entries.len() && pair(old_entries[j]) == q;
            assert(j != i);
            if j < i {
                assert(pair(self.entries@[j]) == q);
            } else {
                assert(pair(self.entries@[j - 1]) == q);
            }
        }
    }

    fn remove(&mut self, room: &String, session: &String)
        requires
            old(self).wf(),
        ensures
            final(self).wf(),
            final(self).set@ == old(self).set@.remove((room@, session@)),
    {
        match self.position(room, session) {
            Some(i) => self.remove_at(i),
            None => {
                assert(self.set@ =~= self.set@.remove((room@, session@)));
            },
        }
    }

    /// Drops every membership of `session`, handing back the rooms it was in.
    fn remove_session(&mut self, session: &String) -> (rooms: Vec<String>)
        requires
            old(self).wf(),
        ensures
            final(self).wf(),
            final(self).set@ == old(self).set@.filter(|p: (Seq<char>, Seq<char>)| p.1 != session@),
            ids(rooms@).no_duplicates(),
            ids(rooms@).to_set() == Set::new(|r: Seq<char>| old(self).set@.contains((r, session@))),
    {
        let mut rooms: Vec<String> = Vec::new();
        let mut i: usize = 0;
        assert(self.set@ =~= old(self).set@.filter(
            |p: (Seq<char>, Seq<char>)| !(p.1 == session@ && ids(rooms@).contains(p.0)),
        ));
        while i < self.entries.len()
            invariant
                self.wf(),
                i <= self.entries@.len(),
                forall|j: int| 0 <= j < i ==> (#[trigger] self.entries@[j]).1@ != session@,
                self.set@ == old(self).set@.filter(
                    |p: (Seq<char>, Seq<char>)| !(p.1 == session@ && ids(rooms@).contains(p.0)),
                ),
                ids(rooms@).no_duplicates(),
                forall|x: Seq<char>| #[trigger] ids(rooms@).contains(x) ==> old(self).set@.contains((x, session@)),
            decreases self.entries@.len() - i,
        {
            if self.entries[i].1 == *session {
                let ghost before = rooms@;
                let ghost prev = self.entries@;
                let ghost x = self.entries@[i as int].0@;
                assert(pair(self.entries@[i as int]) == (x, session@));
                assert(self.set@.contains(pair(self.entries@[i as int])));
                rooms.push(self.entries[i].0.clone());
                assert(ids(rooms@) == ids(before).push(x));
                self.remove_at(i);
                assert forall|y: Seq<char>| #[trigger] ids(rooms@).contains(y) <==> (ids(before).contains(y) || y == x) by {
                    if ids(before).contains(y) {
                        let j = choose|j: int| 0 <= j < ids(before).len() && ids(before)[j] == y;
                        assert(ids(rooms@)[j] == y);
                    }
                    if y == x {
                        assert(ids(rooms@)[ids(rooms@).len() - 1] == y);
                    }
                    if ids(rooms@).contains(y) {
                        let j = choose|j: int| 0 <= j < ids(rooms@).len() && ids(rooms@)[j] == y;
                        if j < ids(before).len() {
                            assert(ids(before)[j] == y);
                        }
                    }
                }
                assert(self.set@ =~= old(self).set@.filter(
                    |p: (Seq<char>, Seq<char>)| !(p.1 == session@ && ids(rooms@).contains(p.0)),
                ));
                assert forall|j: int| 0 <= j < i implies (#[trigger] self.entries@[j]).1@ != session@ by {
                    assert(self.entries@[j] == prev[j]);
                }
            } else {
                i = i + 1;
            }
        }
        assert forall|r: Seq<char>| old(self).set@.contains((r, session@)) implies ids(rooms@).contains(r) by {
            if !ids(rooms@).contains(r) {
                assert(self.set@.contains((r, session@)));
                let j = choose|j: int| 0 <= j < self.entries@.len() && pair(self.entries@[j]) == (r, session@);
                assert(self.entries@[j].1@ != session@);
            }
        }
        assert(self.set@ =~= old(self).set@.filter(|p: (Seq<char>, Seq<char>)| p.1 != session@));
        assert(ids(rooms@).to_set() =~= Set::new(|r: Seq<char>| old(self).set@.contains((r, session@))));
        rooms
    }
}

/// The chat hub; `H` is the handle through which events reach a session.
pub struct ChatServer<H> {
    sessions: Table<SessionInfo<H>>,
    rooms: Memberships,
    user_sessions: Table<String>,
}

impl<H> View for ChatServer<H> {
    type V = HubView<H>;

    closed spec fn view(&self) -> HubView<H> {
        HubView { sessions: self.sessions@, members: self.rooms.set@, user_sessions: self.user_sessions@ }
    }
}

impl<H> ChatServer<H> {
    pub closed spec fn wf(&self) -> bool {
        self.sessions.wf() && self.rooms.wf() && self.user_sessions.wf()
    }

    /// A hub with no sessions and no rooms.
    pub fn new() -> (hub: Self)
        ensures
            hub.wf(),
            hub@.sessions == Map::<Seq<char>, SessionInfo<H>>::empty(),
            hub@.members == Set::<(Seq<char>, Seq<char>)>::empty(),
            hub@.user_sessions == Map::<Seq<char>, String>::empty(),
    {
        ChatServer { sessions: Table::new(), rooms: Memberships::new(), user_sessions: Table::new() }
    }

    /// Whether a session is registered.
    pub fn is_connected(&self, session_id: &String) -> (r: bool)
        requires
            self.wf(),
        ensures
            r == self@.sessions.contains_key(session_id@),
    {
        self.sessions.contains_key(session_id)
    }

    /// Whether a session is a member of a room.
    pub fn is_member(&self, room_id: &String, session_id: &String) -> (r: bool)
        requires
            self.wf(),
        ensures
            r == self@.members.contains((room_id@, session_id@)),
    {
        match self.rooms.position(room_id, session_id) {
            Some(i) => {
                assert(self.rooms.set@.contains(pair(self.rooms.entries@[i as int])));
                true
            },
            None => false,
        }
    }

    /// The latest session registered for a user.
    pub fn session_of_user(&self, user_id: &String) -> (r: Option<&String>)
        requires
            self.wf(),
        ensures
            r matches Some(s) ==> self@.user_sessions.contains_key(user_id@) && *s == self@.user_sessions[user_id@],
            r is None ==> !self@.user_sessions.contains_key(user_id@),
    {
        self.user_sessions.get(user_id)
    }

    /// The handle of a registered session.
    pub fn addr_of(&self, session_id: &String) -> (r: Option<&H>)
        requires
            self.wf(),
        ensures
            r matches Some(a) ==> self@.sessions.contains_key(session_id@) && *a == self@.sessions[session_id@].addr,
            r is None ==> !self@.sessions.contains_key(session_id@),
    {
        match self.sessions.get(session_id) {
            Some(info) => Some(&info.addr),
            None => None,
        }
    }

    /// The user of a session, or an empty string for an unknown session.
    fn user_of_session(&self, session_id: &String) -> (r: String)
        requires
            self.wf(),
        ensures
            r@ == user_of(self@, session_id@),
    {
        match self.sessions.get(session_id) {
            Some(info) => info.user_id.clone(),
            None => String::new(),
        }
    }

    /// The registered members of a room, but `skip`, each once.
    fn audience_of(&self, room_id: &String, skip: Option<&String>) -> (r: Vec<String>)
        requires
            self.wf(),
        ensures
            ids(r@).no_duplicates(),
            ids(r@).to_set() == audience(self@, room_id@, opt_view(skip)),
    {
        let ghost entries = self.rooms.entries@;
        let mut out: Vec<String> = Vec::new();
        let mut i: usize = 0;
        while i < self.rooms.entries.len()
            invariant
                self.wf(),
                entries == self.rooms.entries@,
                i <= entries.len(),
                ids(out@).no_duplicates(),
                forall|x: Seq<char>| #[trigger] ids(out@).contains(x) <==> exists|k: int|
                    0 <= k < i && pair(entries[k]) == (room_id@, x) && self@.sessions.contains_key(x)
                        && opt_view(skip) != Some(x),
            decreases entries.len() - i,
        {
            let member = &self.rooms.entries[i].1;
            let wanted = self.rooms.entries[i].0 == *room_id && match skip {
                Some(s) => *member != *s,
                None => true,
            } && self.sessions.contains_key(member);
            let ghost x = member@;
            let ghost before = out@;
            if wanted {
                assert(!ids(before).contains(x)) by {
                    if ids(before).contains(x) {
                        let k = choose|k: int| 0 <= k < i && pair(entries[k]) == (room_id@, x)
                            && self@.sessions.contains_key(x) && opt_view(skip) != Some(x);
                        assert(pair(entries[k]) != pair(entries[i as int]));
                    }
                }
                out.push(member.clone());
                assert(ids(out@) == ids(before).push(x));
            }
            assert forall|y: Seq<char>| #[trigger] ids(out@).contains(y) <==> exists|k: int|
                0 <= k < i + 1 && pair(entries[k]) == (room_id@, y) && self@.sessions.contains_key(y)
                    && opt_view(skip) != Some(y) by {
                if ids(before).contains(y) {
                    let j = choose|j: int| 0 <= j < ids(before).len() && ids(before)[j] == y;
                    assert(ids(out@)[j] == y);
                }
                if wanted && y == x {
                    assert(ids(out@)[ids(out@).len() - 1] == y);
                }
                if ids(out@).contains(y) {
                    let j = choose|j: int| 0 <= j < ids(out@).len() && ids(out@)[j] == y;
                    if j < ids(before).len() {
                        assert(ids(before)[j] == y);
                    }
                }
                if exists|k: int| 0 <= k < i + 1 && pair(entries[k]) == (room_id@, y)
                    && self@.sessions.contains_key(y) && opt_view(skip) != Some(y) {
                    let k = choose|k: int| 0 <= k < i + 1 && pair(entries[k]) == (room_id@, y)
                        && self@.sessions.contains_key(y) && opt_view(skip) != Some(y);
                    if k == i {
                        assert(wanted && y == x);
                    }
                }
            }
            i = i + 1;
        }
        assert forall|x: Seq<char>| audience(self@, room_id@, opt_view(skip)).contains(x) implies
            ids(out@).contains(x) by {
            let k = choose|k: int| 0 <= k < entries.len() && pair(entries[k]) == (room_id@, x);
        }
        assert forall|x: Seq<char>| ids(out@).contains(x) implies
            audience(self@, room_id@, opt_view(skip)).contains(x) by {
            let k = choose|k: int| 0 <= k < i && pair(entries[k]) == (room_id@, x)
                && self@.sessions.contains_key(x) && opt_view(skip) != Some(x);
            assert(self.rooms.set@.contains(pair(entries[k])));
        }
        assert(ids(out@).to_set() =~= audience(self@, room_id@, opt_view(skip)));
        out
    }

    /// The session itself, if it is registered.
    fn direct_to(&self, session_id: &String) -> (r: Vec<String>)
        requires
            self.wf(),
        ensures
            ids(r@).no_duplicates(),
            ids(r@).to_set() == direct(self@, session_id@),
    {
        let mut out: Vec<String> = Vec::new();
        if self.sessions.contains_key(session_id) {
            out.push(session_id.clone());
            assert(ids(out@) == seq![session_id@]);
            assert(ids(out@)[0] == session_id@);
            assert(ids(out@).to_set() =~= set![session_id@]);
        } else {
            assert(ids(out@).to_set() =~= Set::<Seq<char>>::empty());
        }
        out
    }
    /// Registers a session (replacing any record under the same id), points
    /// its user at it, and confirms to the session alone.
    pub fn handle_connect(&mut self, msg: Connect<H>) -> (out: Vec<Delivery>)
        requires
            old(self).wf(),
        ensures
            final(self).wf(),
            final(self)@ == after_connect(old(self)@, msg.session_id, msg.user_id, msg.addr),
            out@.len() == 1,
            sends(out@[0], set![msg.session_id@], ServerEvent::Connected {
                user_id: msg.user_id@,
                session_id: msg.session_id@,
            }),
    {
        let ghost v = self@;
        let Connect { session_id, user_id, addr } = msg;
        let ghost uid = user_id;
        let ghost sid = session_id;
        let confirmation = ServerMessage::Connected { user_id: user_id.clone(), session_id: session_id.clone() };
        self.sessions.insert(session_id.clone(), SessionInfo { user_id: user_id.clone(), addr });
        self.user_sessions.insert(user_id, session_id.clone());
        let to = self.direct_to(&session_id);
        assert(self@ == after_connect(v, sid, uid, addr));
        let mut out: Vec<Delivery> = Vec::new();
        out.push(Delivery { recipients: to, text: confirmation.to_json() });
        out
    }

    /// Unregisters a session: for a registered one, its user's entry goes, it
    /// leaves every room, and each such room's remaining registered members are
    /// told once that its user left. An unknown session changes nothing.
    pub fn handle_disconnect(&mut self, msg: Disconnect) -> (out: Vec<Delivery>)
        requires
            old(self).wf(),
        ensures
            final(self).wf(),
            final(self)@ == after_disconnect(old(self)@, msg.session_id@),
            old(self)@.sessions.contains_key(msg.session_id@) ==> exists|rooms: Seq<Seq<char>>| {
                &&& rooms.no_duplicates()
                &&& rooms.to_set() == rooms_of(old(self)@, msg.session_id@)
                &&& out@.len() == rooms.len()
                &&& forall|k: int| 0 <= k < rooms.len() ==> sends(#[trigger] out@[k],
                    audience(final(self)@, rooms[k], None),
                    ServerEvent::UserLeft { room_id: rooms[k], user_id: user_of(old(self)@, msg.session_id@) })
            },
            !old(self)@.sessions.contains_key(msg.session_id@) ==> out@.len() == 0,
    {
        let ghost v = self@;
        let session_id = msg.session_id;
        let mut out: Vec<Delivery> = Vec::new();
        if !self.sessions.contains_key(&session_id) {
            return out;
        }
        let user_id = self.user_of_session(&session_id);
        self.user_sessions.remove(&user_id);
        let rooms = self.rooms.remove_session(&session_id);
        self.sessions.remove(&session_id);
        assert(self.rooms.set@ =~= v.members.filter(|p: (Seq<char>, Seq<char>)| p.1 != session_id@));
        assert(self@ == after_disconnect(v, session_id@));
        assert(ids(rooms@).to_set() =~= rooms_of(v, session_id@));
        let mut k: usize = 0;
        while k < rooms.len()
            invariant
                self.wf(),
                self@ == after_disconnect(v, session_id@),
                k <= rooms@.len(),
                out@.len() == k,
                user_id@ == user_of(v, session_id@),
                forall|j: int| 0 <= j < k ==> sends(#[trigger] out@[j], audience(self@, ids(rooms@)[j], None),
                    ServerEvent::UserLeft { room_id: ids(rooms@)[j], user_id: user_id@ }),
            decreases rooms@.len() - k,
        {
            let room_id = &rooms[k];
            let note = ServerMessage::UserLeft { room_id: room_id.clone(), user_id: user_id.clone() };
            let to = self.audience_of(room_id, None);
            out.push(Delivery { recipients: to, text: note.to_json() });
            k = k + 1;
        }
        assert(out@.len() == ids(rooms@).len());
        out
    }

    /// Adds a session to a room (creating the room), tells the other registered
    /// members that its user joined, then confirms to the session.
    pub fn handle_join_room(&mut self, msg: JoinRoom) -> (out: Vec<Delivery>)
        requires
            old(self).wf(),
        ensures
            final(self).wf(),
            final(self)@ == after_join(old(self)@, msg.session_id@, msg.room_id@),
            out@.len() == 2,
            sends(out@[0], audience(final(self)@, msg.room_id@, Some(msg.session_id@)),
                ServerEvent::UserJoined { room_id: msg.room_id@, user_id: user_of(old(self)@, msg.session_id@) }),
            sends(out@[1], direct(final(self)@, msg.session_id@), ServerEvent::Joined { room_id: msg.room_id@ }),
    {
        let ghost v = self@;
        let JoinRoom { session_id, room_id } = msg;
        self.rooms.add(&room_id, &session_id);
        assert(self@ == after_join(v, session_id@, room_id@));
        let user_id = self.user_of_session(&session_id);
        let note = ServerMessage::UserJoined { room_id: room_id.clone(), user_id };
        let others = self.audience_of(&room_id, Some(&session_id));
        let confirmation = ServerMessage::Joined { room_id };
        let own = self.direct_to(&session_id);
        let mut out: Vec<Delivery> = Vec::new();
        out.push(Delivery { recipients: others, text: note.to_json() });
        out.push(Delivery { recipients: own, text: confirmation.to_json() });
        out
    }

    /// Takes a session out of a room and confirms to the session. When the
    /// session was a member, the room's remaining registered members are told
    /// that its user left; leaving a room one is not in announces nothing.
    pub fn handle_leave_room(&mut self, msg: LeaveRoom) -> (out: Vec<Delivery>)
        requires
            old(self).wf(),
        ensures
            final(self).wf(),
            final(self)@ == after_leave(old(self)@, msg.session_id@, msg.room_id@),
            out@.len() == 2,
            sends(out@[0], leave_audience(old(self)@, msg.session_id@, msg.room_id@),
                ServerEvent::UserLeft { room_id: msg.room_id@, user_id: user_of(old(self)@, msg.session_id@) }),
            sends(out@[1], direct(final(self)@, msg.session_id@), ServerEvent::Left { room_id: msg.room_id@ }),
    {
        let ghost v = self@;
        let LeaveRoom { session_id, room_id } = msg;
        let user_id = self.user_of_session(&session_id);
        let was_member = self.is_member(&room_id, &session_id);
        self.rooms.remove(&room_id, &session_id);
        assert(self@ == after_leave(v, session_id@, room_id@));
        let note = ServerMessage::UserLeft { room_id: room_id.clone(), user_id };
        let remaining = if was_member {
            self.audience_of(&room_id, None)
        } else {
            let none: Vec<String> = Vec::new();
            assert(ids(none@).to_set() =~= Set::<Seq<char>>::empty());
            none
        };
        let confirmation = ServerMessage::Left { room_id };
        let own = self.direct_to(&session_id);
        let mut out: Vec<Delivery> = Vec::new();
        out.push(Delivery { recipients: remaining, text: note.to_json() });
        out.push(Delivery { recipients: own, text: confirmation.to_json() });
        out
    }

    /// Sends an event to every registered member of a room, the sender included.
    pub fn handle_room_message(&self, msg: RoomMessage) -> (out: Vec<Delivery>)
        requires
            self.wf(),
        ensures
            out@.len() == 1,
            sends(out@[0], audience(self@, msg.room_id@, None), msg.message@),
    {
        let to = self.audience_of(&msg.room_id, None);
        let mut out: Vec<Delivery> = Vec::new();
        out.push(Delivery { recipients: to, text: msg.message.to_json() });
        out
    }
}

/// One step processed by the hub.
pub enum HubStep<H> {
    Connect { session_id: String, user_id: String, addr: H },
    Disconnect { id: Seq<char> },
    Join { session: Seq<char>, room: Seq<char> },
    Leave { session: Seq<char>, room: Seq<char> },
    Broadcast { room: Seq<char> },
}

/// The hub's state after processing `steps` in order, from `v`.
pub open spec fn replay<H>(v: HubView<H>, steps: Seq<HubStep<H>>) -> HubView<H>
    decreases steps.len(),
{
    if steps.len() == 0 {
        v
    } else {
        let w = replay(v, steps.drop_last());
        match steps.last() {
            HubStep::Connect { session_id, user_id, addr } => after_connect(w, session_id, user_id, addr),
            HubStep::Disconnect { id } => after_disconnect(w, id),
            HubStep::Join { session, room } => after_join(w, session, room),
            HubStep::Leave { session, room } => after_leave(w, session, room),
            HubStep::Broadcast { .. } => w,
        }
    }
}

/// The ids connected after `steps`, starting from the ids `start`: each
/// connection adds its id, each disconnection takes its id away, and the
/// other steps leave them.
pub open spec fn connected_ids<H>(start: Set<Seq<char>>, steps: Seq<HubStep<H>>) -> Set<Seq<char>>
    decreases steps.len(),
{
    if steps.len() == 0 {
        start
    } else {
        let ids = connected_ids(start, steps.drop_last());
        match steps.last() {
            HubStep::Connect { session_id, .. } => ids.insert(session_id@),
            HubStep::Disconnect { id } => ids.remove(id),
            _ => ids,
        }
    }
}

/// After any sequence of steps, the session table holds exactly the ids that
/// are connected: none left behind, none missing.
pub proof fn lemma_session_table_follows_registrations<H>(v: HubView<H>, steps: Seq<HubStep<H>>)
    ensures
        replay(v, steps).sessions.dom() == connected_ids(v.sessions.dom(), steps),
    decreases steps.len(),
{
    if steps.len() > 0 {
        lemma_session_table_follows_registrations(v, steps.drop_last());
        let w = replay(v, steps.drop_last());
        match steps.last() {
            HubStep::Connect { session_id, user_id, addr } => {
                assert(after_connect(w, session_id, user_id, addr).sessions.dom() =~= w.sessions.dom().insert(session_id@));
            },
            HubStep::Disconnect { id } => {
                assert(after_disconnect(w, id).sessions.dom() =~= w.sessions.dom().remove(id));
            },
            _ => {},
        }
    }
}

/// A session that is not in a room (for instance one that has left it) is
/// reached by no broadcast to the room until it joins the room again,
/// whatever other steps come between.
pub proof fn lemma_absent_session_unreached_until_rejoin<H>(
    v: HubView<H>,
    steps: Seq<HubStep<H>>,
    session: Seq<char>,
    room: Seq<char>,
)
    requires
        !v.members.contains((room, session)),
        forall|i: int| 0 <= i < steps.len() ==> !(#[trigger] steps[i] matches HubStep::Join { session: s, room: r }
            && s == session && r == room),
    ensures
        !replay(v, steps).members.contains((room, session)),
        !audience(replay(v, steps), room, None).contains(session),
    decreases steps.len(),
{
    if steps.len() > 0 {
        let prefix = steps.drop_last();
        assert forall|i: int| 0 <= i < prefix.len() implies !(#[trigger] prefix[i] matches HubStep::Join { session: s, room: r }
            && s == session && r == room) by {
            assert(prefix[i] == steps[i]);
        }
        lemma_absent_session_unreached_until_rejoin(v, prefix, session, room);
        assert(steps[steps.len() - 1] == steps.last());
    }
}

/// A registered session that has just joined a room is among those that a
/// broadcast to the room reaches.
pub proof fn lemma_joined_session_hears_room<H>(v: HubView<H>, session: Seq<char>, room: Seq<char>)
    requires
        v.sessions.contains_key(session),
    ensures
        audience(after_join(v, session, room), room, None).contains(session),
{
}

/// A session that has just left a room is not reached by a broadcast to it.
pub proof fn lemma_left_session_not_reached<H>(v: HubView<H>, session: Seq<char>, room: Seq<char>)
    ensures
        !audience(after_leave(v, session, room), room, None).contains(session),
{
}

/// When a registered session disconnects, the notice to each of its rooms
/// reaches exactly the room's other registered members, and never the session.
pub proof fn lemma_disconnect_notice_reaches_others<H>(v: HubView<H>, session: Seq<char>, room: Seq<char>)
    requires
        v.sessions.contains_key(session),
        rooms_of(v, session).contains(room),
    ensures
        audience(after_disconnect(v, session), room, None) == audience(v, room, Some(session)),
        !audience(after_disconnect(v, session), room, None).contains(session),
{
    assert(audience(after_disconnect(v, session), room, None) =~= audience(v, room, Some(session)));
}

/// The state after leaving the same room `n` times in a row.
pub open spec fn leave_times<H>(v: HubView<H>, session: Seq<char>, room: Seq<char>, n: nat) -> HubView<H>
    decreases n,
{
    if n == 0 {
        v
    } else {
        after_leave(leave_times(v, session, room, (n - 1) as nat), session, room)
    }
}

/// Leaving a room again changes nothing: the state after any number of
/// leaves (at least one) is that after the first, and every leave after the
/// first announces the departure to nobody.
pub proof fn lemma_leave_idempotent<H>(v: HubView<H>, session: Seq<char>, room: Seq<char>, n: nat)
    requires
        n >= 1,
    ensures
        leave_times(v, session, room, n) == after_leave(v, session, room),
        leave_audience(leave_times(v, session, room, n), session, room) == Set::<Seq<char>>::empty(),
    decreases n,
{
    let w = after_leave(v, session, room);
    if n > 1 {
        lemma_leave_idempotent(v, session, room, (n - 1) as nat);
        assert(leave_times(v, session, room, n) == after_leave(leave_times(v, session, room, (n - 1) as nat), session, room));
        assert(after_leave(w, session, room).members =~= w.members);
        assert(after_leave(w, session, room) == w);
    } else {
        assert(leave_times(v, session, room, 0) == v);
    }
}

} // verus!
