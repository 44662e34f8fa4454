//! The session store: sessions keyed by their id, each with its dialogue
//! state, the data gathered so far, its message history and the time of its
//! last activity. Idle sessions are evicted once their time to live is over.
//!
//! Time is a count of milliseconds on a clock of the caller's choosing; every
//! operation that needs the time takes it as `now`.

use crate::services::store_model::{
    appended, distinct_ids, ensured, lemma_absent, lemma_lookup, lemma_push, lemma_remove,
    lemma_purge_without_expired, lemma_size, lemma_update, purged, store_map, with_data, with_state, StoreView,
};
use vstd::prelude::*;
use vstd::string::*;

verus! {

/// Where a conversation stands.
#[derive(Clone, Copy, Debug, PartialEq, Eq, Structural)]
pub enum ConversationState {
    AskingLanguage,
    Idle,
    AskingName,
    AskingEmail,
    AskingBudget,
    AskingProjectDetails,
    AskingProjectConfirmation,
}

impl ConversationState {
    /// The state in which every session starts, and to which a reset
    /// returns.
    pub open spec fn entry() -> ConversationState {
        ConversationState::AskingLanguage
    }

    /// The state in which every session starts, and to which a reset
    /// returns.
    pub fn entry_state() -> (s: ConversationState)
        ensures
            s == ConversationState::entry(),
    {
        ConversationState::AskingLanguage
    }
}

impl Default for ConversationState {
    fn default() -> (s: ConversationState)
        ensures
            s == ConversationState::entry(),
    {
        ConversationState::AskingLanguage
    }
}

/// The text of an optional string.
pub open spec fn opt_text(o: Option<String>) -> Option<Seq<char>> {
    match o {
        Some(s) => Some(s@),
        None => None,
    }
}

/// A copy of an optional string.
pub fn clone_opt(o: &Option<String>) -> (r: Option<String>)
    ensures
        opt_text(r) == opt_text(*o),
{
    match o {
        Some(s) => Some(s.clone()),
        None => None,
    }
}

/// A copy of a list of strings.
pub fn clone_strings(v: &Vec<String>) -> (r: Vec<String>)
    ensures
        r.deep_view() == v.deep_view(),
{
    let mut r: Vec<String> = Vec::new();
    let mut i: usize = 0;
    while i < v.len()
        invariant
            i <= v.len(),
            r.len() == i,
            forall|k: int| 0 <= k < i ==> r[k]@ == v[k]@,
        decreases v.len() - i,
    {
        r.push(v[i].clone());
        i += 1;
    }
    assert(r.deep_view() =~= v.deep_view());
    r
}

/// What a conversation has gathered about the visitor and the project.
#[derive(Debug)]
pub struct SessionData {
    /// Two-letter code of the language the replies are written in.
    pub language: String,
    pub name: Option<String>,
    pub email: Option<String>,
    /// The budget as the visitor wrote it.
    pub budget: Option<String>,
    /// The topics met so far: each once, in the order of first mention.
    pub detected_keywords: Vec<String>,
}

/// The mathematical content of a [`SessionData`].
pub struct SessionDataView {
    pub language: Seq<char>,
    pub name: Option<Seq<char>>,
    pub email: Option<Seq<char>>,
    pub budget: Option<Seq<char>>,
    pub detected_keywords: Seq<Seq<char>>,
}

impl SessionDataView {
    /// The data of a fresh session: English, nothing known.
    pub open spec fn initial() -> SessionDataView {
        SessionDataView {
            language: "en"@,
            name: None,
            email: None,
            budget: None,
            detected_keywords: Seq::empty(),
        }
    }

    /// The data with which a project inquiry starts: the language is kept,
    /// the rest is forgotten.
    pub open spec fn restarted(self) -> SessionDataView {
        SessionDataView { language: self.language, ..SessionDataView::initial() }
    }
}

impl View for SessionData {
    type V = SessionDataView;

    open spec fn view(&self) -> SessionDataView {
        SessionDataView {
            language: self.language@,
            name: opt_text(self.name),
            email: opt_text(self.email),
            budget: opt_text(self.budget),
            detected_keywords: self.detected_keywords.deep_view(),
        }
    }
}

impl Default for SessionData {
    fn default() -> (d: SessionData)
        ensures
            d@ == SessionDataView::initial(),
    {
        let d = SessionData {
            language: String::from_str("en"),
            name: None,
            email: None,
            budget: None,
            detected_keywords: Vec::new(),
        };
        assert(d.detected_keywords.deep_view() =~= Seq::empty());
        d
    }
}

impl Clone for SessionData {
    fn clone(&self) -> (d: SessionData)
        ensures
            d@ == self@,
    {
        SessionData {
            language: self.language.clone(),
            name: clone_opt(&self.name),
            email: clone_opt(&self.email),
            budget: clone_opt(&self.budget),
            detected_keywords: clone_strings(&self.detected_keywords),
        }
    }
}

/// Who wrote a message.
#[derive(Clone, Copy, Debug, PartialEq, Eq, Structural)]
pub enum MessageRole {
    User,
    Bot,
}

/// One entry of a session's history.
#[derive(Debug)]
pub struct Message {
    pub role: MessageRole,
    pub content: String,
    /// When the message was appended.
    pub timestamp: u64,
}

/// The mathematical content of a [`Message`].
pub struct MessageView {
    pub role: MessageRole,
    pub content: Seq<char>,
    pub timestamp: u64,
}

impl View for Message {
    type V = MessageView;

    open spec fn view(&self) -> MessageView {
        MessageView { role: self.role, content: self.content@, timestamp: self.timestamp }
    }
}

impl Clone for Message {
    fn clone(&self) -> (m: Message)
        ensures
            m@ == self@,
    {
        Message { role: self.role, content: self.content.clone(), timestamp: self.timestamp }
    }
}

/// The contents of a history.
pub open spec fn history_view(messages: Seq<Message>) -> Seq<MessageView> {
    messages.map_values(|m: Message| m@)
}

/// A copy of a history.
pub fn clone_history(v: &Vec<Message>) -> (r: Vec<Message>)
    ensures
        history_view(r@) == history_view(v@),
{
    let mut r: Vec<Message> = Vec::new();
    let mut i: usize = 0;
    while i < v.len()
        invariant
            i <= v.len(),
            r.len() == i,
            forall|k: int| 0 <= k < i ==> r[k]@ == v[k]@,
        decreases v.len() - i,
    {
        r.push(v[i].clone());
        i += 1;
    }
    assert(history_view(r@) =~= history_view(v@));
    r
}

/// A conversation: its id, where it stands, what it has gathered, what was
/// said, and when it was last active.
#[derive(Debug)]
pub struct Session {
    pub id: String,
    pub state: ConversationState,
    pub data: SessionData,
    pub messages: Vec<Message>,
    pub last_active: u64,
}

/// The mathematical content of a [`Session`].
pub struct SessionView {
    pub id: Seq<char>,
    pub state: ConversationState,
    pub data: SessionDataView,
    pub messages: Seq<MessageView>,
    pub last_active: u64,
}

/// The later of two times.
pub open spec fn later(a: u64, b: u64) -> u64 {
    if a >= b {
        a
    } else {
        b
    }
}

impl SessionView {
    /// A session as it is created: entry state, initial data, no history.
    pub open spec fn fresh(id: Seq<char>, now: u64) -> SessionView {
        SessionView {
            id,
            state: ConversationState::entry(),
            data: SessionDataView::initial(),
            messages: Seq::empty(),
            last_active: now,
        }
    }

    /// The session after some activity at time `now`. The time of the last
    /// activity never goes back.
    pub open spec fn touched(self, now: u64) -> SessionView {
        SessionView { last_active: later(self.last_active, now), ..self }
    }

    /// For how long the session has been idle at time `now`.
    pub open spec fn idle_time(self, now: u64) -> int {
        if now >= self.last_active {
            now - self.last_active
        } else {
            0
        }
    }

    /// Whether the session has been idle for its time to live or longer.
    pub open spec fn expired(self, now: u64, ttl: u64) -> bool {
        self.idle_time(now) >= ttl
    }
}

impl View for Session {
    type V = SessionView;

    open spec fn view(&self) -> SessionView {
        SessionView {
            id: self.id@,
            state: self.state,
            data: self.data@,
            messages: history_view(self.messages@),
            last_active: self.last_active,
        }
    }
}

impl Clone for Session {
    fn clone(&self) -> (s: Session)
        ensures
            s@ == self@,
    {
        Session {
            id: self.id.clone(),
            state: self.state,
            data: self.data.clone(),
            messages: clone_history(&self.messages),
            last_active: self.last_active,
        }
    }
}

impl Session {
    /// A new session under `id`, created at time `now`.
    pub fn new(id: String, now: u64) -> (s: Session)
        ensures
            s@ == SessionView::fresh(id@, now),
    {
        let s = Session {
            id,
            state: ConversationState::entry_state(),
            data: SessionData::default(),
            messages: Vec::new(),
            last_active: now,
        };
        assert(history_view(s.messages@) =~= Seq::empty());
        s
    }

    /// Whether the session has been idle for `ttl` or longer at time `now`.
    pub fn is_expired(&self, now: u64, ttl: u64) -> (b: bool)
        ensures
            b == self@.expired(now, ttl),
    {
        if now >= self.last_active {
            now - self.last_active >= ttl
        } else {
            ttl == 0
        }
    }
}

/// Calls `Uuid::new_v4` and writes the id out in its hyphenated form. The
/// id is drawn at random, so nothing is promised of it. The call panics when
/// the operating system cannot supply random bytes.
#[verifier::external_body]
fn random_id() -> (id: String) {
    uuid::Uuid::new_v4().to_string()
}

/// `n` hyphens.
pub open spec fn hyphens(n: nat) -> Seq<char> {
    Seq::new(n, |i: int| '-')
}

/// The sessions of all conversations, each under its id.
#[derive(Debug)]
pub struct SessionManager {
    sessions: Vec<Session>,
    ttl: u64,
}

impl View for SessionManager {
    type V = StoreView;

    closed spec fn view(&self) -> StoreView {
        store_map(self.sessions@)
    }
}

impl SessionManager {
    #[verifier::type_invariant]
    spec fn well_formed(&self) -> bool {
        distinct_ids(self.sessions@)
    }

    /// The time for which a session may stay idle.
    pub closed spec fn time_to_live(&self) -> u64 {
        self.ttl
    }

    /// Every session stands in the store under its own id.
    pub proof fn lemma_sessions_are_keyed_by_id(&self, id: Seq<char>)
        requires
            self@.dom().contains(id),
        ensures
            self@[id].id == id,
    {
    }

    /// An empty store whose sessions live for `ttl` after their last
    /// activity.
    pub fn new(ttl: u64) -> (m: SessionManager)
        ensures
            m@ == StoreView::empty(),
            m.time_to_live() == ttl,
    {
        let m = SessionManager { sessions: Vec::new(), ttl };
        assert(m@ =~= StoreView::empty());
        m
    }

    /// Moves the list of sessions out, to be changed and put back.
    fn take_sessions(&mut self) -> (sessions: Vec<Session>)
        ensures
            sessions@ == old(self).sessions@,
            distinct_ids(sessions@),
            final(self).sessions@ == Seq::<Session>::empty(),
            final(self).ttl == old(self).ttl,
    {
        proof {
            use_type_invariant(&*self);
        }
        let mut sessions: Vec<Session> = Vec::new();
        core::mem::swap(&mut self.sessions, &mut sessions);
        sessions
    }

    /// Where the session under `id` stands in the list, if there is one.
    fn find(&self, id: &str) -> (r: Option<usize>)
        ensures
            match r {
                Some(i) => i < self.sessions.len() && self.sessions[i as int].id@ == id@,
                None => forall|i: int| 0 <= i < self.sessions.len() ==> self.sessions[i].id@ != id@,
            },
            r is Some <==> self@.dom().contains(id@),
            r matches Some(i) ==> self@[id@] == self.sessions[i as int]@,
    {
        proof {
            use_type_invariant(self);
        }
        let key = String::from_str(id);
        let mut i: usize = 0;
        while i < self.sessions.len()
            invariant
                i <= self.sessions.len(),
                key@ == id@,
                distinct_ids(self.sessions@),
                forall|k: int| 0 <= k < i ==> self.sessions[k].id@ != id@,
            decreases self.sessions.len() - i,
        {
            if self.sessions[i].id == key {
                proof {
                    lemma_lookup(self.sessions@, i as int);
                }
                return Some(i);
            }
            i += 1;
        }
        proof {
            lemma_absent(self.sessions@, id@);
        }
        None
    }

    /// Whether a session under `id` exists.
    pub fn contains(&self, id: &str) -> (b: bool)
        ensures
            b == self@.dom().contains(id@),
    {
        self.find(id).is_some()
    }

    /// The length of the longest id in the store.
    fn longest_id(&self) -> (n: usize)
        ensures
            forall|id: Seq<char>| self@.dom().contains(id) ==> id.len() <= n,
            self@.dom().len() > 0 ==> exists|id: Seq<char>|
                self@.dom().contains(id) && id.len() == n,
    {
        proof {
            use_type_invariant(self);
            lemma_size(self.sessions@);
        }
        let mut n: usize = 0;
        let mut i: usize = 0;
        while i < self.sessions.len()
            invariant
                i <= self.sessions.len(),
                forall|k: int| 0 <= k < i ==> self.sessions[k].id@.len() <= n,
                i > 0 ==> exists|k: int| 0 <= k < i && self.sessions[k].id@.len() == n,
            decreases self.sessions.len() - i,
        {
            let l = self.sessions[i].id.as_str().unicode_len();
            if i == 0 || l > n {
                n = l;
            }
            i += 1;
        }
        proof {
            if self.sessions.len() > 0 {
                let k = choose|k: int|
                    0 <= k < self.sessions.len() && self.sessions[k].id@.len() == n;
                lemma_lookup(self.sessions@, k);
            }
        }
        n
    }

    /// An id that no session of the store has: `candidate` itself where it
    /// is free, and otherwise `candidate` followed by as many hyphens as make
    /// it one longer than the longest id in the store.
    pub fn unused_id(&self, candidate: String) -> (id: String)
        ensures
            !self@.dom().contains(id@),
            !self@.dom().contains(candidate@) ==> id@ == candidate@,
            self@.dom().contains(candidate@) ==> {
                &&& id@ == candidate@ + hyphens((id@.len() - candidate@.len()) as nat)
                &&& forall|other: Seq<char>| self@.dom().contains(other) ==> other.len() < id@.len()
                &&& exists|other: Seq<char>|
                    self@.dom().contains(other) && other.len() + 1 == id@.len()
            },
    {
        if !self.contains(candidate.as_str()) {
            return candidate;
        }
        proof {
            use_type_invariant(self);
            lemma_size(self.sessions@);
        }
        let longest = self.longest_id();
        let mut id = candidate.clone();
        assert(id@ =~= candidate@ + hyphens(0));
        loop
            invariant
                id@.len() <= longest + 1,
                candidate@.len() <= id@.len(),
                id@ == candidate@ + hyphens((id@.len() - candidate@.len()) as nat),
                forall|other: Seq<char>| self@.dom().contains(other) ==> other.len() <= longest,
                exists|other: Seq<char>| self@.dom().contains(other) && other.len() == longest,
            ensures
                id@.len() == longest + 1,
            decreases longest + 1 - id@.len(),
        {
            let n = id.as_str().unicode_len();
            if n > longest {
                break;
            }
            let ghost before = id@;
            id.append("-");
            proof {
                reveal_strlit("-");
                assert(id@ =~= candidate@ + hyphens((before.len() + 1 - candidate@.len()) as nat));
            }
        }
        id
    }

    /// Creates a session under a new id and returns the id.
    pub fn create_session(&mut self, now: u64) -> (id: String)
        ensures
            !old(self)@.dom().contains(id@),
            final(self)@ == old(self)@.insert(id@, SessionView::fresh(id@, now)),
            final(self).time_to_live() == old(self).time_to_live(),
    {
        let id = self.unused_id(random_id());
        self.insert_new(id.clone(), now);
        id
    }

    /// Adds a fresh session under an id that the store does not hold.
    fn insert_new(&mut self, id: String, now: u64)
        requires
            !old(self)@.dom().contains(id@),
        ensures
            final(self)@ == old(self)@.insert(id@, SessionView::fresh(id@, now)),
            final(self).time_to_live() == old(self).time_to_live(),
            final(self).sessions@ == old(self).sessions@.push(final(self).sessions@.last()),
            final(self).sessions@.last()@ == SessionView::fresh(id@, now),
    {
        proof {
            use_type_invariant(&*self);
        }
        let session = Session::new(id, now);
        proof {
            assert forall|i: int| 0 <= i < self.sessions.len() implies self.sessions[i].id@
                != session.id@ by {
                lemma_lookup(self.sessions@, i);
            }
            lemma_push(self.sessions@, session);
        }
        let mut sessions = self.take_sessions();
        sessions.push(session);
        self.sessions = sessions;
    }

    /// Makes sure that a session under `id` exists: an existing one is left
    /// as it is, a missing one is created under exactly this id.
    pub fn ensure_session(&mut self, id: &str, now: u64) -> (r: String)
        ensures
            r@ == id@,
            final(self)@ == ensured(old(self)@, id@, now),
            final(self).time_to_live() == old(self).time_to_live(),
    {
        if !self.contains(id) {
            self.insert_new(String::from_str(id), now);
        }
        String::from_str(id)
    }

    /// Sets the state of the session under `id`, which thereby was active at
    /// `now`. Without such a session nothing happens.
    pub fn set_state(&mut self, id: &str, state: ConversationState, now: u64)
        ensures
            final(self)@ == with_state(old(self)@, id@, state, now),
            final(self).time_to_live() == old(self).time_to_live(),
    {
        match self.find(id) {
            Some(i) => {
                let mut sessions = self.take_sessions();
                let ghost before = sessions@;
                sessions[i].state = state;
                if now > sessions[i].last_active {
                    sessions[i].last_active = now;
                }
                proof {
                    assert(sessions@ =~= before.update(i as int, sessions[i as int]));
                    lemma_lookup(before, i as int);
                    lemma_update(before, i as int, sessions[i as int]);
                }
                self.sessions = sessions;
            },
            None => {},
        }
    }

    /// The state of the session under `id`; the entry state where there is
    /// no such session.
    pub fn get_state(&self, id: &str) -> (state: ConversationState)
        ensures
            state == if self@.dom().contains(id@) {
                self@[id@].state
            } else {
                ConversationState::entry()
            },
    {
        match self.find(id) {
            Some(i) => self.sessions[i].state,
            None => ConversationState::entry_state(),
        }
    }

    /// Sets the data of the session under `id`, which thereby was active at
    /// `now`. Without such a session nothing happens.
    pub fn set_data(&mut self, id: &str, data: SessionData, now: u64)
        ensures
            final(self)@ == with_data(old(self)@, id@, data@, now),
            final(self).time_to_live() == old(self).time_to_live(),
    {
        match self.find(id) {
            Some(i) => {
                let mut sessions = self.take_sessions();
                let ghost before = sessions@;
                sessions[i].data = data;
                if now > sessions[i].last_active {
                    sessions[i].last_active = now;
                }
                proof {
                    assert(sessions@ =~= before.update(i as int, sessions[i as int]));
                    lemma_lookup(before, i as int);
                    lemma_update(before, i as int, sessions[i as int]);
                }
                self.sessions = sessions;
            },
            None => {},
        }
    }

    /// A copy of the data of the session under `id`; the initial data where
    /// there is no such session.
    pub fn get_data(&self, id: &str) -> (data: SessionData)
        ensures
            data@ == if self@.dom().contains(id@) {
                self@[id@].data
            } else {
                SessionDataView::initial()
            },
    {
        match self.find(id) {
            Some(i) => self.sessions[i].data.clone(),
            None => SessionData::default(),
        }
    }

    /// Appends a message to the history of the session under `id`, which is
    /// created first if it is missing, and returns the new length of the
    /// history.
    pub fn append_message(&mut self, id: &str, role: MessageRole, content: &str, now: u64) -> (n:
        usize)
        ensures
            final(self)@ == appended(old(self)@, id@, role, content@, now),
            n == final(self)@[id@].messages.len(),
            final(self).time_to_live() == old(self).time_to_live(),
    {
        let found = self.find(id);
        let i = match found {
            Some(i) => i,
            None => {
                self.insert_new(String::from_str(id), now);
                self.sessions.len() - 1
            },
        };
        let mut sessions = self.take_sessions();
        let ghost before = sessions@;
        proof {
            lemma_lookup(before, i as int);
        }
        let message = Message { role, content: String::from_str(content), timestamp: now };
        let ghost entry = message@;
        let ghost history = history_view(before[i as int].messages@);
        sessions[i].messages.push(message);
        if now > sessions[i].last_active {
            sessions[i].last_active = now;
        }
        let n = sessions[i].messages.len();
        proof {
            assert(history_view(sessions[i as int].messages@) =~= history.push(entry));
            assert(sessions@ =~= before.update(i as int, sessions[i as int]));
            lemma_update(before, i as int, sessions[i as int]);
            assert(store_map(sessions@) =~= appended(old(self)@, id@, role, content@, now));
        }
        self.sessions = sessions;
        n
    }

    /// A copy of the history of the session under `id`, or `None` where
    /// there is no such session.
    pub fn get_history(&self, id: &str) -> (history: Option<Vec<Message>>)
        ensures
            history is Some <==> self@.dom().contains(id@),
            history matches Some(h) ==> history_view(h@) == self@[id@].messages,
    {
        match self.find(id) {
            Some(i) => Some(clone_history(&self.sessions[i].messages)),
            None => None,
        }
    }

    /// Removes the session under `id` and says whether there was one.
    pub fn remove_session(&mut self, id: &str) -> (existed: bool)
        ensures
            existed == old(self)@.dom().contains(id@),
            final(self)@ == old(self)@.remove(id@),
            final(self).time_to_live() == old(self).time_to_live(),
    {
        match self.find(id) {
            Some(i) => {
                let mut sessions = self.take_sessions();
                proof {
                    lemma_remove(sessions@, i as int);
                }
                sessions.remove(i);
                self.sessions = sessions;
                true
            },
            None => {
                assert(self@.remove(id@) =~= self@);
                false
            },
        }
    }

    /// The number of sessions.
    pub fn len(&self) -> (n: usize)
        ensures
            self@.dom().finite(),
            n == self@.len(),
    {
        proof {
            use_type_invariant(self);
            lemma_size(self.sessions@);
        }
        self.sessions.len()
    }

    /// The ids of all sessions: each once, in no particular order.
    pub fn list_session_ids(&self) -> (ids: Vec<String>)
        ensures
            ids.len() == self@.len(),
            ids.deep_view().no_duplicates(),
            forall|id: Seq<char>| self@.dom().contains(id) <==> ids.deep_view().contains(id),
    {
        proof {
            use_type_invariant(self);
            lemma_size(self.sessions@);
        }
        let mut ids: Vec<String> = Vec::new();
        let mut i: usize = 0;
        while i < self.sessions.len()
            invariant
                i <= self.sessions.len(),
                ids.len() == i,
                forall|k: int| 0 <= k < i ==> ids[k]@ == self.sessions[k].id@,
            decreases self.sessions.len() - i,
        {
            ids.push(self.sessions[i].id.clone());
            i += 1;
        }
        proof {
            let d = ids.deep_view();
            assert forall|a: int, b: int| 0 <= a < d.len() && 0 <= b < d.len() && a != b implies d[a]
                != d[b] by {
                assert(d[a] == self.sessions[a].id@ && d[b] == self.sessions[b].id@);
            }
            assert forall|id: Seq<char>| self@.dom().contains(id) <==> d.contains(id) by {
                if self@.dom().contains(id) {
                    let k = choose|k: int| 0 <= k < self.sessions.len() && self.sessions[k].id@ == id;
                    assert(d[k] == id);
                }
                if d.contains(id) {
                    let k = choose|k: int| 0 <= k < d.len() && d[k] == id;
                    assert(self.sessions[k].id@ == id);
                }
            }
        }
        ids
    }

    /// Removes every session that has been idle for the time to live or
    /// longer at time `now`, and returns how many were removed. The other
    /// sessions stay as they are.
    pub fn purge_expired(&mut self, now: u64) -> (removed: usize)
        ensures
            final(self)@ == purged(old(self)@, now, old(self).time_to_live()),
            old(self)@.dom().finite(),
            final(self)@.dom().finite(),
            removed == old(self)@.len() - final(self)@.len(),
            final(self).time_to_live() == old(self).time_to_live(),
            (forall|id: Seq<char>|
                old(self)@.dom().contains(id) ==> !old(self)@[id].expired(
                    now,
                    old(self).time_to_live(),
                )) ==> removed == 0 && final(self)@ == old(self)@,
    {
        let ttl = self.ttl;
        let sessions = self.take_sessions();
        let ghost all = sessions@;
        let total = sessions.len();
        let mut kept: Vec<Session> = Vec::new();
        let ghost mut origin: Seq<int> = Seq::empty();
        for session in it: sessions
            invariant
                it.seq() == all,
                origin.len() == kept.len(),
                forall|k: int| 0 <= k < origin.len() ==> 0 <= #[trigger] origin[k] < it.index(),
                forall|k: int, l: int| 0 <= k < l < origin.len() ==> origin[k] < origin[l],
                forall|k: int| 0 <= k < origin.len() ==> kept[k] == all[#[trigger] origin[k]],
                forall|k: int| 0 <= k < origin.len() ==> !all[#[trigger] origin[k]]@.expired(now, ttl),
                forall|j: int| 0 <= j < it.index() && !(#[trigger] all[j])@.expired(now, ttl)
                    ==> exists|k: int| 0 <= k < origin.len() && origin[k] == j,
        {
            let ghost j = it.index() as int;
            if !session.is_expired(now, ttl) {
                kept.push(session);
                proof {
                    let before = origin;
                    origin = origin.push(j);
                    assert forall|i: int| 0 <= i < j + 1 && !(#[trigger] all[i])@.expired(
                        now,
                        ttl,
                    ) implies exists|k: int| 0 <= k < origin.len() && origin[k] == i by {
                        if i < j {
                            let k = choose|k: int| 0 <= k < before.len() && before[k] == i;
                            assert(origin[k] == i);
                        } else {
                            assert(origin[before.len() as int] == i);
                        }
                    }
                }
            }
        }
        proof {
            assert(distinct_ids(kept@)) by {
                assert forall|a: int, b: int|
                    0 <= a < kept.len() && 0 <= b < kept.len() && a != b implies kept[a].id@
                    != kept[b].id@ by {
                    assert(kept[a] == all[origin[a]] && kept[b] == all[origin[b]]);
                    assert(origin[a] != origin[b]) by {
                        if a < b {
                            assert(origin[a] < origin[b]);
                        } else {
                            assert(origin[b] < origin[a]);
                        }
                    }
                }
            }
            let target = purged(store_map(all), now, ttl);
            assert forall|id: Seq<char>| #[trigger]
                store_map(kept@).dom().contains(id) == target.dom().contains(id) by {
                if store_map(kept@).dom().contains(id) {
                    let k = choose|k: int| 0 <= k < kept.len() && kept[k].id@ == id;
                    assert(kept[k] == all[origin[k]]);
                    lemma_lookup(all, origin[k]);
                }
                if target.dom().contains(id) {
                    let j = choose|j: int| 0 <= j < all.len() && all[j].id@ == id;
                    lemma_lookup(all, j);
                    let k = choose|k: int| 0 <= k < origin.len() && origin[k] == j;
                    assert(kept[k] == all[origin[k]]);
                    assert(kept[k].id@ == id);
                }
            }
            assert forall|id: Seq<char>| #[trigger]
                store_map(kept@).dom().contains(id) implies store_map(kept@)[id] == target[id] by {
                let k = choose|k: int| 0 <= k < kept.len() && kept[k].id@ == id;
                lemma_lookup(kept@, k);
                assert(kept[k] == all[origin[k]]);
                lemma_lookup(all, origin[k]);
            }
            assert(store_map(kept@) =~= target);
            lemma_size(all);
            lemma_size(kept@);
            assert(kept.len() <= total) by {
                vstd::set_lib::lemma_len_subset(store_map(kept@).dom(), store_map(all).dom());
            }
            if forall|id: Seq<char>|
                store_map(all).dom().contains(id) ==> !store_map(all)[id].expired(now, ttl) {
                lemma_purge_without_expired(store_map(all), now, ttl);
            }
        }
        let removed = total - kept.len();
        self.sessions = kept;
        removed
    }

} // impl SessionManager

} // verus!
