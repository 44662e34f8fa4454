//! One request from its arrival to its reply: the session is found or
//! created, the message is recorded, the engine takes its turn, and the
//! reply is recorded. The free-form responder, where a turn asks for it,
//! is called by the caller between the two halves.

use crate::message::{ChatRequest, ChatResponse};
use crate::services::chatbot::{counted, evaluate_turn, next_turn, settle_turn, settled, Turn};
use crate::services::metrics_manager::MetricsManager;
use crate::services::session_manager::{
    opt_text, ConversationState, MessageRole, SessionData, SessionManager, SessionView,
};
use crate::services::store_model::{appended, ensured, with_data, with_state, StoreView};
use crate::services::text::{lowercase, trim, trimmed};
use vstd::prelude::*;
use vstd::string::*;

verus! {

/// Why a request is turned away.
#[derive(Clone, Copy, Debug, PartialEq, Eq, Structural)]
pub enum ChatError {
    /// The message is empty or holds white space only.
    EmptyMessage,
}

impl ChatError {
    /// What the sender is told.
    pub open spec fn message_text(self) -> Seq<char> {
        "Message cannot be empty"@
    }

    /// What the sender is told.
    pub fn message(&self) -> (r: String)
        ensures
            r@ == self.message_text(),
    {
        String::from_str("Message cannot be empty")
    }
}

/// A request names a session if it carries an id that is more than white
/// space.
pub open spec fn names_session(requested: Option<Seq<char>>) -> bool {
    requested matches Some(id) && trimmed(id).len() > 0
}

/// Whether `id` can be the session of a request: the id that the request
/// names, or else an id that the store did not hold.
pub open spec fn resolves(store: StoreView, requested: Option<Seq<char>>, id: Seq<char>) -> bool {
    if names_session(requested) {
        id == requested->0
    } else {
        !store.dom().contains(id)
    }
}

/// The store once the session of a request is in it under `id`.
pub open spec fn resolved(
    store: StoreView,
    requested: Option<Seq<char>>,
    id: Seq<char>,
    now: u64,
) -> StoreView {
    if names_session(requested) {
        ensured(store, id, now)
    } else {
        store.insert(id, SessionView::fresh(id, now))
    }
}

/// Finds the session of a request: the one it names, created if it is
/// missing, or a new one under a new id.
pub fn resolve_session(sessions: &mut SessionManager, requested: &Option<String>, now: u64) -> (id:
    String)
    ensures
        resolves(old(sessions)@, opt_text(*requested), id@),
        final(sessions)@ == resolved(old(sessions)@, opt_text(*requested), id@, now),
        final(sessions).time_to_live() == old(sessions).time_to_live(),
{
    match requested {
        Some(given) => {
            if !trim(given.as_str()).is_empty() {
                return sessions.ensure_session(given.as_str(), now);
            }
        },
        None => {},
    }
    sessions.create_session(now)
}

/// A turn that awaits the word of the responder, or none.
#[derive(Debug)]
pub struct PendingTurn {
    /// The session of the request.
    pub session_id: String,
    /// What the engine decided.
    pub turn: Turn,
    /// Set where this turn completed an inquiry: the data of the inquiry,
    /// to be stored as a lead and reported on.
    pub lead: Option<SessionData>,
}

/// The store after the first half of a request in the session `id`: the
/// message is at the end of the history, and the state and the data are
/// those that the engine's turn gave.
pub open spec fn store_after_turn(
    store: StoreView,
    id: Seq<char>,
    text: Seq<char>,
    now: u64,
) -> StoreView {
    let recorded = appended(store, id, MessageRole::User, text, now);
    let session = recorded[id];
    let turn = next_turn(session.state, text, lowercase(text), session.data, session.messages);
    with_data(with_state(recorded, id, turn.state, now), id, turn.data, now)
}

/// The first half of a request. The session is found or created; then a
/// message that is empty but for white space is turned away. Otherwise the
/// message, without the white space around it, is recorded in the history,
/// the engine takes its turn on the state, the data and the history of the
/// session, and the new state and data are written back.
pub fn begin_turn(
    sessions: &mut SessionManager,
    metrics: &mut MetricsManager,
    request: &ChatRequest,
    now: u64,
) -> (r: Result<PendingTurn, ChatError>)
    ensures
        final(sessions).time_to_live() == old(sessions).time_to_live(),
        r is Err <==> trimmed(request.message@).len() == 0,
        r is Err ==> final(metrics)@ == old(metrics)@ && exists|id: Seq<char>|
            resolves(old(sessions)@, opt_text(request.session_id), id) && final(sessions)@
                == resolved(old(sessions)@, opt_text(request.session_id), id, now),
        r matches Ok(pending) ==> {
            let id = pending.session_id@;
            let text = trimmed(request.message@);
            let store = resolved(old(sessions)@, opt_text(request.session_id), id, now);
            let session = appended(store, id, MessageRole::User, text, now)[id];
            let turn = next_turn(session.state, text, lowercase(text), session.data, session.messages);
            &&& resolves(old(sessions)@, opt_text(request.session_id), id)
            &&& pending.turn@ == turn
            &&& final(sessions)@ == store_after_turn(store, id, text, now)
            &&& final(metrics)@ == counted(
                old(metrics)@,
                session.state,
                text,
                lowercase(text),
                session.data,
            )
            &&& pending.lead is Some <==> session.state == ConversationState::AskingProjectDetails
                && turn.state == ConversationState::Idle
            &&& pending.lead matches Some(lead) ==> lead@ == turn.data
        },
{
    let session_id = resolve_session(sessions, &request.session_id, now);
    let text = trim(request.message.as_str());
    if text.is_empty() {
        return Err(ChatError::EmptyMessage);
    }
    sessions.append_message(session_id.as_str(), MessageRole::User, text, now);
    let state = sessions.get_state(session_id.as_str());
    let data = sessions.get_data(session_id.as_str());
    let history = match sessions.get_history(session_id.as_str()) {
        Some(history) => history,
        None => Vec::new(),
    };
    let turn = evaluate_turn(state, text, data, &history, metrics);
    sessions.set_state(session_id.as_str(), turn.state, now);
    sessions.set_data(session_id.as_str(), turn.data.clone(), now);
    let lead = if state == ConversationState::AskingProjectDetails && turn.state
        == ConversationState::Idle {
        Some(turn.data.clone())
    } else {
        None
    };
    Ok(PendingTurn { session_id, turn, lead })
}

/// The second half of a request: the turn is settled with the word of the
/// responder, the reply is recorded in the history of the session, and the
/// response is made up.
pub fn finish_turn(
    sessions: &mut SessionManager,
    pending: PendingTurn,
    answer: Option<String>,
    now: u64,
) -> (response: ChatResponse)
    ensures
        response.session_id@ == pending.session_id@,
        response.reply@ == settled(pending.turn@, opt_text(answer)),
        final(sessions)@ == appended(
            old(sessions)@,
            pending.session_id@,
            MessageRole::Bot,
            response.reply@,
            now,
        ),
        final(sessions).time_to_live() == old(sessions).time_to_live(),
{
    let PendingTurn { session_id, turn, lead: _ } = pending;
    let (reply, _, _) = settle_turn(turn, answer);
    sessions.append_message(session_id.as_str(), MessageRole::Bot, reply.as_str(), now);
    ChatResponse { session_id, reply }
}

} // verus!
