//! What holds of every turn of the dialogue engine, proved from the
//! definition of a turn.

use crate::services::chatbot::{
    absorbed, classify, counted, interrupts, is_reset, is_status, next_turn, settled, valid_name,
    Intent, TurnView,
};
use crate::services::metrics_manager::{bumped, MetricsView};
use crate::services::session_manager::{ConversationState, MessageView, SessionDataView};
use crate::services::text::{trimmed, words};
use crate::services::topics::{learned, lemma_learn_extends, lemma_learn_keeps_distinct};
use vstd::prelude::*;

verus! {

/// A reset is answered from every state, whatever the data and the history,
/// with the entry state and the initial data, and the responder is not
/// asked.
pub proof fn lemma_reset_from_any_state(
    state: ConversationState,
    msg: Seq<char>,
    lowered: Seq<char>,
    data: SessionDataView,
    history: Seq<MessageView>,
)
    requires
        is_reset(msg),
    ensures
        next_turn(state, msg, lowered, data, history).state == ConversationState::entry(),
        next_turn(state, msg, lowered, data, history).data == SessionDataView::initial(),
        next_turn(state, msg, lowered, data, history).consult is None,
{
}

/// A status query changes neither the state nor what the conversation has
/// gathered about the visitor.
pub proof fn lemma_status_keeps_state(
    state: ConversationState,
    msg: Seq<char>,
    lowered: Seq<char>,
    data: SessionDataView,
    history: Seq<MessageView>,
)
    requires
        !is_reset(msg),
        is_status(msg),
    ensures
        next_turn(state, msg, lowered, data, history).state == state,
        next_turn(state, msg, lowered, data, history).data == absorbed(data, lowered),
        next_turn(state, msg, lowered, data, history).data.name == data.name,
        next_turn(state, msg, lowered, data, history).data.email == data.email,
        next_turn(state, msg, lowered, data, history).data.budget == data.budget,
{
}

/// A question for prices or for help in the middle of an inquiry, and one
/// for contact except where an email address is awaited, leaves the state
/// as it is and changes nothing of what the visitor has given.
pub proof fn lemma_interruption_keeps_state(
    state: ConversationState,
    msg: Seq<char>,
    lowered: Seq<char>,
    data: SessionDataView,
    history: Seq<MessageView>,
)
    requires
        !is_reset(msg),
        !is_status(msg),
        state != ConversationState::Idle,
        classify(lowered) == Intent::Pricing || classify(lowered) == Intent::Help || (classify(
            lowered,
        ) == Intent::Contact && state != ConversationState::AskingEmail),
    ensures
        next_turn(state, msg, lowered, data, history).state == state,
        next_turn(state, msg, lowered, data, history).data == absorbed(data, lowered),
        next_turn(state, msg, lowered, data, history).consult is None,
{
}

/// While the name is awaited, an input that is no name leaves the state
/// as it is and sets no name.
pub proof fn lemma_invalid_name_is_asked_again(
    msg: Seq<char>,
    lowered: Seq<char>,
    data: SessionDataView,
    history: Seq<MessageView>,
)
    requires
        !is_reset(msg),
        !is_status(msg),
        !valid_name(trimmed(msg)),
    ensures
        next_turn(ConversationState::AskingName, msg, lowered, data, history).state
            == ConversationState::AskingName,
        next_turn(ConversationState::AskingName, msg, lowered, data, history).data.name
            == data.name,
{
}

/// The responder is asked only for a message that the idle state does not
/// understand, and the conversation then stays idle.
pub proof fn lemma_responder_only_when_idle(
    state: ConversationState,
    msg: Seq<char>,
    lowered: Seq<char>,
    data: SessionDataView,
    history: Seq<MessageView>,
)
    ensures
        next_turn(state, msg, lowered, data, history).consult is Some <==> !is_reset(msg)
            && !is_status(msg) && state == ConversationState::Idle && classify(lowered)
            == Intent::Unknown,
        next_turn(state, msg, lowered, data, history).consult is Some ==> next_turn(
            state,
            msg,
            lowered,
            data,
            history,
        ).state == ConversationState::Idle,
        next_turn(state, msg, lowered, data, history).consult is Some ==> next_turn(
            state,
            msg,
            lowered,
            data,
            history,
        ).consult->0.len() <= 10,
{
}

/// An inquiry is complete exactly when a turn leads from the state that
/// awaits the requirements to the idle state, and that is what every
/// message but a command or an interrupting question does there.
pub proof fn lemma_inquiry_completes(
    msg: Seq<char>,
    lowered: Seq<char>,
    data: SessionDataView,
    history: Seq<MessageView>,
)
    ensures
        next_turn(ConversationState::AskingProjectDetails, msg, lowered, data, history).state
            == ConversationState::Idle <==> !is_reset(msg) && !is_status(msg) && !interrupts(
            ConversationState::AskingProjectDetails,
            classify(lowered),
        ),
{
}

/// The topics of a conversation are never reordered and none is dropped,
/// except where the data starts anew: after a turn the list of topics is
/// empty, or it starts with the list as it was before the turn. Where no
/// topic stood twice before the turn, none does after it.
pub proof fn lemma_topics_are_kept(
    state: ConversationState,
    msg: Seq<char>,
    lowered: Seq<char>,
    data: SessionDataView,
    history: Seq<MessageView>,
)
    ensures
        ({
            let after = next_turn(state, msg, lowered, data, history).data.detected_keywords;
            let before = data.detected_keywords;
            &&& after.len() == 0 || (before.len() <= after.len() && after.take(before.len() as int)
                == before)
            &&& before.no_duplicates() ==> after.no_duplicates()
        }),
{
    let before = data.detected_keywords;
    lemma_learn_extends(before, words(lowered));
    if before.no_duplicates() {
        lemma_learn_keeps_distinct(before, words(lowered));
    }
    let read = absorbed(data, lowered);
    assert(read.detected_keywords == learned(before, lowered));
    let after = next_turn(state, msg, lowered, data, history).data.detected_keywords;
    assert(after == read.detected_keywords || after == Seq::<Seq<char>>::empty());
}

/// Every turn counts its language once: the counter of the language in
/// which the turn is answered goes up, and no other language counter
/// changes.
pub proof fn lemma_language_is_counted_once(
    metrics: MetricsView,
    state: ConversationState,
    msg: Seq<char>,
    lowered: Seq<char>,
    data: SessionDataView,
)
    ensures
        counted(metrics, state, msg, lowered, data).language_usage == bumped(
            metrics.language_usage,
            absorbed(data, lowered).language,
        ),
{
}

/// The intent of a message is counted exactly where it was asked for: in
/// the idle state and for an interrupting question, unless the message is
/// a command. Then the counter under the name of the intent goes up and no
/// other does.
pub proof fn lemma_intent_is_counted_when_asked(
    metrics: MetricsView,
    state: ConversationState,
    msg: Seq<char>,
    lowered: Seq<char>,
    data: SessionDataView,
)
    ensures
        counted(metrics, state, msg, lowered, data).intent_usage == if !is_reset(msg)
            && !is_status(msg) && (state == ConversationState::Idle || interrupts(
            state,
            classify(lowered),
        )) {
            bumped(metrics.intent_usage, classify(lowered).name_text())
        } else {
            metrics.intent_usage
        },
{
}

/// A turn that did not ask the responder, or got no answer from it, ends
/// with its own reply.
pub proof fn lemma_settled_without_answer(turn: TurnView, answer: Option<Seq<char>>)
    requires
        turn.consult is None || answer is None,
    ensures
        settled(turn, answer) == turn.reply,
{
}

} // verus!
