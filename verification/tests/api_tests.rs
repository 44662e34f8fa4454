use chatbot_backend::message::ChatRequest;
use chatbot_backend::services::conversation::{begin_turn, finish_turn, resolve_session, ChatError};
use chatbot_backend::services::metrics_manager::MetricsManager;
use chatbot_backend::services::session_manager::{ConversationState, MessageRole, SessionManager};

fn send(
    sessions: &mut SessionManager,
    metrics: &mut MetricsManager,
    session_id: Option<&str>,
    message: &str,
    now: u64,
) -> (String, String) {
    let request = ChatRequest {
        session_id: session_id.map(|s| s.to_string()),
        message: message.to_string(),
    };
    let pending = begin_turn(sessions, metrics, &request, now).expect("the message is accepted");
    let response = finish_turn(sessions, pending, None, now);
    (response.session_id, response.reply)
}

#[test]
fn test_chat_endpoint() {
    let mut sessions = SessionManager::new(60_000);
    let mut metrics = MetricsManager::new();
    let request = ChatRequest { session_id: None, message: "hello".to_string() };
    let result = begin_turn(&mut sessions, &mut metrics, &request, 0);
    assert!(result.is_ok());
}

#[test]
fn test_stateful_flow_integration() {
    let mut sessions = SessionManager::new(60_000);
    let mut metrics = MetricsManager::new();

    // Select Language
    let (session_id, _) = send(&mut sessions, &mut metrics, None, "English", 0);

    // User asks for website
    let (_, reply) = send(&mut sessions, &mut metrics, Some(&session_id), "I want a website", 1);
    assert!(reply.contains("name")); // Bot should ask for name

    // User sends Name
    let (_, reply) = send(&mut sessions, &mut metrics, Some(&session_id), "Alice", 2);

    // Bot should remember we are in AskingName state and transition to AskingEmail
    assert!(reply.contains("Alice"));
    assert!(reply.contains("email"));
}

#[test]
fn test_reset_command_integration() {
    let mut sessions = SessionManager::new(60_000);
    let mut metrics = MetricsManager::new();

    // Start flow
    let (session_id, _) = send(&mut sessions, &mut metrics, None, "website", 0);

    // Send Reset
    let (_, reply) = send(&mut sessions, &mut metrics, Some(&session_id), "reset", 1);

    assert!(reply.contains("reset"));
}

#[test]
fn empty_message_is_turned_away_after_the_session_was_made() {
    let mut sessions = SessionManager::new(60_000);
    let mut metrics = MetricsManager::new();
    let request = ChatRequest { session_id: Some("s1".to_string()), message: " \n\t ".to_string() };
    let result = begin_turn(&mut sessions, &mut metrics, &request, 0);
    assert_eq!(result.err(), Some(ChatError::EmptyMessage));
    assert_eq!(ChatError::EmptyMessage.message(), "Message cannot be empty");
    assert!(sessions.contains("s1"));
    assert_eq!(sessions.get_history("s1").unwrap().len(), 0);
    assert_eq!(metrics.get_metrics().language_usage.entries().len(), 0);
}

#[test]
fn blank_session_id_gets_a_new_session() {
    let mut sessions = SessionManager::new(60_000);
    let id = resolve_session(&mut sessions, &Some("   ".to_string()), 0);
    assert_ne!(id, "   ");
    assert!(sessions.contains(&id));
    assert!(!sessions.contains("   "));
    let again = resolve_session(&mut sessions, &None, 0);
    assert_ne!(again, id);
    let kept = resolve_session(&mut sessions, &Some(" padded ".to_string()), 0);
    assert_eq!(kept, " padded ");
    assert_eq!(sessions.len(), 3);
}

#[test]
fn a_turn_records_both_messages_and_the_new_state() {
    let mut sessions = SessionManager::new(60_000);
    let mut metrics = MetricsManager::new();
    let (id, reply) = send(&mut sessions, &mut metrics, Some("s"), "  Polski  ", 5);
    assert_eq!(id, "s");
    assert_eq!(reply, "Cześć! W czym mogę pomóc?");
    assert_eq!(sessions.get_state("s"), ConversationState::Idle);
    assert_eq!(sessions.get_data("s").language, "pl");
    let history = sessions.get_history("s").unwrap();
    assert_eq!(history.len(), 2);
    assert_eq!(history[0].role, MessageRole::User);
    assert_eq!(history[0].content, "Polski");
    assert_eq!(history[1].role, MessageRole::Bot);
    assert_eq!(history[1].content, reply);
}

#[test]
fn completed_inquiry_hands_out_the_lead() {
    let mut sessions = SessionManager::new(60_000);
    let mut metrics = MetricsManager::new();
    send(&mut sessions, &mut metrics, Some("s"), "English", 0);
    send(&mut sessions, &mut metrics, Some("s"), "I want a website", 1);
    send(&mut sessions, &mut metrics, Some("s"), "John", 2);
    send(&mut sessions, &mut metrics, Some("s"), "john@test.com", 3);
    let request = ChatRequest { session_id: Some("s".to_string()), message: "5000".to_string() };
    let pending = begin_turn(&mut sessions, &mut metrics, &request, 4).unwrap();
    assert!(pending.lead.is_none());
    finish_turn(&mut sessions, pending, None, 4);

    let request =
        ChatRequest { session_id: Some("s".to_string()), message: "I need a blog".to_string() };
    let pending = begin_turn(&mut sessions, &mut metrics, &request, 5).unwrap();
    let lead = pending.lead.as_ref().expect("the inquiry is complete");
    assert_eq!(lead.name.as_deref(), Some("John"));
    assert_eq!(lead.email.as_deref(), Some("john@test.com"));
    assert_eq!(lead.budget.as_deref(), Some("5000"));
    assert!(lead.detected_keywords.contains(&"blog".to_string()));
    let response = finish_turn(&mut sessions, pending, None, 5);
    assert!(response.reply.contains("5000"));
    assert!(response.reply.contains("REPORT GENERATED"));
    assert_eq!(sessions.get_state("s"), ConversationState::Idle);
    assert!(sessions.get_data("s").detected_keywords.contains(&"blog".to_string()));
}

#[test]
fn responder_answer_becomes_the_reply_and_is_recorded() {
    let mut sessions = SessionManager::new(60_000);
    let mut metrics = MetricsManager::new();
    send(&mut sessions, &mut metrics, Some("s"), "English", 0);
    let request = ChatRequest {
        session_id: Some("s".to_string()),
        message: "Capital of France?".to_string(),
    };
    let pending = begin_turn(&mut sessions, &mut metrics, &request, 1).unwrap();
    let context = pending.turn.consult.as_ref().expect("the responder is asked");
    assert_eq!(context.len(), 3);
    assert_eq!(context[2].content, "Capital of France?");
    let response = finish_turn(&mut sessions, pending, Some("Paris.".to_string()), 2);
    assert_eq!(response.reply, "Paris.");
    let history = sessions.get_history("s").unwrap();
    assert_eq!(history.len(), 4);
    assert_eq!(history[3].content, "Paris.");
    assert_eq!(history[3].role, MessageRole::Bot);
}
