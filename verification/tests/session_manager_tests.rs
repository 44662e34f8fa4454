use chatbot_backend::services::session_manager::{
    ConversationState, MessageRole, Session, SessionData, SessionManager,
};

#[test]
fn session_manager_basic_session_flow() {
    let mut mgr = SessionManager::new(60_000);
    let sid = mgr.create_session(0);
    assert!(!sid.is_empty());
    let len = mgr.append_message(&sid, MessageRole::User, "hello", 0);
    assert_eq!(len, 1);
    let history = mgr.get_history(&sid).unwrap();
    assert_eq!(history.len(), 1);
    assert!(mgr.remove_session(&sid));
}

#[test]
fn session_manager_tests_basic_session_flow() {
    let mut mgr = SessionManager::new(60_000);
    let sid = mgr.create_session(0);
    assert!(!sid.is_empty());
    let len = mgr.append_message(&sid, MessageRole::User, "hello", 0);
    assert_eq!(len, 1);
    let history = mgr.get_history(&sid).unwrap();
    assert_eq!(history.len(), 1);
    assert!(mgr.remove_session(&sid));
}

#[test]
fn test_session_expiration() {
    let mut mgr = SessionManager::new(10);
    let sid = mgr.create_session(0);

    // 20 ms later the session has expired
    let removed_count = mgr.purge_expired(20);
    assert_eq!(removed_count, 1, "Should have removed 1 expired session");
    assert!(
        !mgr.remove_session(&sid),
        "Session should already be gone"
    );
}

#[test]
fn test_state_and_data_persistence() {
    let mut mgr = SessionManager::new(60_000);
    let sid = mgr.create_session(0);

    // Test State
    assert_eq!(mgr.get_state(&sid), ConversationState::AskingLanguage);
    mgr.set_state(&sid, ConversationState::AskingName, 0);
    assert_eq!(mgr.get_state(&sid), ConversationState::AskingName);

    // Test Data
    let data = SessionData {
        name: Some("Test".to_string()),
        ..Default::default()
    };
    mgr.set_data(&sid, data.clone(), 0);
    let retrieved = mgr.get_data(&sid);
    assert_eq!(retrieved.name, Some("Test".to_string()));
}

#[test]
fn created_ids_are_new_and_distinct() {
    let mut mgr = SessionManager::new(1000);
    let mut ids = Vec::new();
    for i in 0..50u64 {
        let id = mgr.create_session(i);
        assert!(!ids.contains(&id));
        assert_eq!(mgr.get_state(&id), ConversationState::AskingLanguage);
        ids.push(id);
    }
    assert_eq!(mgr.len(), 50);
    let mut listed = mgr.list_session_ids();
    listed.sort();
    ids.sort();
    assert_eq!(listed, ids);
}

#[test]
fn unused_id_keeps_a_free_candidate_and_pads_a_taken_one() {
    let mut mgr = SessionManager::new(1000);
    mgr.ensure_session("abc", 0);
    mgr.ensure_session("a-much-longer-id", 0);
    assert_eq!(mgr.unused_id("free".to_string()), "free");
    assert_eq!(mgr.unused_id("abc".to_string()), "abc--------------");
    assert_eq!(mgr.unused_id("a-much-longer-id".to_string()), "a-much-longer-id-");
    assert!(!mgr.contains("abc--------------"));
}

#[test]
fn ensure_session_is_idempotent() {
    let mut mgr = SessionManager::new(1000);
    assert_eq!(mgr.ensure_session("cookie-1", 5), "cookie-1");
    mgr.set_state("cookie-1", ConversationState::AskingBudget, 6);
    mgr.append_message("cookie-1", MessageRole::User, "hi", 7);
    assert_eq!(mgr.ensure_session("cookie-1", 500), "cookie-1");
    assert_eq!(mgr.len(), 1);
    assert_eq!(mgr.get_state("cookie-1"), ConversationState::AskingBudget);
    assert_eq!(mgr.get_history("cookie-1").unwrap().len(), 1);
    // the second call did not count as activity: last active at 7
    assert_eq!(mgr.purge_expired(1007), 1);
}

#[test]
fn unknown_id_reads_defaults_and_ignores_writes() {
    let mut mgr = SessionManager::new(1000);
    assert_eq!(mgr.get_state("nobody"), ConversationState::AskingLanguage);
    let data = mgr.get_data("nobody");
    assert_eq!(data.language, "en");
    assert_eq!(data.name, None);
    assert!(data.detected_keywords.is_empty());
    assert!(mgr.get_history("nobody").is_none());
    mgr.set_state("nobody", ConversationState::Idle, 1);
    mgr.set_data("nobody", SessionData { name: Some("X".to_string()), ..Default::default() }, 1);
    assert_eq!(mgr.len(), 0);
    assert!(!mgr.contains("nobody"));
    assert!(!mgr.remove_session("nobody"));
}

#[test]
fn empty_history_differs_from_no_session() {
    let mut mgr = SessionManager::new(1000);
    mgr.ensure_session("s", 0);
    assert_eq!(mgr.get_history("s").map(|h| h.len()), Some(0));
    assert!(mgr.get_history("t").is_none());
}

#[test]
fn append_message_creates_the_session_and_keeps_order() {
    let mut mgr = SessionManager::new(1000);
    assert_eq!(mgr.append_message("s", MessageRole::User, "one", 10), 1);
    assert_eq!(mgr.append_message("s", MessageRole::Bot, "two", 11), 2);
    assert_eq!(mgr.append_message("s", MessageRole::User, "three", 12), 3);
    let history = mgr.get_history("s").unwrap();
    assert_eq!(history[0].content, "one");
    assert_eq!(history[0].role, MessageRole::User);
    assert_eq!(history[0].timestamp, 10);
    assert_eq!(history[1].content, "two");
    assert_eq!(history[1].role, MessageRole::Bot);
    assert_eq!(history[2].content, "three");
    assert_eq!(history[2].timestamp, 12);
    assert_eq!(mgr.get_state("s"), ConversationState::AskingLanguage);
}

#[test]
fn history_copy_is_independent() {
    let mut mgr = SessionManager::new(1000);
    mgr.append_message("s", MessageRole::User, "one", 0);
    let mut copy = mgr.get_history("s").unwrap();
    copy[0].content.push_str(" changed");
    copy.clear();
    assert_eq!(mgr.get_history("s").unwrap()[0].content, "one");
}

#[test]
fn purge_removes_exactly_the_expired() {
    let mut mgr = SessionManager::new(100);
    mgr.ensure_session("old", 0);
    mgr.ensure_session("edge", 50);
    mgr.ensure_session("young", 51);
    mgr.set_state("young", ConversationState::AskingEmail, 60);
    mgr.append_message("edge", MessageRole::User, "hello", 50);
    // at 150: old idle 150, edge idle 100 (= ttl, expired), young idle 90
    assert_eq!(mgr.purge_expired(150), 2);
    assert_eq!(mgr.len(), 1);
    assert!(!mgr.contains("old"));
    assert!(!mgr.contains("edge"));
    assert_eq!(mgr.get_state("young"), ConversationState::AskingEmail);
    // nothing expired: nothing happens
    assert_eq!(mgr.purge_expired(150), 0);
    assert_eq!(mgr.purge_expired(159), 0);
    assert_eq!(mgr.len(), 1);
    assert_eq!(mgr.purge_expired(160), 1);
    assert_eq!(mgr.len(), 0);
    assert_eq!(mgr.purge_expired(1000), 0);
}

#[test]
fn activity_postpones_expiry_and_time_never_goes_back() {
    let mut mgr = SessionManager::new(100);
    mgr.ensure_session("s", 0);
    mgr.set_data("s", SessionData::default(), 90);
    assert_eq!(mgr.purge_expired(150), 0);
    // an earlier time does not move the last activity back
    mgr.set_state("s", ConversationState::Idle, 10);
    assert_eq!(mgr.purge_expired(150), 0);
    // a purge with a time before the last activity sees no idle time
    assert_eq!(mgr.purge_expired(5), 0);
    assert_eq!(mgr.purge_expired(190), 1);
}

#[test]
fn zero_time_to_live_expires_at_once() {
    let mut mgr = SessionManager::new(0);
    mgr.ensure_session("s", 10);
    assert_eq!(mgr.purge_expired(10), 1);
    mgr.ensure_session("s", 10);
    assert_eq!(mgr.purge_expired(3), 1);
}

#[test]
fn removed_session_starts_anew_under_the_same_id() {
    let mut mgr = SessionManager::new(100);
    mgr.append_message("s", MessageRole::User, "one", 500);
    mgr.set_state("s", ConversationState::AskingBudget, 500);
    assert!(mgr.remove_session("s"));
    mgr.ensure_session("s", 20);
    assert_eq!(mgr.get_state("s"), ConversationState::AskingLanguage);
    assert_eq!(mgr.get_history("s").unwrap().len(), 0);
    assert_eq!(mgr.purge_expired(120), 1);
}

#[test]
fn new_session_has_entry_state_and_initial_data() {
    let s = Session::new("abc".to_string(), 42);
    assert_eq!(s.id, "abc");
    assert_eq!(s.state, ConversationState::AskingLanguage);
    assert_eq!(s.data.language, "en");
    assert_eq!(s.data.name, None);
    assert_eq!(s.data.email, None);
    assert_eq!(s.data.budget, None);
    assert!(s.data.detected_keywords.is_empty());
    assert!(s.messages.is_empty());
    assert_eq!(s.last_active, 42);
    assert!(!s.is_expired(141, 100));
    assert!(s.is_expired(142, 100));
    assert_eq!(ConversationState::default(), ConversationState::AskingLanguage);
}
