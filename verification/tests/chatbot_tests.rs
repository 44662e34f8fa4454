use chatbot_backend::services::chatbot::{
    detect_intent, evaluate_turn, generate_reply, is_valid_name, settle_turn, Intent,
};
use chatbot_backend::services::metrics_manager::MetricsManager;
use chatbot_backend::services::session_manager::{
    ConversationState, Message, MessageRole, SessionData,
};

#[test]
fn test_detect_intent() {
    assert_eq!(detect_intent("Hello there"), Intent::Greeting);
    assert_eq!(detect_intent("I want a web site"), Intent::WebsiteRequest);
    assert_eq!(detect_intent("What is the price?"), Intent::Pricing);
    assert_eq!(detect_intent("Give me your email"), Intent::Contact);
    assert_eq!(detect_intent("I need help"), Intent::Help);
    assert_eq!(
        detect_intent("What services do you offer?"),
        Intent::Services
    );
    assert_eq!(detect_intent("random text"), Intent::Unknown);
}

#[test]
fn test_conversation_flow() {
    let data = SessionData::default();
    let mut metrics = MetricsManager::new();
    let (reply, state, data) = generate_reply(
        ConversationState::Idle,
        "I want a web site",
        data,
        vec![],
        &mut metrics,
    );
    assert_eq!(state, ConversationState::AskingName);
    assert!(reply.contains("name"));

    // Name
    let (reply, state, data) = generate_reply(state, "John", data, vec![], &mut metrics);
    assert_eq!(state, ConversationState::AskingEmail);
    assert_eq!(data.name.as_deref(), Some("John"));
    assert!(reply.contains("John"));
    assert!(reply.contains("email"));

    // Email
    let (reply, state, data) = generate_reply(state, "john@test.com", data, vec![], &mut metrics);
    assert_eq!(state, ConversationState::AskingBudget);
    assert_eq!(data.email.as_deref(), Some("john@test.com"));
    assert!(reply.contains("budget"));

    // Budget
    let (reply, state, data) = generate_reply(state, "5000", data, vec![], &mut metrics);
    assert_eq!(state, ConversationState::AskingProjectDetails);
    assert!(reply.contains("requirements"));

    // Finish
    let (reply, state, _data) = generate_reply(state, "I need a blog", data, vec![], &mut metrics);
    assert_eq!(state, ConversationState::Idle);
    assert!(reply.contains("REPORT GENERATED"));
    assert!(reply.contains("5000"));
}

#[test]
fn test_interruption_logic() {
    let data = SessionData::default();
    let mut metrics = MetricsManager::new();
    // Start
    let (_reply, state, data) =
        generate_reply(ConversationState::Idle, "website", data, vec![], &mut metrics);
    assert_eq!(state, ConversationState::AskingName);

    // Interrupt with pricing question
    let (reply, state, data) =
        generate_reply(state, "what is the price?", data, vec![], &mut metrics);
    assert_eq!(state, ConversationState::AskingName);
    assert!(reply.contains("$1000")); // Should answer
    assert!(reply.contains("name")); // Should remind user to give the name

    // Resume flow
    let (_reply, state, _) = generate_reply(state, "John", data, vec![], &mut metrics);
    assert_eq!(state, ConversationState::AskingEmail);
}

#[test]
fn test_name_validation() {
    assert!(is_valid_name("John Doe"));
    assert!(is_valid_name("Jean-Pierre"));
    // Contains numbers
    assert!(!is_valid_name("User123"));
    // Empty
    assert!(!is_valid_name(""));
    // Too short
    assert!(!is_valid_name("A"));
}

#[test]
fn test_keyword_extraction_and_report() {
    let data = SessionData::default();
    let mut metrics = MetricsManager::new();
    let (_, _, data) = generate_reply(
        ConversationState::Idle,
        "I need a Rust backend API",
        data,
        vec![],
        &mut metrics,
    );

    assert!(data.detected_keywords.contains(&"rust".to_string()));
    assert!(data.detected_keywords.contains(&"api".to_string()));
    assert!(!data.detected_keywords.contains(&"python".to_string()));
}

#[test]
fn test_project_confirmation_flow() {
    let data = SessionData::default();
    let mut metrics = MetricsManager::new();
    // Ask for price
    let (reply, state, data) =
        generate_reply(ConversationState::Idle, "price", data, vec![], &mut metrics);
    assert_eq!(state, ConversationState::AskingProjectConfirmation);
    assert!(reply.contains("start a project inquiry"));

    let (reply, state, _) = generate_reply(state, "yes", data, vec![], &mut metrics);
    assert_eq!(state, ConversationState::AskingName);
    assert!(reply.contains("name"));
}

#[test]
fn test_services_intent() {
    let data = SessionData::default();
    let mut metrics = MetricsManager::new();
    let (reply, state, _) = generate_reply(
        ConversationState::Idle,
        "what service do you offer?",
        data,
        vec![],
        &mut metrics,
    );
    assert_eq!(state, ConversationState::Idle);
    assert!(reply.contains("Web Development"));
}

#[test]
fn test_classic_and_ai_response() {
    let data = SessionData::default();
    let mut metrics = MetricsManager::new();

    // Test Classic Response
    let (reply, state, _) = generate_reply(
        ConversationState::Idle,
        "help",
        data.clone(),
        vec![],
        &mut metrics,
    );
    assert_eq!(state, ConversationState::Idle);
    assert!(reply.contains("pricing, contact info"));

    // "Capital of France?" is not a known intent, so it goes to the responder
    let question = "Capital of France?";
    let history = vec![Message {
        role: MessageRole::User,
        content: question.to_string(),
        timestamp: 0,
    }];
    let (reply, _state, _) =
        generate_reply(ConversationState::Idle, question, data, history, &mut metrics);

    let reply_lower = reply.to_lowercase();
    let is_ai_reply = reply_lower.contains("paris") || reply_lower.contains("assist");
    let is_fallback = reply.contains("I didn't quite catch that");

    assert!(
        is_ai_reply || is_fallback,
        "AI response unexpected. Got: '{}'",
        reply
    );
}

#[test]
fn test_language_switching_spanish() {
    let data = SessionData::default();
    let mut metrics = MetricsManager::new();
    let (reply, state, data) =
        generate_reply(ConversationState::Idle, "hola", data, vec![], &mut metrics);
    assert_eq!(state, ConversationState::Idle);
    assert_eq!(data.language, "es");
    assert!(reply.contains("Hola"));
}

#[test]
fn test_language_switching_polish_keyword() {
    let data = SessionData::default();
    let mut metrics = MetricsManager::new();

    // Say "cześć" should switch to PL
    let (reply, state, data) =
        generate_reply(ConversationState::Idle, "cześć", data, vec![], &mut metrics);
    assert_eq!(state, ConversationState::Idle);
    assert_eq!(data.language, "pl");
    assert!(reply.contains("Cześć"));

    // Say "strona" continue in PL
    let (reply, state, data) = generate_reply(state, "strona", data, vec![], &mut metrics);
    assert_eq!(state, ConversationState::AskingName);
    assert_eq!(data.language, "pl");
    assert!(reply.contains("Chętnie pomożemy"));
}

#[test]
fn test_language_switching_french() {
    let data = SessionData::default();
    let mut metrics = MetricsManager::new();
    let (reply, state, data) =
        generate_reply(ConversationState::Idle, "bonjour", data, vec![], &mut metrics);
    assert_eq!(state, ConversationState::Idle);
    assert_eq!(data.language, "fr");
    assert!(reply.contains("Bonjour"));
}

#[test]
fn test_metrics_increment() {
    let data = SessionData::default();
    let mut metrics = MetricsManager::new();

    // "price" triggers Intent::Pricing and language "en"
    let (_reply, _state, _data) = generate_reply(
        ConversationState::Idle,
        "price",
        data.clone(),
        vec![],
        &mut metrics,
    );

    let metrics_data = metrics.get_metrics();

    assert_eq!(metrics_data.intent_usage.get("Pricing"), Some(1));
    assert_eq!(metrics_data.language_usage.get("en"), Some(1));
}

fn all_states() -> Vec<ConversationState> {
    vec![
        ConversationState::AskingLanguage,
        ConversationState::Idle,
        ConversationState::AskingName,
        ConversationState::AskingEmail,
        ConversationState::AskingBudget,
        ConversationState::AskingProjectDetails,
        ConversationState::AskingProjectConfirmation,
    ]
}

fn filled_data() -> SessionData {
    SessionData {
        language: "fr".to_string(),
        name: Some("Jean".to_string()),
        email: Some("jean@test.fr".to_string()),
        budget: Some("3000".to_string()),
        detected_keywords: vec!["blog".to_string()],
    }
}

#[test]
fn reset_from_every_state_gives_entry_state_and_initial_data() {
    for state in all_states() {
        for msg in ["reset", "RESET", "  Reset \n", "cancel", "\tCanCel "] {
            let mut metrics = MetricsManager::new();
            let (reply, next, data) = generate_reply(state, msg, filled_data(), vec![], &mut metrics);
            assert_eq!(next, ConversationState::AskingLanguage);
            assert_eq!(data.language, "en");
            assert_eq!(data.name, None);
            assert_eq!(data.email, None);
            assert_eq!(data.budget, None);
            assert!(data.detected_keywords.is_empty());
            assert_eq!(reply, "La conversation a été réinitialisée. Recommençons.");
        }
    }
}

#[test]
fn reset_inside_a_sentence_is_no_reset() {
    let mut metrics = MetricsManager::new();
    let (_, state, data) = generate_reply(
        ConversationState::AskingBudget,
        "please reset it",
        filled_data(),
        vec![],
        &mut metrics,
    );
    assert_eq!(state, ConversationState::AskingBudget);
    assert_eq!(data.name.as_deref(), Some("Jean"));
}

#[test]
fn status_names_the_state_and_changes_nothing() {
    for state in all_states() {
        let mut metrics = MetricsManager::new();
        let (reply, next, data) =
            generate_reply(state, " Status ", SessionData::default(), vec![], &mut metrics);
        assert_eq!(next, state);
        assert_eq!(data.language, "en");
        assert_eq!(data.name, None);
        assert!(data.detected_keywords.is_empty());
        assert_eq!(reply, format!("Current step: {:?}", state));
        assert_eq!(metrics.get_metrics().intent_usage.entries().len(), 0);
        assert_eq!(metrics.get_metrics().language_usage.get("en"), Some(1));
    }
}

#[test]
fn invalid_name_stays_in_asking_name() {
    let mut metrics = MetricsManager::new();
    let (reply, state, data) = generate_reply(
        ConversationState::AskingName,
        "User123",
        SessionData::default(),
        vec![],
        &mut metrics,
    );
    assert_eq!(state, ConversationState::AskingName);
    assert_eq!(data.name, None);
    assert_eq!(
        reply,
        "That does not look like a name. Please use letters, spaces, hyphens or apostrophes only."
    );
}

#[test]
fn name_is_stored_without_surrounding_white_space() {
    let mut metrics = MetricsManager::new();
    let (reply, state, data) = generate_reply(
        ConversationState::AskingName,
        "  Anne-Marie O'Neil \n",
        SessionData::default(),
        vec![],
        &mut metrics,
    );
    assert_eq!(state, ConversationState::AskingEmail);
    assert_eq!(data.name.as_deref(), Some("Anne-Marie O'Neil"));
    assert_eq!(reply, "Nice to meet you, Anne-Marie O'Neil! What is your email address?");
}

#[test]
fn email_without_at_sign_is_asked_again() {
    let mut metrics = MetricsManager::new();
    let (reply, state, data) = generate_reply(
        ConversationState::AskingEmail,
        "john at test dot com",
        SessionData::default(),
        vec![],
        &mut metrics,
    );
    assert_eq!(state, ConversationState::AskingEmail);
    assert_eq!(data.email, None);
    assert!(reply.contains("email address"));
}

#[test]
fn contact_words_do_not_interrupt_while_email_is_awaited() {
    let mut metrics = MetricsManager::new();
    let (_, state, data) = generate_reply(
        ConversationState::AskingEmail,
        "my email is john@test.com",
        SessionData::default(),
        vec![],
        &mut metrics,
    );
    assert_eq!(state, ConversationState::AskingBudget);
    assert_eq!(data.email.as_deref(), Some("my email is john@test.com"));
    assert_eq!(metrics.get_metrics().intent_usage.entries().len(), 0);

    let mut metrics = MetricsManager::new();
    let (reply, state, _) = generate_reply(
        ConversationState::AskingBudget,
        "what is your email?",
        SessionData::default(),
        vec![],
        &mut metrics,
    );
    assert_eq!(state, ConversationState::AskingBudget);
    assert!(reply.contains("contact@example.com"));
    assert!(reply.contains("budget"));
    assert_eq!(metrics.get_metrics().intent_usage.get("Contact"), Some(1));
}

#[test]
fn help_interrupts_with_reminder() {
    let mut metrics = MetricsManager::new();
    let (reply, state, _) = generate_reply(
        ConversationState::AskingProjectDetails,
        "help",
        SessionData::default(),
        vec![],
        &mut metrics,
    );
    assert_eq!(state, ConversationState::AskingProjectDetails);
    assert!(reply.contains("pricing, contact info"));
    assert!(reply.ends_with("Now, back to your project: please describe your requirements."));
    assert_eq!(metrics.get_metrics().intent_usage.get("Help"), Some(1));
}

#[test]
fn budget_without_digit_is_asked_again() {
    let mut metrics = MetricsManager::new();
    let (reply, state, data) = generate_reply(
        ConversationState::AskingBudget,
        "not sure yet",
        SessionData::default(),
        vec![],
        &mut metrics,
    );
    assert_eq!(state, ConversationState::AskingBudget);
    assert_eq!(data.budget, None);
    assert_eq!(reply, "Please give your budget with a number, for example 5000.");

    let (_, state, data) = generate_reply(
        ConversationState::AskingBudget,
        " about 2k euros ",
        SessionData::default(),
        vec![],
        &mut metrics,
    );
    assert_eq!(state, ConversationState::AskingProjectDetails);
    assert_eq!(data.budget.as_deref(), Some("about 2k euros"));
}

#[test]
fn summary_shows_placeholders_and_upper_case_topics() {
    let mut metrics = MetricsManager::new();
    let (reply, state, data) = generate_reply(
        ConversationState::AskingProjectDetails,
        "a blog with seo and a blog again",
        SessionData::default(),
        vec![],
        &mut metrics,
    );
    assert_eq!(state, ConversationState::Idle);
    assert_eq!(data.detected_keywords, vec!["blog".to_string(), "seo".to_string()]);
    assert_eq!(
        reply,
        "REPORT GENERATED. Here is the summary of your request:\nName: Unknown\nEmail: N/A\nBudget: N/A\nTopics: BLOG, SEO\nWe will get back to you soon."
    );

    let (reply, _, _) = generate_reply(
        ConversationState::AskingProjectDetails,
        "something nice",
        SessionData {
            name: Some("John".to_string()),
            email: Some("john@test.com".to_string()),
            budget: Some("5000".to_string()),
            ..Default::default()
        },
        vec![],
        &mut metrics,
    );
    assert_eq!(
        reply,
        "REPORT GENERATED. Here is the summary of your request:\nName: John\nEmail: john@test.com\nBudget: 5000\nTopics: General inquiry\nWe will get back to you soon."
    );
}

#[test]
fn keywords_accumulate_in_order_and_once() {
    let mut metrics = MetricsManager::new();
    let (_, state, data) = generate_reply(
        ConversationState::Idle,
        "I need a Rust backend API",
        SessionData::default(),
        vec![],
        &mut metrics,
    );
    let (_, state, data) = generate_reply(state, "and also Python", data, vec![], &mut metrics);
    let (_, _, data) =
        generate_reply(state, "python, RUST and the api, please", data, vec![], &mut metrics);
    assert_eq!(
        data.detected_keywords,
        vec![
            "rust".to_string(),
            "backend".to_string(),
            "api".to_string(),
            "python".to_string()
        ]
    );
}

#[test]
fn topics_are_whole_words_only() {
    let mut metrics = MetricsManager::new();
    let (_, _, data) = generate_reply(
        ConversationState::Idle,
        "Capital of France? rusty apis",
        SessionData::default(),
        vec![],
        &mut metrics,
    );
    assert!(data.detected_keywords.is_empty());
}

#[test]
fn website_request_keeps_only_the_language() {
    let mut metrics = MetricsManager::new();
    let (reply, state, data) = generate_reply(
        ConversationState::Idle,
        "je voudrais un site web",
        filled_data(),
        vec![],
        &mut metrics,
    );
    assert_eq!(state, ConversationState::AskingName);
    assert_eq!(data.language, "fr");
    assert_eq!(data.name, None);
    assert_eq!(data.email, None);
    assert_eq!(data.budget, None);
    assert!(data.detected_keywords.is_empty());
    assert!(reply.starts_with("Parfait"));
}

#[test]
fn confirmation_declined_returns_to_idle() {
    let mut metrics = MetricsManager::new();
    let (reply, state, data) = generate_reply(
        ConversationState::AskingProjectConfirmation,
        "no thanks",
        filled_data(),
        vec![],
        &mut metrics,
    );
    assert_eq!(state, ConversationState::Idle);
    assert_eq!(data.name.as_deref(), Some("Jean"));
    assert_eq!(reply, "Pas de problème. Dites-moi si je peux faire autre chose pour vous.");

    // "si" inside a word is no yes; "Si" alone is
    let (_, state, _) = generate_reply(
        ConversationState::AskingProjectConfirmation,
        "possibly",
        SessionData::default(),
        vec![],
        &mut metrics,
    );
    assert_eq!(state, ConversationState::Idle);
    let (_, state, _) = generate_reply(
        ConversationState::AskingProjectConfirmation,
        "Si, claro",
        SessionData::default(),
        vec![],
        &mut metrics,
    );
    assert_eq!(state, ConversationState::AskingName);
}

#[test]
fn language_is_chosen_by_name_code_or_words() {
    for (msg, code, greeting) in [
        ("English", "en", "Hello"),
        ("Polski", "pl", "Cześć"),
        (" FR ", "fr", "Bonjour"),
        ("hola", "es", "¡Hola!"),
        ("je parle français", "fr", "Bonjour"),
    ] {
        let mut metrics = MetricsManager::new();
        let (reply, state, data) = generate_reply(
            ConversationState::AskingLanguage,
            msg,
            SessionData::default(),
            vec![],
            &mut metrics,
        );
        assert_eq!(state, ConversationState::Idle);
        assert_eq!(data.language, code);
        assert!(reply.starts_with(greeting));
    }
    let mut metrics = MetricsManager::new();
    let (reply, state, data) = generate_reply(
        ConversationState::AskingLanguage,
        "42",
        SessionData::default(),
        vec![],
        &mut metrics,
    );
    assert_eq!(state, ConversationState::AskingLanguage);
    assert_eq!(data.language, "en");
    assert!(reply.contains("English, Français, Polski, Español"));
}

#[test]
fn unknown_language_code_is_answered_in_english() {
    let mut metrics = MetricsManager::new();
    let data = SessionData { language: "de".to_string(), ..Default::default() };
    let (reply, _, data) = generate_reply(ConversationState::Idle, "xyz", data, vec![], &mut metrics);
    assert_eq!(data.language, "de");
    assert_eq!(reply, "I didn't quite catch that. Could you rephrase it, or type 'help'?");
    assert_eq!(metrics.get_metrics().language_usage.get("de"), Some(1));
    assert_eq!(metrics.get_metrics().intent_usage.get("Unknown"), Some(1));
}

#[test]
fn unknown_message_asks_the_responder_with_recent_history() {
    let mut history = Vec::new();
    for i in 0..12u64 {
        history.push(Message {
            role: if i % 2 == 0 { MessageRole::User } else { MessageRole::Bot },
            content: format!("message {}", i),
            timestamp: i,
        });
    }
    let mut metrics = MetricsManager::new();
    let turn = evaluate_turn(
        ConversationState::Idle,
        "Capital of France?",
        SessionData::default(),
        &history,
        &mut metrics,
    );
    assert_eq!(turn.state, ConversationState::Idle);
    let context = turn.consult.as_ref().expect("the responder is asked");
    assert_eq!(context.len(), 10);
    assert_eq!(context[0].content, "message 2");
    assert_eq!(context[9].content, "message 11");
    assert_eq!(context[9].role, MessageRole::Bot);
    assert_eq!(context[9].timestamp, 11);

    let (reply, state, _) = settle_turn(turn, Some("Paris.".to_string()));
    assert_eq!(reply, "Paris.");
    assert_eq!(state, ConversationState::Idle);
}

#[test]
fn responder_is_not_heard_where_it_was_not_asked() {
    let mut metrics = MetricsManager::new();
    let turn = evaluate_turn(
        ConversationState::Idle,
        "hello",
        SessionData::default(),
        &Vec::new(),
        &mut metrics,
    );
    assert!(turn.consult.is_none());
    let (reply, _, _) = settle_turn(turn, Some("Paris.".to_string()));
    assert_eq!(reply, "Hello! How can I help you today?");

    let turn = evaluate_turn(
        ConversationState::Idle,
        "Capital of France?",
        SessionData::default(),
        &Vec::new(),
        &mut metrics,
    );
    assert_eq!(turn.consult.as_ref().map(|c| c.len()), Some(0));
    let (reply, _, _) = settle_turn(turn, None);
    assert_eq!(reply, "I didn't quite catch that. Could you rephrase it, or type 'help'?");
}

#[test]
fn intent_is_found_whatever_the_case_and_inside_words() {
    assert_eq!(detect_intent("HELLO"), Intent::Greeting);
    assert_eq!(detect_intent("CZEŚĆ"), Intent::Greeting);
    // "hi" inside "this" counts as a greeting
    assert_eq!(detect_intent("this is odd"), Intent::Greeting);
    // greeting comes before pricing
    assert_eq!(detect_intent("hello, what is the price?"), Intent::Greeting);
    assert_eq!(detect_intent("E-Commerce"), Intent::WebsiteRequest);
    assert_eq!(detect_intent(""), Intent::Unknown);
}

#[test]
fn intent_names() {
    assert_eq!(Intent::Greeting.name(), "Greeting");
    assert_eq!(Intent::WebsiteRequest.name(), "WebsiteRequest");
    assert_eq!(Intent::Pricing.name(), "Pricing");
    assert_eq!(Intent::Contact.name(), "Contact");
    assert_eq!(Intent::Help.name(), "Help");
    assert_eq!(Intent::Services.name(), "Services");
    assert_eq!(Intent::Unknown.name(), "Unknown");
}

#[test]
fn names_with_letters_of_any_script() {
    assert!(is_valid_name("Zoë"));
    assert!(is_valid_name("Łukasz Żak"));
    assert!(is_valid_name("O'Neil"));
    assert!(!is_valid_name("John_Doe"));
    assert!(!is_valid_name("J."));
    assert!(is_valid_name("  "));
}
