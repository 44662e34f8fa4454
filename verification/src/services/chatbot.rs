//! The dialogue engine: what a message means and how a conversation moves
//! on. A message is read in its lower-case form; what it asks for is found
//! by looking for the words of the lexicon in it.

use crate::services::lexicon::{
    affirmative_list, affirmative_words, contact_list, contact_words, english_marker_list,
    english_marker_words, english_name_list, english_name_words, french_marker_list,
    french_marker_words, french_name_list, french_name_words, greeting_list, greeting_words,
    help_list, help_words, polish_marker_list, polish_marker_words, polish_name_list,
    polish_name_words, pricing_list, pricing_words, services_list, services_words,
    spanish_marker_list, spanish_marker_words, spanish_name_list, spanish_name_words, website_list,
    website_words,
};
use crate::services::localization::{
    phrase, phrase_in, Language, MessageKey, CODE_EN, CODE_ES, CODE_FR, CODE_PL, LANGUAGE_PROMPT,
};
use crate::services::metrics_manager::{MetricsManager, MetricsView};
use crate::services::session_manager::{
    history_view, opt_text, ConversationState, Message, MessageView, SessionData, SessionDataView,
};
use crate::services::text::{
    alphabetic, chars_of, contains_any, contains_any_of, eq_ignoring_ascii_case, is_alphabetic,
    is_decimal_digit, is_digit, is_space, is_whitespace, join, joined, lowercase, position_in,
    rows, same_chars, same_ignoring_ascii_case, to_lower, to_upper, trim, trimmed, trimmed_chars,
    uppercase, words, words_of,
};
use crate::services::topics::{learn_topics, learned};
use vstd::prelude::*;
use vstd::string::*;

verus! {

/// What a message asks for.
#[derive(Clone, Copy, Debug, PartialEq, Eq, Structural)]
pub enum Intent {
    Greeting,
    WebsiteRequest,
    Pricing,
    Contact,
    Help,
    Services,
    Unknown,
}

impl Intent {
    /// The name under which the intent is counted.
    pub open spec fn name_text(self) -> Seq<char> {
        match self {
            Intent::Greeting => "Greeting"@,
            Intent::WebsiteRequest => "WebsiteRequest"@,
            Intent::Pricing => "Pricing"@,
            Intent::Contact => "Contact"@,
            Intent::Help => "Help"@,
            Intent::Services => "Services"@,
            Intent::Unknown => "Unknown"@,
        }
    }

    /// The name under which the intent is counted.
    pub fn name(self) -> (r: &'static str)
        ensures
            r@ == self.name_text(),
    {
        match self {
            Intent::Greeting => "Greeting",
            Intent::WebsiteRequest => "WebsiteRequest",
            Intent::Pricing => "Pricing",
            Intent::Contact => "Contact",
            Intent::Help => "Help",
            Intent::Services => "Services",
            Intent::Unknown => "Unknown",
        }
    }
}

/// The intent of a message in lower case: the first of greeting, website
/// request, pricing, contact, help and services one of whose words is a part
/// of the message, and unknown where there is none. A word counts wherever
/// it stands, inside a longer word too.
pub open spec fn classify(lowered: Seq<char>) -> Intent {
    if contains_any(lowered, greeting_words()) {
        Intent::Greeting
    } else if contains_any(lowered, website_words()) {
        Intent::WebsiteRequest
    } else if contains_any(lowered, pricing_words()) {
        Intent::Pricing
    } else if contains_any(lowered, contact_words()) {
        Intent::Contact
    } else if contains_any(lowered, help_words()) {
        Intent::Help
    } else if contains_any(lowered, services_words()) {
        Intent::Services
    } else {
        Intent::Unknown
    }
}

/// The intent of a message whose lower-case form has the characters
/// `lowered`.
pub fn classify_chars(lowered: &Vec<char>) -> (intent: Intent)
    ensures
        intent == classify(lowered@),
{
    if contains_any_of(lowered, &greeting_list()) {
        Intent::Greeting
    } else if contains_any_of(lowered, &website_list()) {
        Intent::WebsiteRequest
    } else if contains_any_of(lowered, &pricing_list()) {
        Intent::Pricing
    } else if contains_any_of(lowered, &contact_list()) {
        Intent::Contact
    } else if contains_any_of(lowered, &help_list()) {
        Intent::Help
    } else if contains_any_of(lowered, &services_list()) {
        Intent::Services
    } else {
        Intent::Unknown
    }
}

/// The intent of a message that is already in lower case.
pub fn classify_lowered(lowered: &str) -> (intent: Intent)
    ensures
        intent == classify(lowered@),
{
    let chars = chars_of(lowered);
    classify_chars(&chars)
}

/// The intent of a message, whatever the case of its letters.
pub fn detect_intent(msg: &str) -> (intent: Intent)
    ensures
        intent == classify(lowercase(msg@)),
{
    let lowered = to_lower(msg);
    classify_lowered(lowered.as_str())
}

/// The language that the words of a message in lower case show: Polish,
/// French, Spanish or English, the first of them one of whose marker words
/// is a part of the message.
pub open spec fn infer_language(lowered: Seq<char>) -> Option<Language> {
    if contains_any(lowered, polish_marker_words()) {
        Some(Language::Polish)
    } else if contains_any(lowered, french_marker_words()) {
        Some(Language::French)
    } else if contains_any(lowered, spanish_marker_words()) {
        Some(Language::Spanish)
    } else if contains_any(lowered, english_marker_words()) {
        Some(Language::English)
    } else {
        None
    }
}

/// The language that the words of a message in lower case show.
pub fn infer_language_of(lowered: &Vec<char>) -> (r: Option<Language>)
    ensures
        r == infer_language(lowered@),
{
    if contains_any_of(lowered, &polish_marker_list()) {
        Some(Language::Polish)
    } else if contains_any_of(lowered, &french_marker_list()) {
        Some(Language::French)
    } else if contains_any_of(lowered, &spanish_marker_list()) {
        Some(Language::Spanish)
    } else if contains_any_of(lowered, &english_marker_list()) {
        Some(Language::English)
    } else {
        None
    }
}

/// The language that a message in lower case names.
pub open spec fn named_language(lowered: Seq<char>) -> Option<Language> {
    if contains_any(lowered, polish_name_words()) {
        Some(Language::Polish)
    } else if contains_any(lowered, french_name_words()) {
        Some(Language::French)
    } else if contains_any(lowered, spanish_name_words()) {
        Some(Language::Spanish)
    } else if contains_any(lowered, english_name_words()) {
        Some(Language::English)
    } else {
        None
    }
}

/// The language whose code a word is.
pub open spec fn coded_language(word: Seq<char>) -> Option<Language> {
    if word == CODE_PL@ {
        Some(Language::Polish)
    } else if word == CODE_FR@ {
        Some(Language::French)
    } else if word == CODE_ES@ {
        Some(Language::Spanish)
    } else if word == CODE_EN@ {
        Some(Language::English)
    } else {
        None
    }
}

/// The language that the visitor chooses with a message in lower case: the
/// one that the message names; else the one whose code the message is,
/// white space around it aside; else the one that its words show.
pub open spec fn chosen_language(lowered: Seq<char>) -> Option<Language> {
    if named_language(lowered) is Some {
        named_language(lowered)
    } else if coded_language(trimmed(lowered)) is Some {
        coded_language(trimmed(lowered))
    } else {
        infer_language(lowered)
    }
}

/// The language that the visitor chooses with a message whose lower-case
/// form has the characters `lowered`.
pub fn choose_language(lowered: &Vec<char>) -> (r: Option<Language>)
    ensures
        r == chosen_language(lowered@),
{
    let named = if contains_any_of(lowered, &polish_name_list()) {
        Some(Language::Polish)
    } else if contains_any_of(lowered, &french_name_list()) {
        Some(Language::French)
    } else if contains_any_of(lowered, &spanish_name_list()) {
        Some(Language::Spanish)
    } else if contains_any_of(lowered, &english_name_list()) {
        Some(Language::English)
    } else {
        None
    };
    if named.is_some() {
        return named;
    }
    let word = trimmed_chars(lowered);
    let coded = if same_chars(&word, &chars_of(CODE_PL)) {
        Some(Language::Polish)
    } else if same_chars(&word, &chars_of(CODE_FR)) {
        Some(Language::French)
    } else if same_chars(&word, &chars_of(CODE_ES)) {
        Some(Language::Spanish)
    } else if same_chars(&word, &chars_of(CODE_EN)) {
        Some(Language::English)
    } else {
        None
    };
    if coded.is_some() {
        return coded;
    }
    infer_language_of(lowered)
}

/// A character that may stand in a name: a letter, white space, a hyphen
/// or an apostrophe.
pub open spec fn name_char(c: char) -> bool {
    alphabetic(c) || is_space(c) || c == '-' || c == '\''
}

/// A name: two characters or more, each of which may stand in a name.
pub open spec fn valid_name(name: Seq<char>) -> bool {
    &&& name.len() > 1
    &&& forall|i: int| 0 <= i < name.len() ==> name_char(#[trigger] name[i])
}

/// Whether a character may stand in a name, given whether it is a letter.
pub fn allowed_in_name(c: char, letter: bool) -> (r: bool)
    ensures
        r == (letter || is_space(c) || c == '-' || c == '\''),
{
    letter || is_whitespace(c) || c == '-' || c == '\''
}

/// Whether `name` is a name: two characters or more, all of them letters,
/// white space, hyphens or apostrophes.
pub fn is_valid_name(name: &str) -> (r: bool)
    ensures
        r == valid_name(name@),
{
    let chars = chars_of(name);
    if chars.len() < 2 {
        return false;
    }
    let mut i: usize = 0;
    while i < chars.len()
        invariant
            i <= chars.len(),
            chars@ == name@,
            forall|k: int| 0 <= k < i ==> name_char(#[trigger] chars[k]),
        decreases chars.len() - i,
    {
        if !allowed_in_name(chars[i], is_alphabetic(chars[i])) {
            return false;
        }
        i += 1;
    }
    true
}

/// Whether a text holds the character `c`.
pub fn has_char(chars: &Vec<char>, c: char) -> (r: bool)
    ensures
        r == chars@.contains(c),
{
    let mut i: usize = 0;
    while i < chars.len()
        invariant
            i <= chars.len(),
            forall|k: int| 0 <= k < i ==> chars[k] != c,
        decreases chars.len() - i,
    {
        if chars[i] == c {
            return true;
        }
        i += 1;
    }
    false
}

/// A text that holds a decimal digit.
pub open spec fn has_digit(s: Seq<char>) -> bool {
    exists|i: int| 0 <= i < s.len() && is_digit(#[trigger] s[i])
}

/// Whether a text holds a decimal digit.
pub fn holds_digit(chars: &Vec<char>) -> (r: bool)
    ensures
        r == has_digit(chars@),
{
    let mut i: usize = 0;
    while i < chars.len()
        invariant
            i <= chars.len(),
            forall|k: int| 0 <= k < i ==> !is_digit(#[trigger] chars[k]),
        decreases chars.len() - i,
    {
        if is_decimal_digit(chars[i]) {
            return true;
        }
        i += 1;
    }
    false
}

/// A message in lower case one of whose words says yes.
pub open spec fn affirms(lowered: Seq<char>) -> bool {
    exists|i: int|
        0 <= i < words(lowered).len() && affirmative_words().contains(#[trigger] words(lowered)[i])
}

/// Whether one of the words of a message says yes.
pub fn is_affirmative(lowered: &Vec<char>) -> (r: bool)
    ensures
        r == affirms(lowered@),
{
    let list = words_of(lowered);
    let yes = affirmative_list();
    let mut i: usize = 0;
    while i < list.len()
        invariant
            i <= list.len(),
            rows(list@) == words(lowered@),
            yes.deep_view() == affirmative_words(),
            forall|k: int| 0 <= k < i ==> !affirmative_words().contains(#[trigger] rows(list@)[k]),
        decreases list.len() - i,
    {
        assert(rows(list@)[i as int] == list[i as int]@);
        match position_in(&list[i], &yes) {
            Some(k) => {
                assert(yes.deep_view()[k as int] == yes[k as int]@);
                return true;
            },
            None => {},
        }
        i += 1;
    }
    false
}

/// A message that is the command `word`: the word alone, whatever the case
/// of its letters and the white space around it.
pub open spec fn is_command(msg: Seq<char>, word: Seq<char>) -> bool {
    same_ignoring_ascii_case(trimmed(msg), word)
}

/// A message that asks to start over.
pub open spec fn is_reset(msg: Seq<char>) -> bool {
    is_command(msg, "reset"@) || is_command(msg, "cancel"@)
}

/// A message that asks where the conversation stands.
pub open spec fn is_status(msg: Seq<char>) -> bool {
    is_command(msg, "status"@)
}

/// Whether the trimmed text `word` is the command `command`.
pub fn command_is(word: &Vec<char>, command: &str) -> (r: bool)
    ensures
        r == same_ignoring_ascii_case(word@, command@),
{
    let wanted = chars_of(command);
    eq_ignoring_ascii_case(word, &wanted)
}

/// The data after a message in lower case was read: the language is the one
/// that the words of the message show, if they show one, and the topics
/// among its words are known.
pub open spec fn absorbed(data: SessionDataView, lowered: Seq<char>) -> SessionDataView {
    SessionDataView {
        language: match infer_language(lowered) {
            Some(language) => language.code_text(),
            None => data.language,
        },
        detected_keywords: learned(data.detected_keywords, lowered),
        ..data
    }
}

/// Reads a message whose lower-case form has the characters `lowered`
/// into the data.
pub fn absorb(data: SessionData, lowered: &Vec<char>) -> (r: SessionData)
    ensures
        r@ == absorbed(data@, lowered@),
{
    let mut data = data;
    match infer_language_of(lowered) {
        Some(language) => {
            data.language = String::from_str(language.code());
        },
        None => {},
    }
    learn_topics(&mut data.detected_keywords, lowered);
    data
}

/// The data with which a project inquiry starts: the language is kept,
/// the rest is forgotten.
pub fn restart(data: SessionData) -> (r: SessionData)
    ensures
        r@ == data@.restarted(),
{
    let r = SessionData {
        language: data.language,
        name: None,
        email: None,
        budget: None,
        detected_keywords: Vec::new(),
    };
    assert(r.detected_keywords.deep_view() =~= Seq::empty());
    r
}

/// A question that is answered in the middle of an inquiry, which then
/// goes on where it stood: one for prices or for help in any state but
/// idle, and one for contact in any such state but the one that awaits an
/// email address.
pub open spec fn interrupts(state: ConversationState, intent: Intent) -> bool {
    &&& state != ConversationState::Idle
    &&& {
        ||| intent == Intent::Pricing
        ||| intent == Intent::Help
        ||| (intent == Intent::Contact && state != ConversationState::AskingEmail)
    }
}

/// Whether a message of the intent `intent` interrupts in the state
/// `state`.
pub fn is_interruption(state: ConversationState, intent: Intent) -> (r: bool)
    ensures
        r == interrupts(state, intent),
{
    state != ConversationState::Idle && (intent == Intent::Pricing || intent == Intent::Help || (
    intent == Intent::Contact && state != ConversationState::AskingEmail))
}

/// The phrase that answers an interrupting question.
pub open spec fn answer_key(intent: Intent) -> MessageKey {
    match intent {
        Intent::Pricing => MessageKey::PricingInfo,
        Intent::Contact => MessageKey::ContactInfo,
        _ => MessageKey::HelpText,
    }
}

/// The phrase that answers an interrupting question.
pub fn answer_for(intent: Intent) -> (key: MessageKey)
    ensures
        key == answer_key(intent),
{
    match intent {
        Intent::Pricing => MessageKey::PricingInfo,
        Intent::Contact => MessageKey::ContactInfo,
        _ => MessageKey::HelpText,
    }
}

/// The phrase that reminds the visitor of what a state awaits.
pub open spec fn reminder_key(state: ConversationState) -> MessageKey {
    match state {
        ConversationState::AskingLanguage => MessageKey::RemindLanguage,
        ConversationState::AskingName => MessageKey::RemindName,
        ConversationState::AskingEmail => MessageKey::RemindEmail,
        ConversationState::AskingBudget => MessageKey::RemindBudget,
        ConversationState::AskingProjectDetails => MessageKey::RemindDetails,
        _ => MessageKey::RemindConfirmation,
    }
}

/// The phrase that reminds the visitor of what a state awaits.
pub fn reminder_for(state: ConversationState) -> (key: MessageKey)
    ensures
        key == reminder_key(state),
{
    match state {
        ConversationState::AskingLanguage => MessageKey::RemindLanguage,
        ConversationState::AskingName => MessageKey::RemindName,
        ConversationState::AskingEmail => MessageKey::RemindEmail,
        ConversationState::AskingBudget => MessageKey::RemindBudget,
        ConversationState::AskingProjectDetails => MessageKey::RemindDetails,
        _ => MessageKey::RemindConfirmation,
    }
}

/// The name of a state, as the status message shows it.
pub open spec fn state_name(state: ConversationState) -> Seq<char> {
    match state {
        ConversationState::AskingLanguage => "AskingLanguage"@,
        ConversationState::Idle => "Idle"@,
        ConversationState::AskingName => "AskingName"@,
        ConversationState::AskingEmail => "AskingEmail"@,
        ConversationState::AskingBudget => "AskingBudget"@,
        ConversationState::AskingProjectDetails => "AskingProjectDetails"@,
        ConversationState::AskingProjectConfirmation => "AskingProjectConfirmation"@,
    }
}

/// The name of a state, as the status message shows it.
pub fn name_of_state(state: ConversationState) -> (r: &'static str)
    ensures
        r@ == state_name(state),
{
    match state {
        ConversationState::AskingLanguage => "AskingLanguage",
        ConversationState::Idle => "Idle",
        ConversationState::AskingName => "AskingName",
        ConversationState::AskingEmail => "AskingEmail",
        ConversationState::AskingBudget => "AskingBudget",
        ConversationState::AskingProjectDetails => "AskingProjectDetails",
        ConversationState::AskingProjectConfirmation => "AskingProjectConfirmation",
    }
}

/// How many entries of the history the responder is shown at most.
pub const CONTEXT_LIMIT: usize = 10;

/// The last entries of a history, ten at most.
pub open spec fn recent(history: Seq<MessageView>) -> Seq<MessageView> {
    if history.len() <= CONTEXT_LIMIT {
        history
    } else {
        history.skip(history.len() - CONTEXT_LIMIT)
    }
}

/// A copy of the last entries of a history, ten at most.
pub fn recent_history(history: &Vec<Message>) -> (r: Vec<Message>)
    ensures
        history_view(r@) == recent(history_view(history@)),
{
    let n = history.len();
    let start: usize = if n > CONTEXT_LIMIT {
        n - CONTEXT_LIMIT
    } else {
        0
    };
    let mut r: Vec<Message> = Vec::new();
    let mut i: usize = start;
    while i < n
        invariant
            start <= i <= n == history.len(),
            r.len() == i - start,
            forall|k: int| 0 <= k < r.len() ==> r[k]@ == history[start + k]@,
        decreases n - i,
    {
        r.push(history[i].clone());
        i += 1;
    }
    assert(history_view(r@) =~= recent(history_view(history@)));
    r
}

/// The outcome of one turn of a conversation.
#[derive(Debug)]
pub struct Turn {
    /// The reply to the visitor. Where `consult` is set it is the fallback
    /// for the case that the responder has no answer.
    pub reply: String,
    /// The state after the turn.
    pub state: ConversationState,
    /// The data after the turn.
    pub data: SessionData,
    /// Set where the message was not understood while the conversation was
    /// idle: the free-form responder is to be asked, with these entries of
    /// the history as its context.
    pub consult: Option<Vec<Message>>,
}

/// The mathematical content of a [`Turn`].
pub struct TurnView {
    pub reply: Seq<char>,
    pub state: ConversationState,
    pub data: SessionDataView,
    pub consult: Option<Seq<MessageView>>,
}

impl View for Turn {
    type V = TurnView;

    open spec fn view(&self) -> TurnView {
        TurnView {
            reply: self.reply@,
            state: self.state,
            data: self.data@,
            consult: match self.consult {
                Some(context) => Some(history_view(context@)),
                None => None,
            },
        }
    }
}

/// A turn that says `reply` and does not ask the responder.
pub open spec fn said(reply: Seq<char>, state: ConversationState, data: SessionDataView) -> TurnView {
    TurnView { reply, state, data, consult: None }
}

/// A text or, where there is none, the phrase that stands for it.
pub open spec fn text_or(value: Option<Seq<char>>, placeholder: Seq<char>) -> Seq<char> {
    match value {
        Some(text) => text,
        None => placeholder,
    }
}

/// The line feed that ends each line of the summary.
pub open spec fn line_end() -> Seq<char> {
    "\n"@
}

/// The summary of an inquiry: a header, the name, the email address, the
/// budget and the topics, each on a line of its own with its label, and a
/// footer. What was not given is shown by a placeholder. `topics` is the
/// upper-case list of the topics; it is shown where a topic was met.
pub open spec fn summary(language: Language, data: SessionDataView, topics: Seq<char>) -> Seq<
    char,
> {
    phrase(language, MessageKey::SummaryHeader) + line_end() + phrase(
        language,
        MessageKey::LabelName,
    ) + text_or(data.name, phrase(language, MessageKey::UnknownName)) + line_end() + phrase(
        language,
        MessageKey::LabelEmail,
    ) + text_or(data.email, phrase(language, MessageKey::NotProvided)) + line_end() + phrase(
        language,
        MessageKey::LabelBudget,
    ) + text_or(data.budget, phrase(language, MessageKey::NotProvided)) + line_end() + phrase(
        language,
        MessageKey::LabelTopics,
    ) + (if data.detected_keywords.len() == 0 {
        phrase(language, MessageKey::GenericInquiry)
    } else {
        topics
    }) + line_end() + phrase(language, MessageKey::SummaryFooter)
}

/// The separator of the topics in the summary.
pub open spec fn topic_separator() -> Seq<char> {
    ", "@
}

/// The topics as the summary shows them: joined by commas, in upper case.
pub open spec fn shouted_topics(data: SessionDataView) -> Seq<char> {
    uppercase(joined(data.detected_keywords, topic_separator()))
}

/// Appends a text or, where there is none, its placeholder.
fn push_or(reply: &mut String, value: &Option<String>, placeholder: &str)
    ensures
        final(reply)@ == old(reply)@ + text_or(opt_text(*value), placeholder@),
{
    match value {
        Some(text) => reply.append(text.as_str()),
        None => reply.append(placeholder),
    }
}

/// Writes the summary of an inquiry, given the upper-case list of its
/// topics.
pub fn compose_summary(language: Language, data: &SessionData, topics: &str) -> (r: String)
    ensures
        r@ == summary(language, data@, topics@),
{
    let mut r = String::from_str(phrase_in(language, MessageKey::SummaryHeader));
    r.append("\n");
    r.append(phrase_in(language, MessageKey::LabelName));
    push_or(&mut r, &data.name, phrase_in(language, MessageKey::UnknownName));
    r.append("\n");
    r.append(phrase_in(language, MessageKey::LabelEmail));
    push_or(&mut r, &data.email, phrase_in(language, MessageKey::NotProvided));
    r.append("\n");
    r.append(phrase_in(language, MessageKey::LabelBudget));
    push_or(&mut r, &data.budget, phrase_in(language, MessageKey::NotProvided));
    r.append("\n");
    r.append(phrase_in(language, MessageKey::LabelTopics));
    if data.detected_keywords.len() == 0 {
        r.append(phrase_in(language, MessageKey::GenericInquiry));
    } else {
        r.append(topics);
    }
    r.append("\n");
    r.append(phrase_in(language, MessageKey::SummaryFooter));
    r
}

/// The turn in the state that awaits a language. A message that chooses a
/// language sets it and is greeted in it; any other is asked again, in
/// every language.
pub open spec fn language_turn(lowered: Seq<char>, data: SessionDataView) -> TurnView {
    match chosen_language(lowered) {
        Some(language) => said(
            phrase(language, MessageKey::Greeting),
            ConversationState::Idle,
            SessionDataView { language: language.code_text(), ..data },
        ),
        None => said(LANGUAGE_PROMPT@, ConversationState::AskingLanguage, data),
    }
}

/// Takes the turn of the state that awaits a language.
pub fn answer_language(lowered: &Vec<char>, data: SessionData) -> (t: Turn)
    ensures
        t@ == language_turn(lowered@, data@),
{
    match choose_language(lowered) {
        Some(language) => {
            let mut data = data;
            data.language = String::from_str(language.code());
            Turn {
                reply: String::from_str(phrase_in(language, MessageKey::Greeting)),
                state: ConversationState::Idle,
                data,
                consult: None,
            }
        },
        None => Turn {
            reply: String::from_str(LANGUAGE_PROMPT),
            state: ConversationState::AskingLanguage,
            data,
            consult: None,
        },
    }
}

/// The blank between an answer and what follows it.
pub open spec fn blank() -> Seq<char> {
    " "@
}

/// The turn in the idle state, by the intent of the message. A request
/// for a website opens an inquiry; a question for prices is answered with
/// the offer to open one; a message that is not understood gets the
/// fallback reply and is passed to the responder with the recent history.
pub open spec fn idle_turn(
    intent: Intent,
    language: Language,
    data: SessionDataView,
    history: Seq<MessageView>,
) -> TurnView {
    match intent {
        Intent::Greeting => said(
            phrase(language, MessageKey::Greeting),
            ConversationState::Idle,
            data,
        ),
        Intent::WebsiteRequest => said(
            phrase(language, MessageKey::WebsiteStart),
            ConversationState::AskingName,
            data.restarted(),
        ),
        Intent::Pricing => said(
            phrase(language, MessageKey::PricingInfo) + blank() + phrase(
                language,
                MessageKey::PricingOffer,
            ),
            ConversationState::AskingProjectConfirmation,
            data,
        ),
        Intent::Contact => said(
            phrase(language, MessageKey::ContactInfo),
            ConversationState::Idle,
            data,
        ),
        Intent::Help => said(phrase(language, MessageKey::HelpText), ConversationState::Idle, data),
        Intent::Services => said(
            phrase(language, MessageKey::ServicesList),
            ConversationState::Idle,
            data,
        ),
        Intent::Unknown => TurnView {
            reply: phrase(language, MessageKey::Fallback),
            state: ConversationState::Idle,
            data,
            consult: Some(recent(history)),
        },
    }
}

/// Takes the turn of the idle state on a message of the intent `intent`.
pub fn answer_idle(intent: Intent, language: Language, data: SessionData, history: &Vec<Message>) -> (t:
    Turn)
    ensures
        t@ == idle_turn(intent, language, data@, history_view(history@)),
{
    match intent {
        Intent::Greeting => Turn {
            reply: String::from_str(phrase_in(language, MessageKey::Greeting)),
            state: ConversationState::Idle,
            data,
            consult: None,
        },
        Intent::WebsiteRequest => Turn {
            reply: String::from_str(phrase_in(language, MessageKey::WebsiteStart)),
            state: ConversationState::AskingName,
            data: restart(data),
            consult: None,
        },
        Intent::Pricing => {
            let mut reply = String::from_str(phrase_in(language, MessageKey::PricingInfo));
            reply.append(" ");
            reply.append(phrase_in(language, MessageKey::PricingOffer));
            Turn { reply, state: ConversationState::AskingProjectConfirmation, data, consult: None }
        },
        Intent::Contact => Turn {
            reply: String::from_str(phrase_in(language, MessageKey::ContactInfo)),
            state: ConversationState::Idle,
            data,
            consult: None,
        },
        Intent::Help => Turn {
            reply: String::from_str(phrase_in(language, MessageKey::HelpText)),
            state: ConversationState::Idle,
            data,
            consult: None,
        },
        Intent::Services => Turn {
            reply: String::from_str(phrase_in(language, MessageKey::ServicesList)),
            state: ConversationState::Idle,
            data,
            consult: None,
        },
        Intent::Unknown => Turn {
            reply: String::from_str(phrase_in(language, MessageKey::Fallback)),
            state: ConversationState::Idle,
            data,
            consult: Some(recent_history(history)),
        },
    }
}

/// The turn in the state that awaits the name. The message without the
/// white space around it is kept as the name if it is one.
pub open spec fn name_turn(msg: Seq<char>, language: Language, data: SessionDataView) -> TurnView {
    if valid_name(trimmed(msg)) {
        said(
            phrase(language, MessageKey::AskEmailBefore) + trimmed(msg) + phrase(
                language,
                MessageKey::AskEmailAfter,
            ),
            ConversationState::AskingEmail,
            SessionDataView { name: Some(trimmed(msg)), ..data },
        )
    } else {
        said(phrase(language, MessageKey::InvalidName), ConversationState::AskingName, data)
    }
}

/// Takes the turn of the state that awaits the name.
pub fn answer_name(msg: &str, language: Language, data: SessionData) -> (t: Turn)
    ensures
        t@ == name_turn(msg@, language, data@),
{
    let name = trim(msg);
    if is_valid_name(name) {
        let mut reply = String::from_str(phrase_in(language, MessageKey::AskEmailBefore));
        reply.append(name);
        reply.append(phrase_in(language, MessageKey::AskEmailAfter));
        let mut data = data;
        data.name = Some(String::from_str(name));
        Turn { reply, state: ConversationState::AskingEmail, data, consult: None }
    } else {
        Turn {
            reply: String::from_str(phrase_in(language, MessageKey::InvalidName)),
            state: ConversationState::AskingName,
            data,
            consult: None,
        }
    }
}

/// The turn in the state that awaits the email address. A message that
/// holds an `@` is kept, without the white space around it.
pub open spec fn email_turn(msg: Seq<char>, language: Language, data: SessionDataView) -> TurnView {
    if msg.contains('@') {
        said(
            phrase(language, MessageKey::AskBudget),
            ConversationState::AskingBudget,
            SessionDataView { email: Some(trimmed(msg)), ..data },
        )
    } else {
        said(phrase(language, MessageKey::InvalidEmail), ConversationState::AskingEmail, data)
    }
}

/// Takes the turn of the state that awaits the email address.
pub fn answer_email(msg: &str, language: Language, data: SessionData) -> (t: Turn)
    ensures
        t@ == email_turn(msg@, language, data@),
{
    let chars = chars_of(msg);
    if has_char(&chars, '@') {
        let mut data = data;
        data.email = Some(String::from_str(trim(msg)));
        Turn {
            reply: String::from_str(phrase_in(language, MessageKey::AskBudget)),
            state: ConversationState::AskingBudget,
            data,
            consult: None,
        }
    } else {
        Turn {
            reply: String::from_str(phrase_in(language, MessageKey::InvalidEmail)),
            state: ConversationState::AskingEmail,
            data,
            consult: None,
        }
    }
}

/// The turn in the state that awaits the budget. A message that holds a
/// digit is kept as it was written, without the white space around it.
pub open spec fn budget_turn(msg: Seq<char>, language: Language, data: SessionDataView) -> TurnView {
    if has_digit(msg) {
        said(
            phrase(language, MessageKey::AskDetails),
            ConversationState::AskingProjectDetails,
            SessionDataView { budget: Some(trimmed(msg)), ..data },
        )
    } else {
        said(phrase(language, MessageKey::InvalidBudget), ConversationState::AskingBudget, data)
    }
}

/// Takes the turn of the state that awaits the budget.
pub fn answer_budget(msg: &str, language: Language, data: SessionData) -> (t: Turn)
    ensures
        t@ == budget_turn(msg@, language, data@),
{
    let chars = chars_of(msg);
    if holds_digit(&chars) {
        let mut data = data;
        data.budget = Some(String::from_str(trim(msg)));
        Turn {
            reply: String::from_str(phrase_in(language, MessageKey::AskDetails)),
            state: ConversationState::AskingProjectDetails,
            data,
            consult: None,
        }
    } else {
        Turn {
            reply: String::from_str(phrase_in(language, MessageKey::InvalidBudget)),
            state: ConversationState::AskingBudget,
            data,
            consult: None,
        }
    }
}

/// The turn in the state that awaits the requirements: whatever the
/// message, the inquiry is complete, its summary is the reply, and the
/// conversation is idle again.
pub open spec fn details_turn(language: Language, data: SessionDataView) -> TurnView {
    said(summary(language, data, shouted_topics(data)), ConversationState::Idle, data)
}

/// Takes the turn of the state that awaits the requirements.
pub fn answer_details(language: Language, data: SessionData) -> (t: Turn)
    ensures
        t@ == details_turn(language, data@),
{
    let topics = to_upper(join(&data.detected_keywords, ", ").as_str());
    let reply = compose_summary(language, &data, topics.as_str());
    Turn { reply, state: ConversationState::Idle, data, consult: None }
}

/// The turn in the state that awaits the answer to the offer of an
/// inquiry: a message one of whose words says yes opens the inquiry, any
/// other ends the matter.
pub open spec fn confirmation_turn(
    lowered: Seq<char>,
    language: Language,
    data: SessionDataView,
) -> TurnView {
    if affirms(lowered) {
        said(
            phrase(language, MessageKey::WebsiteStart),
            ConversationState::AskingName,
            data.restarted(),
        )
    } else {
        said(phrase(language, MessageKey::ConfirmDeclined), ConversationState::Idle, data)
    }
}

/// Takes the turn of the state that awaits the answer to the offer.
pub fn answer_confirmation(lowered: &Vec<char>, language: Language, data: SessionData) -> (t: Turn)
    ensures
        t@ == confirmation_turn(lowered@, language, data@),
{
    if is_affirmative(lowered) {
        Turn {
            reply: String::from_str(phrase_in(language, MessageKey::WebsiteStart)),
            state: ConversationState::AskingName,
            data: restart(data),
            consult: None,
        }
    } else {
        Turn {
            reply: String::from_str(phrase_in(language, MessageKey::ConfirmDeclined)),
            state: ConversationState::Idle,
            data,
            consult: None,
        }
    }
}

/// The turn that a state takes on a message that is neither a command nor
/// an interruption. `data` has the message read into it already.
pub open spec fn state_turn(
    state: ConversationState,
    msg: Seq<char>,
    lowered: Seq<char>,
    data: SessionDataView,
    history: Seq<MessageView>,
) -> TurnView {
    let language = Language::of_code(data.language);
    match state {
        ConversationState::AskingLanguage => language_turn(lowered, data),
        ConversationState::Idle => idle_turn(classify(lowered), language, data, history),
        ConversationState::AskingName => name_turn(msg, language, data),
        ConversationState::AskingEmail => email_turn(msg, language, data),
        ConversationState::AskingBudget => budget_turn(msg, language, data),
        ConversationState::AskingProjectDetails => details_turn(language, data),
        ConversationState::AskingProjectConfirmation => confirmation_turn(lowered, language, data),
    }
}

/// One turn of a conversation: what is replied to the message `msg`, whose
/// lower-case form is `lowered`, in the state `state` with the data `data`,
/// and in which state and with which data the conversation goes on.
///
/// The message is first read into the data: its language and its topics
/// are taken up. Then the first of these decides the turn: a reset, which
/// answers from any state with the entry state and the initial data; a
/// status query, which names the state; an interrupting question, which is
/// answered and followed by a reminder of what the state awaits; and the
/// state itself. A status query and an interrupting question leave the
/// state as it is and the data as it was read.
pub open spec fn next_turn(
    state: ConversationState,
    msg: Seq<char>,
    lowered: Seq<char>,
    data: SessionDataView,
    history: Seq<MessageView>,
) -> TurnView {
    let read = absorbed(data, lowered);
    let language = Language::of_code(read.language);
    let intent = classify(lowered);
    if is_reset(msg) {
        said(
            phrase(language, MessageKey::ResetDone),
            ConversationState::entry(),
            SessionDataView::initial(),
        )
    } else if is_status(msg) {
        said(phrase(language, MessageKey::StatusPrefix) + state_name(state), state, read)
    } else if interrupts(state, intent) {
        said(
            phrase(language, answer_key(intent)) + blank() + phrase(language, reminder_key(state)),
            state,
            read,
        )
    } else {
        state_turn(state, msg, lowered, read, history)
    }
}

/// The counters after one turn: the language of the reply is counted in
/// every turn; the intent of the message is counted where it was asked
/// for, that is for an interrupting question and for every message that
/// the idle state takes.
pub open spec fn counted(
    metrics: MetricsView,
    state: ConversationState,
    msg: Seq<char>,
    lowered: Seq<char>,
    data: SessionDataView,
) -> MetricsView {
    let seen = metrics.with_language(absorbed(data, lowered).language);
    let intent = classify(lowered);
    if is_reset(msg) || is_status(msg) {
        seen
    } else if state == ConversationState::Idle || interrupts(state, intent) {
        seen.with_intent(intent.name_text())
    } else {
        seen
    }
}

/// One turn of a conversation, given the message and its lower-case form.
pub fn advance(
    state: ConversationState,
    msg: &str,
    lowered: &str,
    data: SessionData,
    history: &Vec<Message>,
    metrics: &mut MetricsManager,
) -> (t: Turn)
    ensures
        t@ == next_turn(state, msg@, lowered@, data@, history_view(history@)),
        final(metrics)@ == counted(old(metrics)@, state, msg@, lowered@, data@),
{
    let low = chars_of(lowered);
    let data = absorb(data, &low);
    metrics.increment_language(data.language.as_str());
    let language = Language::from_code(data.language.as_str());
    let command = trimmed_chars(&chars_of(msg));
    if command_is(&command, "reset") || command_is(&command, "cancel") {
        return Turn {
            reply: String::from_str(phrase_in(language, MessageKey::ResetDone)),
            state: ConversationState::entry_state(),
            data: SessionData::default(),
            consult: None,
        };
    }
    if command_is(&command, "status") {
        let mut reply = String::from_str(phrase_in(language, MessageKey::StatusPrefix));
        reply.append(name_of_state(state));
        return Turn { reply, state, data, consult: None };
    }
    let intent = classify_chars(&low);
    if is_interruption(state, intent) {
        metrics.increment_intent(intent.name());
        let mut reply = String::from_str(phrase_in(language, answer_for(intent)));
        reply.append(" ");
        reply.append(phrase_in(language, reminder_for(state)));
        return Turn { reply, state, data, consult: None };
    }
    match state {
        ConversationState::AskingLanguage => answer_language(&low, data),
        ConversationState::Idle => {
            metrics.increment_intent(intent.name());
            answer_idle(intent, language, data, history)
        },
        ConversationState::AskingName => answer_name(msg, language, data),
        ConversationState::AskingEmail => answer_email(msg, language, data),
        ConversationState::AskingBudget => answer_budget(msg, language, data),
        ConversationState::AskingProjectDetails => answer_details(language, data),
        ConversationState::AskingProjectConfirmation => answer_confirmation(&low, language, data),
    }
}

/// One turn of a conversation. Where the turn asks for the responder, the
/// caller puts the question to it and settles the turn with its answer.
pub fn evaluate_turn(
    state: ConversationState,
    msg: &str,
    data: SessionData,
    history: &Vec<Message>,
    metrics: &mut MetricsManager,
) -> (t: Turn)
    ensures
        t@ == next_turn(state, msg@, lowercase(msg@), data@, history_view(history@)),
        final(metrics)@ == counted(old(metrics)@, state, msg@, lowercase(msg@), data@),
{
    let lowered = to_lower(msg);
    advance(state, msg, lowered.as_str(), data, history, metrics)
}

/// The reply of a turn once the responder was heard: its answer where the
/// turn asked for one and there is one, the reply of the turn otherwise.
pub open spec fn settled(turn: TurnView, answer: Option<Seq<char>>) -> Seq<char> {
    if turn.consult is Some && answer is Some {
        answer->0
    } else {
        turn.reply
    }
}

/// Ends a turn with what the responder said, or with `None` where it was
/// not asked or had no answer: the reply, the next state and the next data.
pub fn settle_turn(turn: Turn, answer: Option<String>) -> (r: (String, ConversationState, SessionData))
    ensures
        r.0@ == settled(turn@, opt_text(answer)),
        r.1 == turn.state,
        r.2@ == turn.data@,
{
    let Turn { reply, state, data, consult } = turn;
    match answer {
        Some(text) => {
            if consult.is_some() {
                (text, state, data)
            } else {
                (reply, state, data)
            }
        },
        None => (reply, state, data),
    }
}

/// One turn of a conversation without a responder: a message that is not
/// understood gets the fallback reply. Returns the reply, the next state
/// and the next data.
pub fn generate_reply(
    state: ConversationState,
    msg: &str,
    data: SessionData,
    history: Vec<Message>,
    metrics: &mut MetricsManager,
) -> (r: (String, ConversationState, SessionData))
    ensures
        r.0@ == next_turn(state, msg@, lowercase(msg@), data@, history_view(history@)).reply,
        r.1 == next_turn(state, msg@, lowercase(msg@), data@, history_view(history@)).state,
        r.2@ == next_turn(state, msg@, lowercase(msg@), data@, history_view(history@)).data,
        final(metrics)@ == counted(old(metrics)@, state, msg@, lowercase(msg@), data@),
{
    let turn = evaluate_turn(state, msg, data, &history, metrics);
    settle_turn(turn, None)
}

} // verus!
