//! The report on a completed inquiry: what it says and where it is kept.
//! Drawing the pages and writing the file is left to the caller.

use crate::services::chatbot::{shouted_topics, text_or};
use crate::services::session_manager::{opt_text, SessionData, SessionDataView};
use crate::services::text::{join, to_upper};
use vstd::prelude::*;
use vstd::string::*;

verus! {

/// The directory in which the reports are kept.
pub const REPORT_DIR: &'static str = "public/reports";

/// The path under which the reports are served.
pub const REPORT_ROUTE: &'static str = "/reports";

/// The file of the report on the session `session_id`.
pub open spec fn file_path_of(session_id: Seq<char>) -> Seq<char> {
    REPORT_DIR@ + "/"@ + session_id + ".pdf"@
}

/// The file of the report on the session `session_id`.
pub fn report_file_path(session_id: &str) -> (r: String)
    ensures
        r@ == file_path_of(session_id@),
{
    let mut r = String::from_str(REPORT_DIR);
    r.append("/");
    r.append(session_id);
    r.append(".pdf");
    r
}

/// The link under which the report on the session `session_id` is served.
pub open spec fn link_of(session_id: Seq<char>) -> Seq<char> {
    REPORT_ROUTE@ + "/"@ + session_id + ".pdf"@
}

/// The link under which the report on the session `session_id` is served.
pub fn report_link(session_id: &str) -> (r: String)
    ensures
        r@ == link_of(session_id@),
{
    let mut r = String::from_str(REPORT_ROUTE);
    r.append("/");
    r.append(session_id);
    r.append(".pdf");
    r
}

/// What a report says.
#[derive(Debug)]
pub struct Report {
    pub title: String,
    pub client_label: String,
    pub client: String,
    pub email_label: String,
    pub email: String,
    pub budget_label: String,
    pub budget: String,
    pub topics_label: String,
    pub topics: String,
    pub footer: String,
}

/// The mathematical content of a [`Report`].
pub struct ReportView {
    pub title: Seq<char>,
    pub client_label: Seq<char>,
    pub client: Seq<char>,
    pub email_label: Seq<char>,
    pub email: Seq<char>,
    pub budget_label: Seq<char>,
    pub budget: Seq<char>,
    pub topics_label: Seq<char>,
    pub topics: Seq<char>,
    pub footer: Seq<char>,
}

impl View for Report {
    type V = ReportView;

    open spec fn view(&self) -> ReportView {
        ReportView {
            title: self.title@,
            client_label: self.client_label@,
            client: self.client@,
            email_label: self.email_label@,
            email: self.email@,
            budget_label: self.budget_label@,
            budget: self.budget@,
            topics_label: self.topics_label@,
            topics: self.topics@,
            footer: self.footer@,
        }
    }
}

/// The report on an inquiry, given the upper-case list of its topics:
/// what was not given is shown as unknown or not available, and the topics
/// as none where no topic was met.
pub open spec fn report_of(session_id: Seq<char>, data: SessionDataView, topics: Seq<char>) -> ReportView {
    ReportView {
        title: "Project Request Report"@,
        client_label: "Client Name"@,
        client: text_or(data.name, "Unknown"@),
        email_label: "Email Address"@,
        email: text_or(data.email, "N/A"@),
        budget_label: "Budget Estimate"@,
        budget: text_or(data.budget, "N/A"@),
        topics_label: "Detected Topics:"@,
        topics: if data.detected_keywords.len() == 0 {
            "None"@
        } else {
            topics
        },
        footer: "Session ID: "@ + session_id,
    }
}

/// A copy of a text or, where there is none, its placeholder.
fn value_or(value: &Option<String>, placeholder: &str) -> (r: String)
    ensures
        r@ == text_or(opt_text(*value), placeholder@),
{
    match value {
        Some(text) => text.clone(),
        None => String::from_str(placeholder),
    }
}

/// The report on an inquiry, given the upper-case list of its topics.
pub fn compose_report(session_id: &str, data: &SessionData, topics: String) -> (r: Report)
    ensures
        r@ == report_of(session_id@, data@, topics@),
{
    let mut footer = String::from_str("Session ID: ");
    footer.append(session_id);
    Report {
        title: String::from_str("Project Request Report"),
        client_label: String::from_str("Client Name"),
        client: value_or(&data.name, "Unknown"),
        email_label: String::from_str("Email Address"),
        email: value_or(&data.email, "N/A"),
        budget_label: String::from_str("Budget Estimate"),
        budget: value_or(&data.budget, "N/A"),
        topics_label: String::from_str("Detected Topics:"),
        topics: if data.detected_keywords.len() == 0 {
            String::from_str("None")
        } else {
            topics
        },
        footer,
    }
}

/// The report on an inquiry: its topics are joined by commas and written
/// in upper case.
pub fn build_report(session_id: &str, data: &SessionData) -> (r: Report)
    ensures
        r@ == report_of(session_id@, data@, shouted_topics(data@)),
{
    let topics = to_upper(join(&data.detected_keywords, ", ").as_str());
    compose_report(session_id, data, topics)
}

} // verus!
