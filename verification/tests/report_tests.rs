use chatbot_backend::services::report_generator::{
    build_report, compose_report, report_file_path, report_link,
};
use chatbot_backend::services::session_manager::SessionData;

#[test]
fn report_paths() {
    assert_eq!(report_file_path("abc-123"), "public/reports/abc-123.pdf");
    assert_eq!(report_link("abc-123"), "/reports/abc-123.pdf");
}

#[test]
fn report_of_an_empty_inquiry() {
    let report = build_report("s1", &SessionData::default());
    assert_eq!(report.title, "Project Request Report");
    assert_eq!(report.client_label, "Client Name");
    assert_eq!(report.client, "Unknown");
    assert_eq!(report.email_label, "Email Address");
    assert_eq!(report.email, "N/A");
    assert_eq!(report.budget_label, "Budget Estimate");
    assert_eq!(report.budget, "N/A");
    assert_eq!(report.topics_label, "Detected Topics:");
    assert_eq!(report.topics, "None");
    assert_eq!(report.footer, "Session ID: s1");
}

#[test]
fn report_of_a_full_inquiry() {
    let data = SessionData {
        language: "pl".to_string(),
        name: Some("Jan".to_string()),
        email: Some("jan@test.pl".to_string()),
        budget: Some("ok. 5000 zł".to_string()),
        detected_keywords: vec!["blog".to_string(), "seo".to_string(), "żółw".to_string()],
    };
    let report = build_report("s2", &data);
    assert_eq!(report.client, "Jan");
    assert_eq!(report.email, "jan@test.pl");
    assert_eq!(report.budget, "ok. 5000 zł");
    assert_eq!(report.topics, "BLOG, SEO, ŻÓŁW");
    let given = compose_report("s2", &data, "as given".to_string());
    assert_eq!(given.topics, "as given");
    let none = compose_report("s2", &SessionData::default(), "as given".to_string());
    assert_eq!(none.topics, "None");
}
