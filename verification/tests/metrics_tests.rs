use chatbot_backend::services::metrics_manager::{MetricsData, MetricsManager, UsageCounts};

#[test]
fn counters_start_empty_and_grow_by_one() {
    let mut metrics = MetricsManager::new();
    let empty = metrics.get_metrics();
    assert_eq!(empty.language_usage.get("en"), None);
    assert_eq!(empty.language_usage.count("en"), 0);
    assert!(empty.intent_usage.entries().is_empty());

    metrics.increment_language("en");
    metrics.increment_language("pl");
    metrics.increment_language("en");
    metrics.increment_intent("Pricing");
    let data = metrics.get_metrics();
    assert_eq!(data.language_usage.get("en"), Some(2));
    assert_eq!(data.language_usage.get("pl"), Some(1));
    assert_eq!(data.language_usage.get("fr"), None);
    assert_eq!(data.intent_usage.get("Pricing"), Some(1));
    assert_eq!(data.intent_usage.count("Help"), 0);
    assert_eq!(
        data.language_usage.entries(),
        vec![("en".to_string(), 2), ("pl".to_string(), 1)]
    );
}

#[test]
fn snapshot_is_independent_of_later_increments() {
    let mut metrics = MetricsManager::new();
    metrics.increment_intent("Help");
    let snapshot = metrics.get_metrics();
    metrics.increment_intent("Help");
    assert_eq!(snapshot.intent_usage.get("Help"), Some(1));
    assert_eq!(metrics.get_metrics().intent_usage.get("Help"), Some(2));
    let copy = snapshot.clone();
    assert_eq!(copy.intent_usage.get("Help"), Some(1));
}

#[test]
fn defaults_are_empty() {
    let data = MetricsData::default();
    assert!(data.language_usage.entries().is_empty());
    assert!(data.intent_usage.entries().is_empty());
    let metrics = MetricsManager::default();
    assert!(metrics.get_metrics().language_usage.entries().is_empty());
    let mut counts = UsageCounts::default();
    counts.increment("");
    assert_eq!(counts.get(""), Some(1));
}
