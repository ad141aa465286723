use mcp_agent::telemetry::alerts::{AlertBook, HISTORY_LIMIT};

#[test]
fn definitions_are_replaced_in_place() {
    let mut book: AlertBook<&str, u32> = AlertBook::new();
    book.add_definition("cpu".to_string(), "first");
    book.add_definition("mem".to_string(), "second");
    book.add_definition("cpu".to_string(), "third");
    assert_eq!(book.definition_count(), 2);
    let (id, d) = book.definition_at(0);
    assert_eq!((id.as_str(), *d), ("cpu", "third"));
    assert!(book.remove_definition("cpu"));
    assert!(!book.remove_definition("cpu"));
    assert_eq!(book.definition_count(), 1);
}

#[test]
fn raised_alerts_expire_after_their_cooldown() {
    let mut book: AlertBook<(), u32> = AlertBook::new();
    book.raise("cpu", 50, 1000, 7);
    assert!(book.is_active("cpu"));
    assert!(!book.is_active("mem"));
    book.drop_expired(1050);
    assert_eq!(book.active_alerts().len(), 1);
    book.drop_expired(1051);
    assert!(book.active_alerts().is_empty());
    assert_eq!(book.alert_history().len(), 1);
    assert_eq!(book.alert_history()[0].details, 7);
    assert_eq!(book.alert_history()[0].triggered_at, 1000);
}

#[test]
fn acknowledgement_marks_active_and_history() {
    let mut book: AlertBook<(), u32> = AlertBook::new();
    assert!(!book.acknowledge("cpu", 5));
    book.raise("cpu", 1000, 1, 1);
    book.raise("mem", 1000, 2, 2);
    assert!(book.acknowledge("cpu", 10));
    assert!(!book.acknowledge("cpu", 11));
    assert!(book.active_alerts()[0].acknowledged);
    assert_eq!(book.active_alerts()[0].acknowledged_at, Some(10));
    assert!(!book.active_alerts()[1].acknowledged);
    assert!(book.alert_history()[0].acknowledged);
    assert!(!book.alert_history()[1].acknowledged);
}

#[test]
fn history_keeps_the_latest_thousand() {
    let mut book: AlertBook<(), usize> = AlertBook::new();
    for i in 0..HISTORY_LIMIT + 5 {
        book.raise("cpu", 0, i as u64, i);
    }
    let history = book.alert_history();
    assert_eq!(history.len(), HISTORY_LIMIT);
    assert_eq!(history[0].details, 5);
    assert_eq!(history[HISTORY_LIMIT - 1].details, HISTORY_LIMIT + 4);
    assert_eq!(book.active_alerts().len(), HISTORY_LIMIT + 5);
}

#[test]
fn an_alert_is_raised_only_when_all_conditions_hold() {
    let mut book: AlertBook<&str, u32> = AlertBook::new();
    book.add_definition("cpu".to_string(), "high cpu");
    assert!(!book.consider("cpu", false, false, true, 50, 0, 1));
    assert!(!book.consider("cpu", true, true, true, 50, 0, 1));
    assert!(!book.consider("cpu", true, false, false, 50, 0, 1));
    assert_eq!(book.active_alerts().len(), 0);
    assert!(book.consider("cpu", true, false, true, 50, 0, 1));
    assert!(!book.consider("cpu", true, false, true, 50, 10, 2));
    assert_eq!(book.active_alerts().len(), 1);
    assert_eq!(book.alert_history().len(), 1);
}
