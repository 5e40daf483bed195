use price_alerts::alert_monitor::{should_trigger, AlertMonitor, Direction, TriggerEvent};

// 2024-01-01 00:00:00 UTC in nanoseconds.
const NEW_YEAR: i64 = 1_704_067_200_000_000_000;

fn brief(e: &TriggerEvent) -> (String, u64, Direction, u64) {
    (e.symbol.clone(), e.threshold, e.direction, e.observed_price)
}

#[test]
fn trigger_is_strict_at_the_boundary() {
    assert!(!should_trigger(Direction::Above, 10_000, 10_000));
    assert!(should_trigger(Direction::Above, 10_000, 10_001));
    assert!(!should_trigger(Direction::Below, 10_000, 10_000));
    assert!(should_trigger(Direction::Below, 10_000, 9_999));
}

#[test]
fn empty_registry_lists_no_alerts() {
    let m = AlertMonitor::new();
    assert_eq!(m.get_alerts(), vec!["No alerts set".to_string()]);
    assert!(m.is_empty());
}

#[test]
fn added_alert_is_listed_once_with_upper_case_symbol() {
    let mut m = AlertMonitor::new();
    m.add_alert("btc", 5_000_000, Direction::Above, NEW_YEAR);
    assert_eq!(
        m.get_alerts(),
        vec!["BTC above $50000.00 (set 2024-01-01 00:00)".to_string()]
    );
}

#[test]
fn alerts_keep_symbol_and_insertion_order() {
    let mut m = AlertMonitor::new();
    m.add_alert("ETH", 200_005, Direction::Below, NEW_YEAR + 90_000_000_000);
    m.add_alert("BTC", 1, Direction::Above, NEW_YEAR);
    m.add_alert("eth", 199_999, Direction::Above, NEW_YEAR);
    assert_eq!(
        m.get_alerts(),
        vec![
            "ETH below $2000.05 (set 2024-01-01 00:01)".to_string(),
            "ETH above $1999.99 (set 2024-01-01 00:00)".to_string(),
            "BTC above $0.01 (set 2024-01-01 00:00)".to_string(),
        ]
    );
    assert_eq!(m.symbols(), vec!["ETH".to_string(), "BTC".to_string()]);
}

#[test]
fn duplicate_alerts_are_both_kept() {
    let mut m = AlertMonitor::new();
    m.add_alert("ICP", 1_000, Direction::Above, NEW_YEAR);
    m.add_alert("ICP", 1_000, Direction::Above, NEW_YEAR);
    assert_eq!(m.get_alerts().len(), 2);
}

#[test]
fn remove_drops_every_alert_of_the_symbol_and_is_idempotent() {
    let mut m = AlertMonitor::new();
    m.add_alert("BTC", 100, Direction::Above, NEW_YEAR);
    m.add_alert("BTC", 200, Direction::Below, NEW_YEAR);
    m.add_alert("ETH", 300, Direction::Above, NEW_YEAR);
    m.remove_alert("btc");
    assert_eq!(
        m.get_alerts(),
        vec!["ETH above $3.00 (set 2024-01-01 00:00)".to_string()]
    );
    m.remove_alert("BTC");
    assert_eq!(m.get_alerts().len(), 1);
    m.remove_alert("ETH");
    assert_eq!(m.get_alerts(), vec!["No alerts set".to_string()]);
}

#[test]
fn many_adds_for_one_symbol_are_all_kept() {
    let mut m = AlertMonitor::new();
    for i in 0..25u64 {
        m.add_alert("BTC", 100 + i, Direction::Above, NEW_YEAR);
    }
    assert_eq!(m.get_alerts().len(), 25);
    assert_eq!(m.symbols().len(), 1);
}

#[test]
fn end_to_end_above_fires_and_below_does_not() {
    let mut m = AlertMonitor::new();
    m.add_alert("BTC", 5_000_000, Direction::Above, NEW_YEAR);
    m.add_alert("ETH", 200_000, Direction::Below, NEW_YEAR);
    let events = m.evaluate_tick(&vec![Some(5_100_000), Some(210_000)], 7);
    assert_eq!(events.len(), 1);
    assert_eq!(
        brief(&events[0]),
        ("BTC".to_string(), 5_000_000, Direction::Above, 5_100_000)
    );
    assert_eq!(events[0].fired_at, 7);
}

#[test]
fn failed_fetch_does_not_block_other_symbols() {
    let mut m = AlertMonitor::new();
    m.add_alert("BTC", 100, Direction::Above, NEW_YEAR);
    m.add_alert("ETH", 100, Direction::Above, NEW_YEAR);
    m.add_alert("ICP", 100, Direction::Below, NEW_YEAR);
    let events = m.evaluate_tick(&vec![None, Some(101), Some(99)], 1);
    let got: Vec<_> = events.iter().map(brief).collect();
    assert_eq!(
        got,
        vec![
            ("ETH".to_string(), 100, Direction::Above, 101),
            ("ICP".to_string(), 100, Direction::Below, 99),
        ]
    );
}

#[test]
fn fired_alert_fires_on_the_next_pass_too() {
    let mut m = AlertMonitor::new();
    m.add_alert("BTC", 100, Direction::Above, NEW_YEAR);
    let first = m.evaluate_tick(&vec![Some(150)], 1);
    let second = m.evaluate_tick(&vec![Some(160)], 2);
    assert_eq!(first.len(), 1);
    assert_eq!(second.len(), 1);
    assert_eq!(second[0].observed_price, 160);
    assert_eq!(m.get_alerts().len(), 1);
}

#[test]
fn alerts_of_one_symbol_fire_in_insertion_order() {
    let mut m = AlertMonitor::new();
    m.add_alert("BTC", 300, Direction::Above, NEW_YEAR);
    m.add_alert("BTC", 100, Direction::Above, NEW_YEAR);
    m.add_alert("BTC", 900, Direction::Above, NEW_YEAR);
    let events = m.evaluate_tick(&vec![Some(500)], 1);
    let thresholds: Vec<u64> = events.iter().map(|e| e.threshold).collect();
    assert_eq!(thresholds, vec![300, 100]);
}

#[test]
fn snapshot_is_a_frozen_copy() {
    let mut m = AlertMonitor::new();
    m.add_alert("BTC", 100, Direction::Above, NEW_YEAR);
    let snap = m.snapshot();
    m.remove_alert("BTC");
    assert_eq!(snap.get_alerts().len(), 1);
    assert_eq!(snap.evaluate_tick(&vec![Some(101)], 1).len(), 1);
    assert_eq!(m.get_alerts(), vec!["No alerts set".to_string()]);
}

#[test]
fn fired_event_describes_itself() {
    let mut m = AlertMonitor::new();
    m.add_alert("eth", 200_000, Direction::Below, NEW_YEAR);
    let events = m.evaluate_tick(&vec![Some(199_999)], 3);
    assert_eq!(events[0].describe(), "Alert triggered for ETH: price below $2000.00");
}

#[test]
fn key_level_add_and_remove_take_the_key_as_given() {
    let mut m = AlertMonitor::new();
    m.add_alert_key("btc".to_string(), 100, Direction::Above, NEW_YEAR);
    m.add_alert_key("BTC".to_string(), 200, Direction::Below, NEW_YEAR);
    assert_eq!(m.symbols(), vec!["btc".to_string(), "BTC".to_string()]);
    m.remove_alert_key(&"BTC".to_string());
    assert_eq!(
        m.get_alerts(),
        vec!["btc above $1.00 (set 2024-01-01 00:00)".to_string()]
    );
}
