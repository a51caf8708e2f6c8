use crab_launcher::history::History;

#[test]
fn record_then_get() {
    let mut h = History::empty();
    assert_eq!(h.get("firefox"), None);
    h.record("firefox".to_string(), 100);
    h.record("gimp".to_string(), 50);
    assert_eq!(h.get("firefox"), Some(100));
    assert_eq!(h.get("gimp"), Some(50));
    h.record("firefox".to_string(), 200);
    assert_eq!(h.get("firefox"), Some(200));
    assert_eq!(h.get("gimp"), Some(50));
    assert_eq!(h.entries().len(), 2);
}

#[test]
fn entries_round_trip() {
    let mut h = History::empty();
    h.record("a".to_string(), 1);
    h.record("b".to_string(), 2);
    h.record("a".to_string(), 3);
    let loaded = History::from_entries(h.entries());
    assert_eq!(loaded.get("a"), Some(3));
    assert_eq!(loaded.get("b"), Some(2));
    assert_eq!(loaded.entries(), h.entries());
}

#[test]
fn later_entries_win_when_loading() {
    let h = History::from_entries(vec![("x".to_string(), 1), ("y".to_string(), 2), ("x".to_string(), 9)]);
    assert_eq!(h.get("x"), Some(9));
    assert_eq!(h.get("y"), Some(2));
    assert_eq!(h.entries().len(), 2);
}

#[test]
fn update_records_current_time() {
    let mut h = History::empty();
    let before = std::time::SystemTime::now()
        .duration_since(std::time::UNIX_EPOCH)
        .unwrap()
        .as_secs();
    assert_eq!(h.update("term".to_string()), Ok(()));
    let t = h.get("term").unwrap();
    assert!(t >= before);
}
