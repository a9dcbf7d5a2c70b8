use slack_tui::ticker::{Ticker, TICK_RATE_MS};

#[test]
fn timeout_is_rest_of_interval() {
    let t = Ticker::new(TICK_RATE_MS, 1000);
    assert_eq!(t.poll_timeout(1000), 200);
    assert_eq!(t.poll_timeout(1050), 150);
    assert_eq!(t.poll_timeout(1200), 0);
    assert_eq!(t.poll_timeout(5000), 0);
}

#[test]
fn tick_due_after_full_interval() {
    let mut t = Ticker::new(200, 0);
    assert!(!t.tick_due(199));
    assert!(t.tick_due(200));
    t.restart(230);
    assert!(!t.tick_due(300));
    assert_eq!(t.poll_timeout(300), 130);
    assert!(t.tick_due(430));
}

#[test]
fn clock_reading_earlier_counts_as_no_time() {
    let t = Ticker::new(200, 500);
    assert_eq!(t.poll_timeout(100), 200);
    assert!(!t.tick_due(100));
}
