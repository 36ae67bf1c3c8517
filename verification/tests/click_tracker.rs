use tray_item::click::ClickTracker;
use tray_item::click::DOUBLE_CLICK_WINDOW_MS;

#[test]
fn first_activation_is_never_a_double_click() {
    let mut t = ClickTracker::new();
    let o = t.on_activate(0);
    assert!(o.fired_single);
    assert!(!o.fired_double);
}

#[test]
fn second_activation_within_window_is_a_double_click() {
    let mut t = ClickTracker::new();
    let o1 = t.on_activate(0);
    assert!(!o1.fired_double);
    let o2 = t.on_activate(100);
    assert!(o2.fired_single);
    assert!(o2.fired_double);
}

#[test]
fn second_activation_past_window_is_not_a_double_click() {
    let mut t = ClickTracker::new();
    let _ = t.on_activate(0);
    let o2 = t.on_activate(151);
    assert!(o2.fired_single);
    assert!(!o2.fired_double);
}

#[test]
fn window_bound_is_inclusive() {
    assert_eq!(DOUBLE_CLICK_WINDOW_MS, 150);
    let mut t = ClickTracker::new();
    let _ = t.on_activate(0);
    let o2 = t.on_activate(150);
    assert!(o2.fired_double);
}

#[test]
fn third_click_restarts_the_window() {
    // After a double click fired, the tracker is idle again, so a third click
    // shortly after the second arms a fresh window instead of firing.
    let mut t = ClickTracker::new();
    let o1 = t.on_activate(0);
    let o2 = t.on_activate(100);
    let o3 = t.on_activate(120);
    assert!(!o1.fired_double);
    assert!(o2.fired_double);
    assert!(!o3.fired_double);
}

#[test]
fn every_activation_fires_single() {
    let mut t = ClickTracker::new();
    for now in [0u64, 3, 10, 1000, 1001, 1002, 5000] {
        let o = t.on_activate(now);
        assert!(o.fired_single);
    }
}

#[test]
fn far_apart_clicks_never_double() {
    let mut t = ClickTracker::new();
    for i in 0..10u64 {
        let o = t.on_activate(i * 1000);
        assert!(!o.fired_double);
    }
}
