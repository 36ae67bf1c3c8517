use std::cell::Cell;
use std::rc::Rc;

use tray_item::error::TrayError;
use tray_item::menu::MenuEntry;
use tray_item::tray::IconSource;
use tray_item::tray::TrayState;

/// Runs one activation the way the host does: fire the click callback, run the
/// tracker, fire the double-click callback when the outcome says so.
fn host_activate(state: &mut TrayState<Rc<dyn Fn()>>, now: u64) {
    if let Some(f) = state.registry.click_callback() {
        f();
    }
    let outcome = state.activate(now);
    assert!(outcome.fired_single);
    if outcome.fired_double {
        if let Some(f) = state.registry.double_click_callback() {
            f();
        }
    }
}

#[test]
fn new_tray_is_empty_and_idle() {
    let s: TrayState<u32> = TrayState::new(
        "demo".to_string(),
        IconSource::Resource { name: "icon-name".to_string() },
    );
    assert_eq!(s.title(), "demo");
    assert_eq!(s.icon_name(), "icon-name");
    assert!(s.icon_pixmaps().is_empty());
    assert_eq!(s.model.len(), 0);
    assert!(s.registry.click_callback().is_none());
    assert!(s.registry.double_click_callback().is_none());
}

#[test]
fn raw_pixel_icon_is_stored_verbatim() {
    let mut s: TrayState<u32> = TrayState::new(
        "demo".to_string(),
        IconSource::Resource { name: "start".to_string() },
    );
    s.set_icon(IconSource::Data { data: vec![9, 8, 7, 6], width: 2, height: 1 });
    assert_eq!(s.icon_name(), "");
    let pixmaps = s.icon_pixmaps();
    assert_eq!(pixmaps.len(), 1);
    assert_eq!(pixmaps[0].width, 2);
    assert_eq!(pixmaps[0].height, 1);
    assert_eq!(pixmaps[0].data, vec![9, 8, 7, 6]);
}

#[test]
fn serialized_menu_item_additions_get_distinct_ids_in_order() {
    // Two add_menu_item_with_id units of work, as the host applies them
    // one after the other.
    let mut s: TrayState<u32> = TrayState::new(
        "demo".to_string(),
        IconSource::Resource { name: "i".to_string() },
    );
    let id1 = s.add_menu_item_with_id("first".to_string(), 100);
    let id2 = s.add_menu_item_with_id("second".to_string(), 200);
    assert_ne!(id1, id2);
    assert!(id1 < id2);
    assert_eq!(s.model.len(), 2);
    match s.model.entry_at(0) {
        MenuEntry::ActionItem { id, text, action } => {
            assert_eq!(*id, id1);
            assert_eq!(text, "first");
            assert_eq!(*action, 100);
        }
        _ => panic!("first applied unit of work should stand first"),
    }
    match s.model.entry_at(1) {
        MenuEntry::ActionItem { id, text, action } => {
            assert_eq!(*id, id2);
            assert_eq!(text, "second");
            assert_eq!(*action, 200);
        }
        _ => panic!("second applied unit of work should stand second"),
    }
}

#[test]
fn rename_through_tray_state_is_a_noop_for_unknown_id() {
    let mut s: TrayState<u32> = TrayState::new(
        "demo".to_string(),
        IconSource::Resource { name: "i".to_string() },
    );
    let id = s.add_menu_item_with_id("first".to_string(), 100);
    s.rename_menu_item(id + 1, "other".to_string());
    match s.model.entry_at(0) {
        MenuEntry::ActionItem { text, .. } => assert_eq!(text, "first"),
        _ => panic!("entry kind must be unchanged"),
    }
    s.rename_menu_item(id, "renamed".to_string());
    match s.model.entry_at(0) {
        MenuEntry::ActionItem { text, .. } => assert_eq!(text, "renamed"),
        _ => panic!("entry kind must be unchanged"),
    }
}

#[test]
fn every_activation_fires_the_click_callback_exactly_once() {
    let clicks = Rc::new(Cell::new(0u32));
    let doubles = Rc::new(Cell::new(0u32));
    let mut s: TrayState<Rc<dyn Fn()>> = TrayState::new(
        "demo".to_string(),
        IconSource::Resource { name: "i".to_string() },
    );
    let c = clicks.clone();
    s.set_click_callback(Rc::new(move || c.set(c.get() + 1)));
    let d = doubles.clone();
    s.set_double_click_callback(Rc::new(move || d.set(d.get() + 1)));

    // Three activations: the second completes a double click, the third
    // starts over (the window reset after the second fired).
    host_activate(&mut s, 0);
    host_activate(&mut s, 100);
    host_activate(&mut s, 120);
    assert_eq!(clicks.get(), 3);
    assert_eq!(doubles.get(), 1);
}

#[test]
fn replaced_click_callback_wins() {
    let a_runs = Rc::new(Cell::new(0u32));
    let b_runs = Rc::new(Cell::new(0u32));
    let mut s: TrayState<Rc<dyn Fn()>> = TrayState::new(
        "demo".to_string(),
        IconSource::Resource { name: "i".to_string() },
    );
    let a = a_runs.clone();
    s.set_click_callback(Rc::new(move || a.set(a.get() + 1)));
    let b = b_runs.clone();
    s.set_click_callback(Rc::new(move || b.set(b.get() + 1)));
    host_activate(&mut s, 0);
    host_activate(&mut s, 1000);
    assert_eq!(a_runs.get(), 0);
    assert_eq!(b_runs.get(), 2);
}

#[test]
fn activation_with_no_callbacks_is_a_silent_noop() {
    let mut s: TrayState<Rc<dyn Fn()>> = TrayState::new(
        "demo".to_string(),
        IconSource::Resource { name: "i".to_string() },
    );
    host_activate(&mut s, 0);
    host_activate(&mut s, 50);
}

#[test]
fn add_label_and_separator_leave_the_id_counter_alone() {
    let mut s: TrayState<u32> = TrayState::new(
        "demo".to_string(),
        IconSource::Resource { name: "i".to_string() },
    );
    s.add_label("heading".to_string());
    s.add_separator();
    assert_eq!(s.model.len(), 2);
    assert_eq!(s.model.next_id(), 0);
    let id = s.add_menu_item_with_id("act".to_string(), 5);
    assert_eq!(id, 0);
}

#[test]
fn service_unavailable_has_a_message() {
    let e = TrayError::ServiceUnavailable;
    assert_eq!(e, TrayError::ServiceUnavailable);
    assert_eq!(e.message(), "the tray service is unavailable");
}
