use le_browser::action::Effect;
use le_browser::window::Window;

#[test]
fn close_with_empty_registry_is_a_no_op() {
    let mut w = Window::new();
    let eff = w.close_current_tab();
    assert!(matches!(eff, Effect::Nothing));
    assert_eq!(w.sessions.len(), 0);
    assert_eq!(w.current, None);
}

#[test]
fn closing_the_last_session_signals_termination() {
    let mut w = Window::new();
    w.new_tab("https://example.org");
    let eff = w.close_current_tab();
    match eff {
        Effect::CloseTab { index, quit } => {
            assert_eq!(index, 0);
            assert!(quit);
        }
        other => panic!("expected a close, got {:?}", other),
    }
    assert_eq!(w.sessions.len(), 0);
    assert_eq!(w.current, None);
}

#[test]
fn closing_keeps_the_clamped_index_current() {
    let mut w = Window::new();
    w.new_tab("https://a.example");
    w.new_tab("https://b.example");
    w.new_tab("https://c.example");
    w.focus_tab_by_index(1);
    let eff = w.close_current_tab();
    match eff {
        Effect::CloseTab { index, quit } => {
            assert_eq!(index, 1);
            assert!(!quit);
        }
        other => panic!("expected a close, got {:?}", other),
    }
    // the session that was at position 2 is now at position 1 and current
    assert_eq!(w.sessions.len(), 2);
    assert_eq!(w.current, Some(1));
    assert_eq!(w.sessions[1].location.as_deref(), Some("https://c.example"));

    // closing the now-last tab clamps the pointer back
    let _ = w.close_current_tab();
    assert_eq!(w.current, Some(0));
    assert_eq!(w.sessions[0].location.as_deref(), Some("https://a.example"));
}

#[test]
fn new_tab_appends_and_becomes_current() {
    let mut w = Window::new();
    w.new_tab("https://a.example");
    assert_eq!(w.current, Some(0));
    w.new_tab("https://b.example");
    assert_eq!(w.current, Some(1));
    assert_eq!(w.sessions.len(), 2);
    assert_eq!(w.sessions[1].title, None);
    assert_eq!(w.sessions[1].edit_state, None);
}

#[test]
fn cycling_wraps_both_ways() {
    let mut w = Window::new();
    w.new_tab("https://a.example");
    w.new_tab("https://b.example");
    w.new_tab("https://c.example");
    assert_eq!(w.current, Some(2));
    w.cycle_tab(true);
    assert_eq!(w.current, Some(0));
    w.cycle_tab(false);
    assert_eq!(w.current, Some(2));
}

#[test]
fn cycling_three_times_over_three_tabs_is_the_identity() {
    let mut w = Window::new();
    w.new_tab("https://a.example");
    w.new_tab("https://b.example");
    w.new_tab("https://c.example");
    w.focus_tab_by_index(1);
    for _ in 0..3 {
        w.cycle_tab(true);
    }
    assert_eq!(w.current, Some(1));
    w.cycle_tab(true);
    w.cycle_tab(false);
    assert_eq!(w.current, Some(1));
}

#[test]
fn cycling_with_no_tabs_is_a_no_op() {
    let mut w = Window::new();
    w.cycle_tab(true);
    w.cycle_tab(false);
    assert_eq!(w.current, None);
}

#[test]
fn focus_out_of_range_is_ignored() {
    let mut w = Window::new();
    w.new_tab("https://a.example");
    w.focus_tab_by_index(5);
    assert_eq!(w.current, Some(0));
    w.focus_tab_by_index(0);
    assert_eq!(w.current, Some(0));
}

#[test]
fn current_session_follows_the_pointer() {
    let mut w = Window::new();
    assert!(w.current_session().is_none());
    w.new_tab("https://a.example");
    w.new_tab("https://b.example");
    w.focus_tab_by_index(0);
    let s = w.current_session().expect("a session is current");
    assert_eq!(s.location.as_deref(), Some("https://a.example"));
}

#[test]
fn set_edit_state_updates_only_the_addressed_session() {
    let mut w = Window::new();
    w.new_tab("https://a.example");
    w.new_tab("https://b.example");
    w.set_edit_state(0, true);
    assert_eq!(w.sessions[0].edit_state, Some(true));
    assert_eq!(w.sessions[1].edit_state, None);
    // a report for a session that no longer exists is dropped
    w.set_edit_state(7, true);
    assert_eq!(w.sessions.len(), 2);
}

#[test]
fn dock_info_pluralizes_and_falls_back() {
    let mut w = Window::new();
    let d = w.update_dock_info();
    assert_eq!(d.profile, "default profile");
    assert_eq!(d.location, "No page.");
    assert_eq!(d.tabs, "0 tabs open");

    w.new_tab("https://a.example");
    let d = w.update_dock_info();
    assert_eq!(d.location, "https://a.example");
    assert_eq!(d.tabs, "1 tab open");

    w.new_tab("https://b.example");
    let d = w.update_dock_info();
    assert_eq!(d.tabs, "2 tabs open");

    // location unknown: fall back to the title, then to the placeholder
    w.sessions[1].location = None;
    w.sessions[1].title = Some(String::from("A title"));
    let d = w.update_dock_info();
    assert_eq!(d.location, "A title");
    w.sessions[1].title = None;
    let d = w.update_dock_info();
    assert_eq!(d.location, "Loading...");

    for i in 0..10 {
        w.new_tab(&format!("https://t{}.example", i));
    }
    let d = w.update_dock_info();
    assert_eq!(d.tabs, "12 tabs open");
}

#[test]
fn toggle_dock_flips_visibility() {
    let mut w = Window::new();
    assert!(!w.dock_visible);
    w.toggle_dock();
    assert!(w.dock_visible);
    w.toggle_dock();
    assert!(!w.dock_visible);
}
