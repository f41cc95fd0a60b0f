use le_browser::action::{Effect, PaletteAction};
use le_browser::palette::search_url;
use le_browser::window::Window;

fn window_with_tabs(tabs: &[(&str, &str)]) -> Window {
    let mut w = Window::new();
    for (title, location) in tabs {
        w.new_tab(location);
        let i = w.sessions.len() - 1;
        w.sessions[i].title = Some(String::from(*title));
    }
    w
}

#[test]
fn two_tabs_query_matches_one_tab_plus_search() {
    let mut w = window_with_tabs(&[
        ("Wikipedia", "https://en.wikipedia.org"),
        ("GitHub", "https://github.com"),
    ]);
    w.populate_command_palette("git");
    assert_eq!(w.palette.candidates.len(), 2);
    match &w.palette.candidates[0].action {
        PaletteAction::Search(q) => assert_eq!(q, "git"),
        other => panic!("expected a search candidate, got {:?}", other),
    }
    match &w.palette.candidates[1].action {
        PaletteAction::SwitchTab(i) => assert_eq!(*i, 1),
        other => panic!("expected the GitHub tab, got {:?}", other),
    }
    assert_eq!(w.palette.candidates[1].title, "GitHub");
    // GitHub is chosen only after moving past the primary candidate.
    assert_eq!(w.palette.selected, Some(0));
    w.palette.move_selection(true);
    assert_eq!(w.palette.selected, Some(1));
}

#[test]
fn command_query_yields_single_reload_candidate() {
    let mut w = window_with_tabs(&[("Wikipedia", "https://en.wikipedia.org")]);
    w.populate_command_palette(":reload");
    assert_eq!(w.palette.candidates.len(), 1);
    match &w.palette.candidates[0].action {
        PaletteAction::Command(c) => assert_eq!(c, "reload"),
        other => panic!("expected a command candidate, got {:?}", other),
    }
    let eff = w.confirm();
    assert!(matches!(eff, Effect::Reload));
    assert!(!w.palette.visible);
    assert_eq!(w.palette.query, "");
    assert!(w.palette.candidates.is_empty());
}

#[test]
fn empty_query_lists_tabs_in_registry_order() {
    let mut w = window_with_tabs(&[
        ("Wikipedia", "https://en.wikipedia.org"),
        ("GitHub", "https://github.com"),
    ]);
    w.populate_command_palette("");
    assert_eq!(w.palette.candidates.len(), 2);
    match &w.palette.candidates[0].action {
        PaletteAction::SwitchTab(i) => assert_eq!(*i, 0),
        other => panic!("unexpected action {:?}", other),
    }
    match &w.palette.candidates[1].action {
        PaletteAction::SwitchTab(i) => assert_eq!(*i, 1),
        other => panic!("unexpected action {:?}", other),
    }
    assert_eq!(w.palette.candidates[0].title, "Wikipedia");
    assert_eq!(w.palette.candidates[1].title, "GitHub");
}

#[test]
fn query_with_period_becomes_url_candidate() {
    let w = Window::new();
    assert!(w.is_likely_url("example.com"));
    assert!(!w.is_likely_url("hello world"));
    assert!(!w.is_likely_url("?what.is"));
    assert!(!w.is_likely_url("a. b"));

    let mut w = Window::new();
    w.populate_command_palette("example.com");
    assert_eq!(w.palette.candidates.len(), 1);
    match &w.palette.candidates[0].action {
        PaletteAction::OpenUrl(u) => assert_eq!(u, "https://example.com"),
        other => panic!("expected a URL candidate, got {:?}", other),
    }
}

#[test]
fn query_with_scheme_is_kept_verbatim() {
    let mut w = Window::new();
    w.populate_command_palette("http://example.com");
    match &w.palette.candidates[0].action {
        PaletteAction::OpenUrl(u) => assert_eq!(u, "http://example.com"),
        other => panic!("expected a URL candidate, got {:?}", other),
    }
}

#[test]
fn plain_words_become_search_candidate() {
    let mut w = Window::new();
    w.populate_command_palette("hello world");
    assert_eq!(w.palette.candidates.len(), 1);
    match &w.palette.candidates[0].action {
        PaletteAction::Search(q) => assert_eq!(q, "hello world"),
        other => panic!("expected a search candidate, got {:?}", other),
    }
    assert_eq!(w.palette.candidates[0].subtitle, "DuckDuckGo: hello world");
}

#[test]
fn query_is_trimmed_before_classification() {
    let mut w = Window::new();
    w.populate_command_palette("  :q  ");
    assert_eq!(w.palette.candidates.len(), 1);
    match &w.palette.candidates[0].action {
        PaletteAction::Command(c) => assert_eq!(c, "q"),
        other => panic!("expected a command candidate, got {:?}", other),
    }
}

#[test]
fn title_match_is_case_insensitive_location_match_is_not() {
    let mut w = window_with_tabs(&[("GitHub", "https://github.com")]);
    w.populate_command_palette("GITHUB");
    // primary search candidate plus the case-folded title match
    assert_eq!(w.palette.candidates.len(), 2);
    // location matching is verbatim: the uppercase form matches no tab and
    // leaves only the primary URL candidate, the exact form matches
    w.populate_command_palette("HUB.COM");
    assert_eq!(w.palette.candidates.len(), 1);
    w.populate_command_palette("hub.com");
    assert_eq!(w.palette.candidates.len(), 2);
}

#[test]
fn search_confirm_opens_encoded_url() {
    let mut w = Window::new();
    w.populate_command_palette("rust lang");
    let eff = w.confirm();
    match eff {
        Effect::OpenTab(u) => assert_eq!(u, "https://duckduckgo.com/?q=rust%20lang"),
        other => panic!("expected a new tab, got {:?}", other),
    }
    assert_eq!(w.sessions.len(), 1);
    assert_eq!(
        w.sessions[0].location.as_deref(),
        Some("https://duckduckgo.com/?q=rust%20lang")
    );
    assert_eq!(w.current, Some(0));
}

#[test]
fn switch_tab_candidate_moves_current_pointer() {
    let mut w = window_with_tabs(&[
        ("Wikipedia", "https://en.wikipedia.org"),
        ("GitHub", "https://github.com"),
    ]);
    w.populate_command_palette("wikipedia");
    // candidates: Search("wikipedia") then SwitchTab(0)
    w.palette.move_selection(true);
    let eff = w.confirm();
    assert!(matches!(eff, Effect::Nothing));
    assert_eq!(w.current, Some(0));
    assert!(!w.palette.visible);
}

#[test]
fn switching_to_an_out_of_range_tab_is_ignored() {
    let mut w = window_with_tabs(&[("Wikipedia", "https://en.wikipedia.org")]);
    let eff = w.execute_palette_action(PaletteAction::SwitchTab(9));
    assert!(matches!(eff, Effect::Nothing));
    assert_eq!(w.current, Some(0));
    assert!(!w.palette.visible);
}

#[test]
fn open_url_action_creates_the_session() {
    let mut w = Window::new();
    let eff = w.execute_palette_action(PaletteAction::OpenUrl(String::from("https://example.org")));
    match eff {
        Effect::OpenTab(u) => assert_eq!(u, "https://example.org"),
        other => panic!("expected a new tab, got {:?}", other),
    }
    assert_eq!(w.sessions.len(), 1);
    assert_eq!(w.current, Some(0));
}

#[test]
fn unknown_command_is_reported_not_fatal() {
    let mut w = window_with_tabs(&[("Wikipedia", "https://en.wikipedia.org")]);
    w.populate_command_palette(":frobnicate");
    let eff = w.confirm();
    match eff {
        Effect::UnknownCommand(c) => assert_eq!(c, "frobnicate"),
        other => panic!("expected an unknown-command report, got {:?}", other),
    }
    assert_eq!(w.sessions.len(), 1);
}

#[test]
fn quit_and_close_commands() {
    let mut w = window_with_tabs(&[("Wikipedia", "https://en.wikipedia.org")]);
    w.populate_command_palette(":q");
    let eff = w.confirm();
    assert!(matches!(eff, Effect::Quit));
    assert_eq!(w.sessions.len(), 1);

    w.populate_command_palette(":d");
    let eff = w.confirm();
    match eff {
        Effect::CloseTab { index, quit } => {
            assert_eq!(index, 0);
            assert!(quit);
        }
        other => panic!("expected a close, got {:?}", other),
    }
    assert_eq!(w.sessions.len(), 0);
}

#[test]
fn reload_command_without_tab_does_nothing() {
    let mut w = Window::new();
    w.populate_command_palette(":r");
    let eff = w.confirm();
    assert!(matches!(eff, Effect::Nothing));
}

#[test]
fn confirm_with_no_selection_does_nothing() {
    let mut w = Window::new();
    w.populate_command_palette("");
    assert_eq!(w.palette.selected, None);
    let eff = w.confirm();
    assert!(matches!(eff, Effect::Nothing));
}

#[test]
fn move_selection_clamps_at_both_ends() {
    let mut w = window_with_tabs(&[
        ("Wikipedia", "https://en.wikipedia.org"),
        ("GitHub", "https://github.com"),
    ]);
    w.populate_command_palette("");
    assert_eq!(w.palette.selected, Some(0));
    w.palette.move_selection(false);
    assert_eq!(w.palette.selected, Some(0));
    w.palette.move_selection(true);
    assert_eq!(w.palette.selected, Some(1));
    w.palette.move_selection(true);
    assert_eq!(w.palette.selected, Some(1));
    w.palette.move_selection(false);
    assert_eq!(w.palette.selected, Some(0));

    w.palette.selected = None;
    w.palette.move_selection(false);
    assert_eq!(w.palette.selected, None);
    w.palette.move_selection(true);
    assert_eq!(w.palette.selected, Some(0));
}

#[test]
fn search_url_percent_encodes_the_query() {
    assert_eq!(search_url("a b&c"), "https://duckduckgo.com/?q=a%20b%26c");
    assert_eq!(search_url("safe-chars_0.9~"), "https://duckduckgo.com/?q=safe-chars_0.9~");
    assert_eq!(search_url(""), "https://duckduckgo.com/?q=");
}

#[test]
fn toggle_palette_resets_query_and_lists_tabs() {
    let mut w = window_with_tabs(&[("Wikipedia", "https://en.wikipedia.org")]);
    assert!(!w.palette.visible);
    w.toggle_command_palette();
    assert!(w.palette.visible);
    assert_eq!(w.palette.query, "");
    assert_eq!(w.palette.candidates.len(), 1);
    assert_eq!(w.palette.selected, Some(0));
    w.toggle_command_palette();
    assert!(!w.palette.visible);
    assert!(w.palette.candidates.is_empty());
}

#[test]
fn session_without_title_is_untitled() {
    let mut w = Window::new();
    w.new_tab("https://example.org");
    w.populate_command_palette("");
    assert_eq!(w.palette.candidates[0].title, "Untitled");
    assert_eq!(w.palette.candidates[0].subtitle, "https://example.org");
    // the placeholder title also takes part in matching
    w.populate_command_palette("untitled");
    assert_eq!(w.palette.candidates.len(), 2);
}
