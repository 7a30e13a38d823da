use zenith_browser::browser::{
    search_url_for_engine, toggle_theme, BrowserState, CloseOutcome, SettingChange,
    ACCOUNT_SYNC_URL, DEFAULT_SEARCH_URL,
};

fn state_with_tabs(n: usize) -> BrowserState {
    let mut s = BrowserState::new();
    for i in 0..n {
        let url = s.start_url(Some(&format!("site{i}.com")));
        s.add_tab(url, true, false);
    }
    s
}

#[test]
fn new_state_is_empty() {
    let s = BrowserState::new();
    assert!(s.tabs().is_empty());
    assert_eq!(s.active_tab_id(), None);
    assert_eq!(s.next_tab_id(), 1);
    assert!(!s.chrome_ready());
    assert_eq!(s.current_theme(), "dark");
    assert_eq!(s.current_search_url(), DEFAULT_SEARCH_URL);
}

#[test]
fn start_url_defaults_to_home() {
    let s = BrowserState::new();
    assert_eq!(s.start_url(None), "zenith://assets/home");
    assert_eq!(s.start_url(Some("rust lang")), "https://www.google.com/search?q=rust%20lang");
}

#[test]
fn add_tab_assigns_fresh_ids_and_activates() {
    let mut s = BrowserState::new();
    let i = s.add_tab("https://a.com".to_string(), false, false);
    assert_eq!(i, 0);
    // the first tab becomes active even when not asked to
    assert_eq!(s.active_tab_id(), Some(1));
    let j = s.add_tab("https://b.com".to_string(), false, true);
    assert_eq!(j, 1);
    assert_eq!(s.active_tab_id(), Some(1));
    let k = s.add_tab("https://c.com".to_string(), true, false);
    assert_eq!(s.active_tab_id(), Some(3));
    let t = &s.tabs()[k];
    assert_eq!(t.id, 3);
    assert_eq!(t.title, "Zenith");
    assert!(t.active_permissions.is_empty());
    assert!(s.tabs()[1].is_incognito);
    assert_eq!(s.next_tab_id(), 4);
}

#[test]
fn switch_only_to_open_tabs() {
    let mut s = state_with_tabs(3);
    assert!(s.switch_tab(1));
    assert_eq!(s.active_tab_id(), Some(1));
    assert!(!s.switch_tab(99));
    assert_eq!(s.active_tab_id(), Some(1));
}

#[test]
fn closing_the_active_tab_activates_the_previous_one() {
    let mut s = state_with_tabs(3);
    assert_eq!(s.active_tab_id(), Some(3));
    assert_eq!(s.close_tab(None), CloseOutcome::Closed { index: 2, reopen: false });
    assert_eq!(s.active_tab_id(), Some(2));
    assert!(s.switch_tab(1));
    assert_eq!(s.close_tab(None), CloseOutcome::Closed { index: 0, reopen: false });
    assert_eq!(s.active_tab_id(), Some(2));
    assert_eq!(s.tabs().len(), 1);
}

#[test]
fn closing_another_tab_keeps_the_active_one() {
    let mut s = state_with_tabs(3);
    assert_eq!(s.close_tab(Some(1)), CloseOutcome::Closed { index: 0, reopen: false });
    assert_eq!(s.active_tab_id(), Some(3));
    assert_eq!(s.close_tab(Some(42)), CloseOutcome::Missing);
    let ids: Vec<u32> = s.tabs().iter().map(|t| t.id).collect();
    assert_eq!(ids, vec![2, 3]);
}

#[test]
fn closing_the_last_tab_asks_for_a_new_one() {
    let mut s = state_with_tabs(1);
    assert_eq!(s.close_tab(None), CloseOutcome::Closed { index: 0, reopen: true });
    assert!(s.tabs().is_empty());
    let mut e = BrowserState::new();
    assert_eq!(e.close_tab(None), CloseOutcome::NoTarget);
}

#[test]
fn close_undoes_add() {
    let mut s = state_with_tabs(2);
    s.switch_tab(1);
    let before: Vec<(u32, String)> = s.tabs().iter().map(|t| (t.id, t.url.clone())).collect();
    let id = s.next_tab_id();
    s.add_tab("https://x.com".to_string(), true, false);
    assert_eq!(s.close_tab(Some(id)), CloseOutcome::Closed { index: 2, reopen: false });
    let after: Vec<(u32, String)> = s.tabs().iter().map(|t| (t.id, t.url.clone())).collect();
    assert_eq!(before, after);
    // the new tab had become active; the tab before it takes over
    assert_eq!(s.active_tab_id(), Some(2));
}

#[test]
fn navigate_updates_the_target_tab() {
    let mut s = state_with_tabs(2);
    let plan = s.navigate_tab(Some(1), "news.example.org").unwrap();
    assert_eq!(plan.url, "https://news.example.org");
    assert_eq!(plan.loaded, Some(0));
    assert!(!plan.warmup_account_sync);
    assert_eq!(s.tabs()[0].url, "https://news.example.org");
    assert_eq!(s.tabs()[0].title, "news.example.org");
    assert_eq!(s.tabs()[1].url, "https://site1.com");

    let plan = s.navigate_tab(None, "https://www.youtube.com/").unwrap();
    assert!(plan.warmup_account_sync);
    assert_eq!(plan.loaded, Some(1));
    assert_eq!(ACCOUNT_SYNC_URL, "https://accounts.google.com/RotateCookiesPage");

    assert!(s.navigate_tab(None, "zenith://secret").is_none());
    let plan = s.navigate_tab(Some(77), "example.com").unwrap();
    assert_eq!(plan.loaded, None);
    assert!(BrowserState::new().navigate_tab(None, "example.com").is_none());
}

#[test]
fn url_change_replaces_placeholder_titles_only() {
    let mut s = state_with_tabs(1);
    let c = s.on_url_changed(1, "https://www.rust-lang.org/learn".to_string()).unwrap();
    assert_eq!(c.index, 0);
    assert!(c.track);
    assert_eq!(s.tabs()[0].title, "rust-lang.org");
    s.on_title_changed(1, "Learn Rust");
    assert_eq!(s.tabs()[0].title, "Learn Rust");
    let c = s.on_url_changed(1, "https://accounts.google.com/x".to_string()).unwrap();
    assert!(!c.track);
    assert_eq!(s.tabs()[0].title, "Learn Rust");
    assert!(s.on_url_changed(9, "https://a".to_string()).is_none());
}

#[test]
fn title_change_resolves_generic_titles() {
    let mut s = state_with_tabs(1);
    s.on_url_changed(1, "https://www.youtube.com/".to_string());
    let (i, track) = s.on_title_changed(1, "  Zenith ").unwrap();
    assert_eq!(i, 0);
    assert!(track);
    assert_eq!(s.tabs()[0].title, "youtube.com");
    assert!(s.on_title_changed(5, "x").is_none());
}

#[test]
fn permissions_are_lowercased_granted_once_and_revoked() {
    let mut s = state_with_tabs(1);
    s.set_tab_permission(1, "Camera", true);
    s.set_tab_permission(1, "camera", true);
    s.set_tab_permission(1, "GEOLOCATION", true);
    assert_eq!(s.tabs()[0].active_permissions, vec!["camera".to_string(), "geolocation".to_string()]);
    s.set_tab_permission(1, "CAMERA", false);
    assert_eq!(s.tabs()[0].active_permissions, vec!["geolocation".to_string()]);
    assert_eq!(s.set_tab_permission(2, "camera", true), None);
}

#[test]
fn settings_change_theme_and_engine() {
    let mut s = BrowserState::new();
    assert_eq!(s.apply_setting("theme", "light"), SettingChange::Theme);
    assert_eq!(s.current_theme(), "light");
    assert_eq!(s.apply_setting("searchEngine", "duckduckgo"), SettingChange::SearchEngine);
    assert_eq!(s.current_search_url(), "https://duckduckgo.com/?q={}");
    assert_eq!(s.apply_setting("search_engine", "bing"), SettingChange::SearchEngine);
    assert_eq!(s.current_search_url(), "https://www.bing.com/search?q={}");
    assert_eq!(s.apply_setting("search_engine", "yahoo"), SettingChange::SearchEngine);
    assert_eq!(s.current_search_url(), DEFAULT_SEARCH_URL);
    assert_eq!(s.apply_setting("font", "big"), SettingChange::Other);
    assert_eq!(search_url_for_engine("bing"), "https://www.bing.com/search?q={}");
    assert_eq!(toggle_theme("light"), "dark");
    assert_eq!(toggle_theme("dark"), "light");
}

#[test]
fn snapshots() {
    let mut s = state_with_tabs(3);
    s.switch_tab(2);
    s.set_tab_permission(2, "camera", true);
    let session = s.session_tabs();
    assert_eq!(session.len(), 3);
    assert_eq!(session[1].url, "https://site1.com");
    assert!(session[1].is_active);
    assert!(!session[0].is_active);
    assert_eq!(session[2].position, 2);
    let sugg = s.tab_suggestions();
    assert_eq!(sugg[0].suggestion_type, "tab");
    assert_eq!(sugg[2].tab_id, Some(3));
    assert_eq!(sugg[2].url.as_deref(), Some("https://site2.com"));
    let chrome = s.chrome_tabs();
    assert_eq!(chrome[1].active_permissions, vec!["camera".to_string()]);
    assert!(!chrome[1].is_bookmarked);
    assert_eq!(s.tab_visibility(), vec![false, true, false]);
    s.set_chrome_ready();
    assert!(s.chrome_ready());
}

fn row(url: &str, is_active: bool, position: i32) -> zenith_browser::config::SessionTab {
    zenith_browser::config::SessionTab {
        url: url.to_string(),
        title: String::new(),
        is_active,
        position,
    }
}

#[test]
fn restore_session_activates_the_last_active_row() {
    let mut s = BrowserState::new();
    let rows = vec![
        row("https://a.com", false, 0),
        row("b.org", true, 1),
        row("https://c.net", true, 2),
        row("rust lang", false, 3),
    ];
    let target = s.restore_session(&rows);
    assert_eq!(target, Some(3));
    let tabs = s.tabs();
    assert_eq!(tabs.len(), 4);
    assert_eq!(tabs[0].id, 1);
    assert_eq!(tabs[1].url, "https://b.org");
    assert_eq!(tabs[3].url, "https://www.google.com/search?q=rust%20lang");
    assert_eq!(tabs[3].id, 4);
    assert!(tabs.iter().all(|t| t.title == "Zenith" && !t.is_incognito));
    // the first restored tab is active until the caller switches
    assert_eq!(s.active_tab_id(), Some(1));
    assert_eq!(s.next_tab_id(), 5);
}

#[test]
fn restore_session_without_active_row_picks_the_last_tab() {
    let mut s = BrowserState::new();
    let rows = vec![row("https://a.com", false, 0), row("https://b.com", false, 1)];
    assert_eq!(s.restore_session(&rows), Some(2));
}

#[test]
fn restore_session_of_nothing_opens_nothing() {
    let mut s = BrowserState::new();
    assert_eq!(s.restore_session(&Vec::new()), None);
    assert!(s.tabs().is_empty());
    assert_eq!(s.next_tab_id(), 1);
}
