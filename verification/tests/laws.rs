use zenith_browser::browser::{is_light_theme, toggle_theme};
use zenith_browser::tab::tab_initialization_script;
use zenith_browser::urls::{normalize_user_input_url, resolved_tab_title, should_open_auth_window};

#[test]
fn normalising_twice_with_a_search_url_holding_inner_spaces() {
    let engine = "https://search.example/find?x=a b&q={}";
    for raw in ["rust lang", "  example.com ", "", "zenith://assets/history", "http://a.b"] {
        let once = normalize_user_input_url(raw, engine);
        assert_eq!(normalize_user_input_url(&once, engine), once);
    }
    assert_eq!(
        normalize_user_input_url("rust lang", engine),
        "https://search.example/find?x=a b&q=rust%20lang"
    );
}

#[test]
fn resolving_a_resolved_title_changes_nothing() {
    let cases = [
        ("  Rust Docs  ", "https://doc.rust-lang.org/std"),
        ("", "https://www.github.com/x"),
        ("Zenith", "https://example.com"),
        ("New Tab", "zenith://assets/home"),
        ("   ", "not a url"),
    ];
    for (raw, url) in cases {
        let once = resolved_tab_title(raw, url);
        assert_eq!(resolved_tab_title(&once, url), once);
    }
    assert_eq!(resolved_tab_title("", "https://www.github.com/x"), "github.com");
}

#[test]
fn sign_in_windows_only_for_web_urls_with_a_host() {
    assert!(should_open_auth_window("HTTPS://accounts.google.com/signin"));
    assert!(!should_open_auth_window("ftp://accounts.google.com/signin"));
    assert!(!should_open_auth_window("file:///login"));
    assert!(!should_open_auth_window("not a url"));
    assert!(!should_open_auth_window("https://accounts.google.com/RotateCookiesPage"));
}

#[test]
fn tab_scripts_carry_their_own_id() {
    let a = tab_initialization_script(9);
    let b = tab_initialization_script(10);
    assert_ne!(a, b);
    assert!(a.contains("window.__ZENITH_TAB_ID = 9;"));
    assert!(b.contains("window.__ZENITH_TAB_ID = 10;"));
    assert!(b.contains("send({ type: 'close_tab', tabId: 10 });"));
}

#[test]
fn resolved_titles_have_no_surrounding_whitespace() {
    for (raw, url) in [("  Docs \t", "https://a.com"), ("", "https://www.b.org/x"), ("zenith", "https://c.net")] {
        let t = resolved_tab_title(raw, url);
        assert!(!t.is_empty());
        assert_eq!(t.trim(), t);
    }
}

#[test]
fn light_mode_check_follows_the_theme() {
    assert!(is_light_theme("light"));
    assert!(!is_light_theme("dark"));
    assert!(!is_light_theme("Light"));
    assert!(is_light_theme(&toggle_theme("dark")));
    assert!(!is_light_theme(&toggle_theme("light")));
    assert_eq!(toggle_theme(&toggle_theme("dark")), "dark");
}

#[test]
fn tab_script_trims_to_one_call() {
    let s = tab_initialization_script(3);
    assert!(s.trim().starts_with("(function() {"));
    assert!(s.trim().ends_with("})();"));
}
