use zenith_browser::url_parts::ParsedUrl;
use zenith_browser::urls::{
    fallback_title_for_url, has_auth_markers, is_assets_url, is_auth_host,
    is_background_google_account_sync_url, is_http_like_url, looks_like_oauth_exchange,
    normalize_user_input_url, resolved_tab_title, should_open_auth_window,
    should_track_recent_site, should_warmup_youtube_account_sync, HOME_URL,
};

#[test]
fn normalize_user_input_uses_https_for_domains() {
    assert_eq!(
        normalize_user_input_url("example.com", "https://www.google.com/search?q={}"),
        "https://example.com".to_string()
    );
}

#[test]
fn normalize_user_input_uses_google_for_queries() {
    let out = normalize_user_input_url("rust browser project", "https://www.google.com/search?q={}");
    assert!(out.starts_with("https://www.google.com/search?"));
    assert!(out.contains("q=rust%20browser%20project"));
}

#[test]
fn fallback_title_uses_hostname() {
    assert_eq!(
        fallback_title_for_url("https://www.youtube.com/watch?v=1"),
        "youtube.com"
    );
    assert_eq!(fallback_title_for_url("zenith://assets/history"), "History");
}

#[test]
fn resolved_title_falls_back_for_generic_browser_title() {
    assert_eq!(
        resolved_tab_title("Zenith", "https://www.youtube.com/"),
        "youtube.com"
    );
}

#[test]
fn auth_window_detects_known_auth_host() {
    assert!(should_open_auth_window("https://github.com/login"));
}

#[test]
fn auth_window_detects_oauth_parameters() {
    assert!(should_open_auth_window(
        "https://example.com/authorize?client_id=a&redirect_uri=b&response_type=code"
    ));
}

#[test]
fn auth_window_ignores_background_accounts_popup_urls() {
    assert!(!should_open_auth_window(
        "https://accounts.google.com/RotateCookiesPage"
    ));
}

#[test]
fn auth_window_ignores_accounts_root() {
    assert!(!should_open_auth_window("https://accounts.google.com/"));
}

#[test]
fn auth_window_accepts_google_service_login() {
    assert!(should_open_auth_window(
        "https://accounts.google.com/ServiceLogin?hl=en"
    ));
}

#[test]
fn detects_background_google_account_sync_url() {
    assert!(is_background_google_account_sync_url(
        "https://accounts.google.com/RotateCookiesPage?origin=https://www.youtube.com"
    ));
    assert!(!is_background_google_account_sync_url(
        "https://accounts.google.com/ServiceLogin?hl=en"
    ));
}

#[test]
fn detects_youtube_home_for_sync_warmup() {
    assert!(should_warmup_youtube_account_sync("https://www.youtube.com/"));
    assert!(should_warmup_youtube_account_sync("https://youtube.com"));
    assert!(!should_warmup_youtube_account_sync(
        "https://www.youtube.com/watch?v=dQw4w9WgXcQ"
    ));
}

#[test]
fn tracks_recent_sites_only_for_regular_http_pages() {
    assert!(should_track_recent_site("https://example.com/a"));
    assert!(!should_track_recent_site("zenith://assets/home"));
    assert!(!should_track_recent_site(
        "https://accounts.google.com/ServiceLogin"
    ));
}

// ---------------------------------------------------------------------------

#[test]
fn normalize_blank_input_goes_home() {
    assert_eq!(normalize_user_input_url("   \t ", "https://www.google.com/search?q={}"), HOME_URL);
}

#[test]
fn normalize_keeps_typed_urls_trimmed() {
    assert_eq!(
        normalize_user_input_url("  http://a.b/c  ", "https://x/?q={}"),
        "http://a.b/c"
    );
    assert_eq!(
        normalize_user_input_url("zenith://assets/settings", "https://x/?q={}"),
        "zenith://assets/settings"
    );
    assert_eq!(
        normalize_user_input_url("localhost:8080", "https://x/?q={}"),
        "https://localhost:8080"
    );
}

#[test]
fn normalize_encodes_non_ascii_queries() {
    assert_eq!(
        normalize_user_input_url("café au lait", "https://duckduckgo.com/?q={}"),
        "https://duckduckgo.com/?q=caf%C3%A9%20au%20lait"
    );
}

#[test]
fn normalize_is_idempotent_on_a_search() {
    let engine = "https://www.bing.com/search?q={}";
    let once = normalize_user_input_url("what is rust", engine);
    assert_eq!(normalize_user_input_url(&once, engine), once);
}

#[test]
fn url_scheme_checks() {
    assert!(is_http_like_url("https://a"));
    assert!(is_http_like_url("http://a"));
    assert!(!is_http_like_url("HTTP://a"));
    assert!(!is_http_like_url("ftp://a"));
    assert!(is_assets_url("zenith://assets"));
    assert!(is_assets_url("zenith://assets/home"));
    assert!(!is_assets_url("zenith://assetsx"));
}

#[test]
fn fallback_titles_for_asset_pages_and_bad_urls() {
    assert_eq!(fallback_title_for_url("zenith://assets/settings"), "Settings");
    assert_eq!(fallback_title_for_url("zenith://assets/downloads"), "Downloads");
    assert_eq!(fallback_title_for_url("zenith://assets/home"), "New Tab");
    assert_eq!(fallback_title_for_url("not a url"), "Zenith");
    assert_eq!(fallback_title_for_url("https://example.org/x"), "example.org");
}

#[test]
fn resolved_title_keeps_real_titles() {
    assert_eq!(resolved_tab_title("  Rust Docs  ", "https://doc.rust-lang.org/"), "Rust Docs");
    assert_eq!(resolved_tab_title("New Tab", "zenith://assets/home"), "New Tab");
    assert_eq!(resolved_tab_title("   ", "zenith://assets/history"), "History");
    assert_eq!(resolved_tab_title("ABOUT:BLANK", "https://www.example.com/"), "example.com");
}

#[test]
fn auth_host_list() {
    assert!(is_auth_host("github.com"));
    assert!(is_auth_host("www.linkedin.com"));
    assert!(!is_auth_host("GitHub.com"));
    assert!(!is_auth_host("example.com"));
}

#[test]
fn auth_markers_and_oauth_exchange_on_parts() {
    let u = ParsedUrl {
        scheme: "https".to_string(),
        host: Some("example.com".to_string()),
        path: "/Account/SignIn".to_string(),
        query: None,
    };
    assert!(has_auth_markers(&u));
    assert!(!looks_like_oauth_exchange(&u));
    let v = ParsedUrl {
        scheme: "https".to_string(),
        host: Some("example.com".to_string()),
        path: "/".to_string(),
        query: Some("Scope=a&Code_Challenge=b".to_string()),
    };
    assert!(looks_like_oauth_exchange(&v));
    assert!(!has_auth_markers(&ParsedUrl {
        scheme: "https".to_string(),
        host: None,
        path: "/home".to_string(),
        query: Some("x=1".to_string()),
    }));
}

#[test]
fn auth_window_rejects_other_schemes_and_plain_pages() {
    assert!(!should_open_auth_window("ftp://accounts.google.com/signin"));
    assert!(!should_open_auth_window("https://example.com/login"));
    assert!(!should_open_auth_window("https://login.example.com/"));
    assert!(should_open_auth_window("https://login.example.com/login"));
    assert!(!should_open_auth_window("https://accounts.example.com/home"));
    assert!(should_open_auth_window("https://accounts.example.com/login"));
    assert!(!should_open_auth_window("garbage"));
}

