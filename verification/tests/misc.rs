use zenith_browser::config::{bookmarks_path, database_path, join_path, profile_directory, recent_sites_path};
use zenith_browser::downloads::{download_finished_report, download_started_message, STATUS_IN_PROGRESS};
use zenith_browser::layout::{content_rect, ContentRect, CHROME_HEIGHT};
use zenith_browser::scripts::{
    chrome_state_script, chrome_suggestions_script, find_in_page_script, permission_grant_script,
    permission_prompt_script, setting_script, tab_data_needs, tab_data_payload,
    tab_suggestions_script, theme_script, toast_script,
};
use zenith_browser::ui_handler::{route_zenith_request, ZenithRoute, HTML_CONTENT_TYPE};
use zenith_browser::text::{replace, trim, u32_to_string, to_ascii_lower};

#[test]
fn profile_paths() {
    assert_eq!(profile_directory(Some("/home/u"), "/tmp"), "/home/u/.zenith/profile");
    assert_eq!(profile_directory(Some("/home/u/"), "/tmp"), "/home/u/.zenith/profile");
    assert_eq!(profile_directory(None, "/tmp"), "/tmp/zenith-profile");
    assert_eq!(profile_directory(Some(""), "/tmp"), ".zenith/profile");
    assert_eq!(recent_sites_path("/p"), "/p/recent-sites.json");
    assert_eq!(bookmarks_path("/p"), "/p/bookmarks.json");
    assert_eq!(database_path("/p/"), "/p/zenith.db");
    assert_eq!(join_path("/a", "/b"), "/b");
}

#[test]
fn download_messages() {
    assert_eq!(download_started_message(Some("a.zip")), "Downloading a.zip");
    assert_eq!(download_started_message(None), "Downloading file");
    let ok = download_finished_report(true, Some("a.zip"));
    assert_eq!(ok.status, "completed");
    assert_eq!(ok.message, "Finished downloading a.zip");
    assert_eq!(ok.toast_type, "success");
    let bad = download_finished_report(false, None);
    assert_eq!(bad.status, "failed");
    assert_eq!(bad.message, "Failed to download file");
    assert_eq!(bad.toast_type, "error");
    assert_eq!(STATUS_IN_PROGRESS, "in_progress");
}

#[test]
fn content_area() {
    assert_eq!(content_rect(1280, 820), ContentRect { x: 0, y: CHROME_HEIGHT, width: 1280, height: 738 });
    assert_eq!(content_rect(0, 50), ContentRect { x: 0, y: 50, width: 1, height: 1 });
    assert_eq!(content_rect(10, 82), ContentRect { x: 0, y: 82, width: 10, height: 1 });
}

#[test]
fn routes() {
    assert_eq!(route_zenith_request("assets", "/ui"), ZenithRoute::Ui);
    assert_eq!(route_zenith_request("assets", "/home/"), ZenithRoute::Home);
    assert_eq!(route_zenith_request("assets", "/settings"), ZenithRoute::Settings);
    assert_eq!(route_zenith_request("assets", "/history/"), ZenithRoute::History);
    assert_eq!(route_zenith_request("assets", "/downloads"), ZenithRoute::Downloads);
    assert_eq!(route_zenith_request("assets", "/downloads//"), ZenithRoute::NotFound);
    assert_eq!(route_zenith_request("other", "/home"), ZenithRoute::NotFound);
    assert_eq!(HTML_CONTENT_TYPE, "text/html; charset=utf-8");
}

#[test]
fn scripts_embed_json_literals() {
    assert_eq!(
        theme_script("light"),
        "if(window.__zenithApplyBrowserTheme) window.__zenithApplyBrowserTheme(\"light\");"
    );
    assert_eq!(
        toast_script("Say \"hi\"", "info"),
        "if (window.showToast) window.showToast(\"Say \\\"hi\\\"\", \"info\");"
    );
    assert_eq!(
        setting_script("theme", "dark"),
        "if(window.zenithApplySetting) window.zenithApplySetting(\"theme\", \"dark\");"
    );
    assert_eq!(
        find_in_page_script("a\nb", false),
        "window.find(\"a\\nb\", false, true, true, false, false, false);"
    );
    assert_eq!(
        find_in_page_script("x", true),
        "window.find(\"x\", false, false, true, false, false, false);"
    );
    assert_eq!(chrome_state_script("{}"), "if(window.zenithSetState) window.zenithSetState({});");
    assert_eq!(
        chrome_suggestions_script("[]"),
        "if (window.zenithSetSuggestions) window.zenithSetSuggestions([]);"
    );
    assert_eq!(
        tab_suggestions_script("[]"),
        "window.postMessage({ type: 'suggestion-results', results: [] }, '*');"
    );
    assert_eq!(
        permission_prompt_script(4, "https://m.x/", "camera", "r9"),
        "if (window.showPermissionPrompt) window.showPermissionPrompt(4, \"https://m.x/\", 'camera', 'r9');"
    );
    assert_eq!(
        permission_grant_script("r9", "granted"),
        "if (window._zenith_grant_permission) window._zenith_grant_permission('r9', 'granted');"
    );
}

#[test]
fn tab_payloads() {
    let n = tab_data_needs("zenith://assets/home");
    assert!(n.recent_sites && n.bookmarks && !n.history && !n.downloads);
    let n = tab_data_needs("zenith://assets/history");
    assert!(!n.recent_sites && n.history);
    let n = tab_data_needs("zenith://assets/downloads");
    assert!(n.downloads && !n.bookmarks);
    let n = tab_data_needs("https://example.com");
    assert!(!n.recent_sites && !n.bookmarks && !n.history && !n.downloads);
    assert_eq!(
        tab_data_payload("dark", None, None, None, None),
        "window.postMessage({ type: 'theme', theme: \"dark\" }, '*');"
    );
    assert_eq!(
        tab_data_payload("light", Some("[1]"), Some("[2]"), None, Some("[3]")),
        "window.postMessage({ type: 'theme', theme: \"light\" }, '*');\n\
window.postMessage({ type: 'recent-sites', sites: [1] }, '*');\n\
window.postMessage({ type: 'bookmarks-data', bookmarks: [2] }, '*');\n\
window.postMessage({ type: 'downloads-data', entries: [3] }, '*');"
    );
}

#[test]
fn outside_encoders_through_scripts_and_search() {
    assert_eq!(
        theme_script("a\u{1}\"\\/é"),
        "if(window.__zenithApplyBrowserTheme) window.__zenithApplyBrowserTheme(\"a\\u0001\\\"\\\\/é\");"
    );
    assert_eq!(
        theme_script("tab\tcr\r"),
        "if(window.__zenithApplyBrowserTheme) window.__zenithApplyBrowserTheme(\"tab\\tcr\\r\");"
    );
    assert_eq!(
        zenith_browser::urls::normalize_user_input_url("a b&c=é~", "https://s/?q={}"),
        "https://s/?q=a%20b%26c%3D%C3%A9%7E"
    );
    assert_eq!(
        zenith_browser::urls::normalize_user_input_url("AZaz09", "https://s/?q={}"),
        "https://s/?q=AZaz09"
    );
}

#[test]
fn text_helpers() {
    assert_eq!(trim("\u{3000} x y \n"), "x y");
    assert_eq!(trim("\u{200b}x"), "\u{200b}x");
    assert_eq!(replace("a{}b{}", "{}", "-"), "a-b-");
    assert_eq!(replace("{{}}", "{}", "X"), "{X}");
    assert_eq!(u32_to_string(0), "0");
    assert_eq!(u32_to_string(4294967295), "4294967295");
    assert_eq!(to_ascii_lower("ÀBc"), "Àbc");
}
