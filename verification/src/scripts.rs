//! The scripts the browser evaluates in the chrome and in tabs.

use vstd::prelude::*;
use crate::encoding::{json_quote, json_string};
use crate::text::{decimal, owned, push_str, u32_to_string};
use crate::urls::{DOWNLOADS_URL, HISTORY_URL, HOME_URL};
use crate::text::starts_with;

verus! {

broadcast use vstd::string::group_string_axioms;

/// How many recent sites the new-tab page lists.
pub const HOME_RECENT_LIMIT: i64 = 20;

/// How many history entries the history page lists.
pub const HISTORY_PAGE_LIMIT: i64 = 100;

/// Applies the browser theme inside a page.
pub open spec fn theme_script_spec(theme: Seq<char>) -> Seq<char> {
    "if(window.__zenithApplyBrowserTheme) window.__zenithApplyBrowserTheme("@ + json_string(theme)
        + ");"@
}

/// The script that applies `theme` inside a page.
pub fn theme_script(theme: &str) -> (s: String)
    ensures
        s@ == theme_script_spec(theme@),
{
    let mut s = owned("if(window.__zenithApplyBrowserTheme) window.__zenithApplyBrowserTheme(");
    let j = json_quote(theme);
    push_str(&mut s, j.as_str());
    push_str(&mut s, ");");
    s
}

/// Shows a toast in the chrome.
pub open spec fn toast_script_spec(message: Seq<char>, toast_type: Seq<char>) -> Seq<char> {
    "if (window.showToast) window.showToast("@ + json_string(message) + ", "@ + json_string(toast_type)
        + ");"@
}

/// The script that shows a toast of the given type in the chrome.
pub fn toast_script(message: &str, toast_type: &str) -> (s: String)
    ensures
        s@ == toast_script_spec(message@, toast_type@),
{
    let mut s = owned("if (window.showToast) window.showToast(");
    let m = json_quote(message);
    let t = json_quote(toast_type);
    push_str(&mut s, m.as_str());
    push_str(&mut s, ", ");
    push_str(&mut s, t.as_str());
    push_str(&mut s, ");");
    s
}

/// Tells the chrome about a changed setting.
pub open spec fn setting_script_spec(key: Seq<char>, value: Seq<char>) -> Seq<char> {
    "if(window.zenithApplySetting) window.zenithApplySetting("@ + json_string(key) + ", "@
        + json_string(value) + ");"@
}

/// The script that tells the chrome about a changed setting.
pub fn setting_script(key: &str, value: &str) -> (s: String)
    ensures
        s@ == setting_script_spec(key@, value@),
{
    let mut s = owned("if(window.zenithApplySetting) window.zenithApplySetting(");
    let k = json_quote(key);
    let v = json_quote(value);
    push_str(&mut s, k.as_str());
    push_str(&mut s, ", ");
    push_str(&mut s, v.as_str());
    push_str(&mut s, ");");
    s
}

/// Searches the page for `query`, forwards or backwards.
pub open spec fn find_script_spec(query: Seq<char>, forward: bool) -> Seq<char> {
    "window.find("@ + json_string(query) + ", false, "@ + (if forward {
        "false"@
    } else {
        "true"@
    }) + ", true, false, false, false);"@
}

/// The script that searches the page for `query`.
pub fn find_in_page_script(query: &str, forward: bool) -> (s: String)
    ensures
        s@ == find_script_spec(query@, forward),
{
    let mut s = owned("window.find(");
    let q = json_quote(query);
    push_str(&mut s, q.as_str());
    push_str(&mut s, ", false, ");
    push_str(&mut s, if forward { "false" } else { "true" });
    push_str(&mut s, ", true, false, false, false);");
    s
}

/// Hands the chrome its state, given as JSON.
pub open spec fn chrome_state_script_spec(state_json: Seq<char>) -> Seq<char> {
    "if(window.zenithSetState) window.zenithSetState("@ + state_json + ");"@
}

/// The script that hands the chrome its state, given as JSON.
pub fn chrome_state_script(state_json: &str) -> (s: String)
    ensures
        s@ == chrome_state_script_spec(state_json@),
{
    let mut s = owned("if(window.zenithSetState) window.zenithSetState(");
    push_str(&mut s, state_json);
    push_str(&mut s, ");");
    s
}

/// The script that hands the chrome the suggestions, given as JSON.
pub fn chrome_suggestions_script(results_json: &str) -> (s: String)
    ensures
        s@ == "if (window.zenithSetSuggestions) window.zenithSetSuggestions("@ + results_json@
            + ");"@,
{
    let mut s = owned("if (window.zenithSetSuggestions) window.zenithSetSuggestions(");
    push_str(&mut s, results_json);
    push_str(&mut s, ");");
    s
}

/// The message that hands a page the suggestions, given as JSON.
pub fn tab_suggestions_script(results_json: &str) -> (s: String)
    ensures
        s@ == "window.postMessage({ type: 'suggestion-results', results: "@ + results_json@
            + " }, '*');"@,
{
    let mut s = owned("window.postMessage({ type: 'suggestion-results', results: ");
    push_str(&mut s, results_json);
    push_str(&mut s, " }, '*');");
    s
}

/// Asks the chrome to prompt for a permission.
pub open spec fn permission_prompt_spec(
    tab_id: u32,
    url: Seq<char>,
    permission: Seq<char>,
    request_id: Seq<char>,
) -> Seq<char> {
    "if (window.showPermissionPrompt) window.showPermissionPrompt("@ + decimal(tab_id as nat)
        + ", "@ + json_string(url) + ", '"@ + permission + "', '"@ + request_id + "');"@
}

/// The script that asks the chrome to prompt for `permission` on behalf
/// of the page at `url` in tab `tab_id`.
pub fn permission_prompt_script(tab_id: u32, url: &str, permission: &str, request_id: &str) -> (s: String)
    ensures
        s@ == permission_prompt_spec(tab_id, url@, permission@, request_id@),
{
    let mut s = owned("if (window.showPermissionPrompt) window.showPermissionPrompt(");
    let id = u32_to_string(tab_id);
    let u = json_quote(url);
    push_str(&mut s, id.as_str());
    push_str(&mut s, ", ");
    push_str(&mut s, u.as_str());
    push_str(&mut s, ", '");
    push_str(&mut s, permission);
    push_str(&mut s, "', '");
    push_str(&mut s, request_id);
    push_str(&mut s, "');");
    s
}

/// The script that answers a page's pending permission request.
pub fn permission_grant_script(request_id: &str, decision: &str) -> (s: String)
    ensures
        s@ == "if (window._zenith_grant_permission) window._zenith_grant_permission('"@ + request_id@
            + "', '"@ + decision@ + "');"@,
{
    let mut s = owned("if (window._zenith_grant_permission) window._zenith_grant_permission('");
    push_str(&mut s, request_id);
    push_str(&mut s, "', '");
    push_str(&mut s, decision);
    push_str(&mut s, "');");
    s
}

/// The script that saves an image through a download link.
pub const SAVE_IMAGE_PREFIX: &'static str = r#"(function() {
                                fetch("#;

/// Between the fetched URL and the download name.
pub const SAVE_IMAGE_AFTER_FETCH: &'static str = r#", { cache: 'force-cache' })
                                    .then(r => r.blob())
                                    .then(blob => {
                                        const blobUrl = URL.createObjectURL(blob);
                                        const a = document.createElement('a');
                                        a.href = blobUrl;
                                        a.download = "#;

/// Between the download name and the fallback URL.
pub const SAVE_IMAGE_FALLBACK: &'static str = r#";
                                        document.body.appendChild(a);
                                        a.click();
                                        document.body.removeChild(a);
                                        setTimeout(() => URL.revokeObjectURL(blobUrl), 10000);
                                    })
                                    .catch(e => {
                                        console.error('Save failed', e);
                                        // Fallback: simple click if fetch fails (CORS)
                                        const a = document.createElement('a');
                                        a.href = "#;

/// Between the fallback URL and the fallback download name.
pub const SAVE_IMAGE_FALLBACK_NAME: &'static str = r#";
                                        a.download = "#;

/// The end of the save-image script.
pub const SAVE_IMAGE_SUFFIX: &'static str = r#";
                                        a.click();
                                    });
                            })();"#;

/// Saves the image at `url` under `filename`.
pub open spec fn save_image_spec(url: Seq<char>, filename: Seq<char>) -> Seq<char> {
    SAVE_IMAGE_PREFIX@ + json_string(url) + SAVE_IMAGE_AFTER_FETCH@ + json_string(filename)
        + SAVE_IMAGE_FALLBACK@ + json_string(url) + SAVE_IMAGE_FALLBACK_NAME@ + json_string(filename)
        + SAVE_IMAGE_SUFFIX@
}

/// The script that downloads the image at `url` under `filename`, through
/// a fetched blob or, where fetching fails, a plain link.
pub fn save_image_script(url: &str, filename: &str) -> (s: String)
    ensures
        s@ == save_image_spec(url@, filename@),
{
    let u = json_quote(url);
    let f = json_quote(filename);
    let mut s = owned(SAVE_IMAGE_PREFIX);
    push_str(&mut s, u.as_str());
    push_str(&mut s, SAVE_IMAGE_AFTER_FETCH);
    push_str(&mut s, f.as_str());
    push_str(&mut s, SAVE_IMAGE_FALLBACK);
    push_str(&mut s, u.as_str());
    push_str(&mut s, SAVE_IMAGE_FALLBACK_NAME);
    push_str(&mut s, f.as_str());
    push_str(&mut s, SAVE_IMAGE_SUFFIX);
    s
}

/// The data a browser page needs besides the theme.
#[derive(Clone, Copy, Debug, PartialEq, Eq, Structural)]
pub struct TabDataNeeds {
    /// Recent sites, up to [`HOME_RECENT_LIMIT`] (the new-tab page).
    pub recent_sites: bool,
    /// Bookmarks (the new-tab page).
    pub bookmarks: bool,
    /// History, up to [`HISTORY_PAGE_LIMIT`] (the history page).
    pub history: bool,
    /// Downloads (the downloads page).
    pub downloads: bool,
}

/// The data a page at `url` needs.
pub fn tab_data_needs(url: &str) -> (n: TabDataNeeds)
    ensures
        n.recent_sites == HOME_URL@.is_prefix_of(url@),
        n.bookmarks == HOME_URL@.is_prefix_of(url@),
        n.history == HISTORY_URL@.is_prefix_of(url@),
        n.downloads == DOWNLOADS_URL@.is_prefix_of(url@),
{
    let home = starts_with(url, HOME_URL);
    TabDataNeeds {
        recent_sites: home,
        bookmarks: home,
        history: starts_with(url, HISTORY_URL),
        downloads: starts_with(url, DOWNLOADS_URL),
    }
}

/// A `postMessage` call carrying `json` under `field` with the message
/// type `kind`.
pub open spec fn post_message(kind: Seq<char>, field: Seq<char>, json: Seq<char>) -> Seq<char> {
    "window.postMessage({ type: '"@ + kind + "', "@ + field + ": "@ + json + " }, '*');"@
}

fn post_message_script(kind: &str, field: &str, json: &str) -> (s: String)
    ensures
        s@ == post_message(kind@, field@, json@),
{
    let mut s = owned("window.postMessage({ type: '");
    push_str(&mut s, kind);
    push_str(&mut s, "', ");
    push_str(&mut s, field);
    push_str(&mut s, ": ");
    push_str(&mut s, json);
    push_str(&mut s, " }, '*');");
    s
}

/// A line break and the message, where there is one.
pub open spec fn line_for(kind: Seq<char>, field: Seq<char>, json: Option<Seq<char>>) -> Seq<char> {
    match json {
        Some(j) => "\n"@ + post_message(kind, field, j),
        None => Seq::empty(),
    }
}

/// The view of an optional string slice.
pub open spec fn opt_view(o: Option<&str>) -> Option<Seq<char>> {
    match o {
        Some(s) => Some(s@),
        None => None,
    }
}

/// The payload for a page: the theme message, then one message for each
/// piece of data given, one per line.
pub open spec fn tab_payload_spec(
    theme: Seq<char>,
    recent_sites: Option<Seq<char>>,
    bookmarks: Option<Seq<char>>,
    history: Option<Seq<char>>,
    downloads: Option<Seq<char>>,
) -> Seq<char> {
    post_message("theme"@, "theme"@, json_string(theme)) + line_for(
        "recent-sites"@,
        "sites"@,
        recent_sites,
    ) + line_for("bookmarks-data"@, "bookmarks"@, bookmarks) + line_for(
        "history-data"@,
        "entries"@,
        history,
    ) + line_for("downloads-data"@, "entries"@, downloads)
}

fn push_line(s: &mut String, kind: &str, field: &str, json: Option<&str>)
    ensures
        final(s)@ == old(s)@ + line_for(kind@, field@, opt_view(json)),
{
    match json {
        Some(j) => {
            push_str(s, "\n");
            let m = post_message_script(kind, field, j);
            push_str(s, m.as_str());
        },
        None => {
            assert(old(s)@ + Seq::<char>::empty() =~= old(s)@);
        },
    }
}

/// The script a browser page receives: the theme, and the recent sites,
/// bookmarks, history and downloads given as JSON, each as a message to
/// the page, one per line.
pub fn tab_data_payload(
    theme: &str,
    recent_sites_json: Option<&str>,
    bookmarks_json: Option<&str>,
    history_json: Option<&str>,
    downloads_json: Option<&str>,
) -> (s: String)
    ensures
        s@ == tab_payload_spec(
            theme@,
            opt_view(recent_sites_json),
            opt_view(bookmarks_json),
            opt_view(history_json),
            opt_view(downloads_json),
        ),
{
    let t = json_quote(theme);
    let mut s = post_message_script("theme", "theme", t.as_str());
    push_line(&mut s, "recent-sites", "sites", recent_sites_json);
    push_line(&mut s, "bookmarks-data", "bookmarks", bookmarks_json);
    push_line(&mut s, "history-data", "entries", history_json);
    push_line(&mut s, "downloads-data", "entries", downloads_json);
    s
}

} // verus!
