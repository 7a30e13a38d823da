//! Scripts injected into tabs and the decisions tabs make about navigation,
//! pop-ups and downloads.

use vstd::prelude::*;
use crate::text::{
    contains_spec, trim_spec, chars_of, concat3, decimal, owned, push_str, replace, replace_spec, starts_with,
    string_of_range, u32_to_string,
};
use crate::url_parts::{opt_url_view, parse_url, url_parse, ParsedUrl, UrlParts};
use crate::urls::{
    assets_url, auth_window, background_sync, http_like, is_assets_url, is_http_like_url,
    is_background_google_account_sync_with, should_open_auth_window_with,
};

verus! {

broadcast use vstd::string::group_string_axioms;

/// Script that makes a tab report a Chrome-like vendor and user-agent data.
pub const USER_AGENT_DATA_JS: &'static str = r#"
    try {
        Object.defineProperty(navigator, 'vendor', { get: function() { return 'Google Inc.'; } });
        Object.defineProperty(navigator, 'userAgentData', {
            get: () => ({
                brands: [
                    { brand: 'Chromium', version: '124' },
                    { brand: 'Google Chrome', version: '124' },
                    { brand: 'Not-A.Brand', version: '99' }
                ],
                mobile: false,
                platform: 'macOS'
            })
        });
    } catch (_) {}
    "#;

/// The opening of a tab's initialization script, before the user-agent
/// shim ([`USER_AGENT_DATA_JS`]).
pub const TAB_INIT_OPEN: &'static str = "\n        (function() {\n            ";

/// The part after the user-agent shim, up to where the tab's id is
/// assigned.
pub const TAB_INIT_ID_PREFIX: &'static str = "\n            \n            window.__ZENITH_TAB_ID = ";

/// The body of the script after the id assignment: permission prompts,
/// URL-change reports, theme hook, keyboard shortcuts and the image context
/// menu.  Every `{tab_id}` stands for the tab's id.
pub const TAB_INIT_BODY: &'static str = r#"
            var send = function(payload) {
                try { window.ipc.postMessage(JSON.stringify(payload)); } catch (_) {}
            };

            // Permission Tracking & Custom Prompts
            window._permRequests = {};
            var notifyPermission = function(name, granted) {
                send({ type: 'tab_permission_update', tabId: {tab_id}, permission: name, granted: granted });
            };

            var requestPermission = function(name) {
                return new Promise(function(resolve) {
                    var requestId = Math.random().toString(36).substring(7);
                    window._permRequests[requestId] = resolve;
                    send({ type: 'permission_request', tabId: {tab_id}, permission: name, requestId: requestId, url: window.location.href });
                });
            };

            window._zenith_grant_permission = function(requestId, result) {
                if (window._permRequests[requestId]) {
                    window._permRequests[requestId](result);
                    delete window._permRequests[requestId];
                }
            };

            // Camera & Microphone
            if (navigator.mediaDevices && typeof navigator.mediaDevices.getUserMedia === 'function') {
                var originalGUM = navigator.mediaDevices.getUserMedia.bind(navigator.mediaDevices);
                navigator.mediaDevices.getUserMedia = async function() {
                    try {
                        var constraints = arguments[0];
                        var type = (constraints && constraints.video) ? 'camera' : 'microphone';
                        
                        var result = await requestPermission(type);
                        if (result === 'granted') {
                            if (constraints.video) notifyPermission('camera', true);
                            if (constraints.audio) notifyPermission('microphone', true);
                            return originalGUM.apply(navigator.mediaDevices, arguments);
                        } else {
                            throw new DOMException("Permission denied by user", "NotAllowedError");
                        }
                    } catch (e) {
                        throw e;
                    }
                };
            }

            // Geolocation
            if (navigator.geolocation && typeof navigator.geolocation.getCurrentPosition === 'function') {
                var originalGCP = navigator.geolocation.getCurrentPosition.bind(navigator.geolocation);
                navigator.geolocation.getCurrentPosition = async function() {
                    var success = arguments[0];
                    var error = arguments[1];
                    var result = await requestPermission('geolocation');
                    if (result === 'granted') {
                        notifyPermission('geolocation', true);
                        return originalGCP.apply(navigator.geolocation, arguments);
                    } else if (error) {
                        error({ code: 1, message: "User denied Geolocation" });
                    }
                };
            }

            // Notifications
            if (window.Notification && window.Notification.requestPermission) {
                var originalRequestPermission = window.Notification.requestPermission.bind(window.Notification);
                window.Notification.requestPermission = function() {
                    return originalRequestPermission.apply(this, arguments).then(function(result) {
                        if (result === 'granted') notifyPermission('notifications', true);
                        return result;
                    });
                };
            }

            // Shim mediaDevices if missing (common in insecure contexts or unbundled apps)
            if (!navigator.mediaDevices || !navigator.mediaDevices.getUserMedia) {
                var mockMediaDevices = {
                    getUserMedia: async function() { 
                        var constraints = arguments[0];
                        var type = (constraints && constraints.video) ? 'camera' : 'microphone';
                        var result = await requestPermission(type);
                        if (result === 'granted') {
                             return Promise.reject(new DOMException("Zenith internal grant successful, but real hardware is blocked by OS/context. Use a secure HTTPS connection for real video.", "NotReadableError")); 
                        }
                        return Promise.reject(new DOMException("Permission denied by user", "NotAllowedError")); 
                    },
                    enumerateDevices: function() { 
                        return Promise.resolve([
                            { deviceId: 'zenith-vcam', kind: 'videoinput', label: 'Zenith Camera (Permission Required)', groupId: 'zenith-media' },
                            { deviceId: 'zenith-vmic', kind: 'audioinput', label: 'Zenith Microphone (Permission Required)', groupId: 'zenith-media' }
                        ]); 
                    },
                    addEventListener: function() {},
                    removeEventListener: function() {},
                    dispatchEvent: function() { return false; },
                    ondevicechange: null
                };
                try {
                    if (!navigator.mediaDevices) {
                        Object.defineProperty(navigator, 'mediaDevices', {
                            get: function() { return mockMediaDevices; },
                            configurable: true
                        });
                    } else if (!navigator.mediaDevices.getUserMedia) {
                        navigator.mediaDevices.getUserMedia = mockMediaDevices.getUserMedia;
                    }
                } catch (e) {}
            }
            // Spoof Secure Context to enable features on zenith:// schemes
            if (window.isSecureContext === false) {
                try {
                    Object.defineProperty(window, 'isSecureContext', { get: function() { return true; } });
                } catch (e) {}
            }

            var notifyUrl = function() {
                send({ type: 'tab_url_update', tabId: {tab_id}, url: window.location.href });
            };

            var wrapHistoryMethod = function(name) {
                try {
                    var original = history[name];
                    if (!original) return;
                    history[name] = function() {
                        var result = original.apply(history, arguments);
                        notifyUrl();
                        return result;
                    };
                } catch (_) {}
            };

            wrapHistoryMethod('pushState');
            wrapHistoryMethod('replaceState');
            window.addEventListener('popstate', notifyUrl);
            window.addEventListener('hashchange', notifyUrl);

            window.__zenithApplyBrowserTheme = function(theme) {
                try {
                    const mode = theme.includes('light') ? 'light' : 'dark';
                    window.__ZENITH_THEME = mode;
                    document.documentElement.style.colorScheme = mode;
                } catch (_) {}
            };

            if (document.readyState === 'loading') {
                document.addEventListener('DOMContentLoaded', function() {
                    notifyUrl();
                }, { once: true });
            } else {
                notifyUrl();
            }

            window.addEventListener('keydown', function(e) {
                var isPrimary = e.metaKey || e.ctrlKey;
                if (!isPrimary) return;

                var key = (e.key || '').toLowerCase();
                if (key === 't') {
                    e.preventDefault();
                    send({ type: 'new_tab' });
                } else if (key === 'w') {
                    e.preventDefault();
                    send({ type: 'close_tab', tabId: {tab_id} });
                } else if (key === 'r') {
                    e.preventDefault();
                    send({ type: 'tab_action', tabId: {tab_id}, action: 'reload' });
                } else if (key === '[') {
                    e.preventDefault();
                    send({ type: 'tab_action', tabId: {tab_id}, action: 'back' });
                } else if (key === ']') {
                    e.preventDefault();
                    send({ type: 'tab_action', tabId: {tab_id}, action: 'forward' });
                } else if (key === 'd') {
                    e.preventDefault();
                    send({ type: 'bookmark_active_tab', tabId: {tab_id} });
                } else if (key === 'y') {
                    e.preventDefault();
                    send({ type: 'open_history_tab' });
                } else if (key === 'j') {
                    e.preventDefault();
                    send({ type: 'open_downloads_tab' });
                } else if (key === ',') {
                    e.preventDefault();
                    send({ type: 'open_settings_tab' });
                }
            });

            // Right-click context menu for images
            document.addEventListener('contextmenu', function(e) {
                var el = e.target ? e.target.closest('img') : null;
                if (!el) return;
                e.preventDefault();
                var src = el.src || el.currentSrc || el.getAttribute('src') || '';
                if (!src) return;
                var filename = src.split('/').pop().split('?')[0] || 'image.jpg';
                if (!filename.includes('.')) filename += '.jpg';
                send({ type: 'image_context_menu', url: src, filename: filename, x: e.screenX, y: e.screenY });
            });
"#;

/// The closing of the script.
pub const TAB_INIT_CLOSE: &'static str = "        })();\n        ";

/// The script that makes a tab report a Chrome-like vendor and user-agent
/// data.
pub fn get_user_agent_data_js() -> (s: String)
    ensures
        s@ == USER_AGENT_DATA_JS@,
{
    owned(USER_AGENT_DATA_JS)
}

/// The initialization script of the tab `tab_id`: the opening, the
/// user-agent shim, the id assignment (ended by `;`), the body with the tab's id in place
/// of every `{tab_id}`, and the closing.
pub open spec fn init_script(tab_id: u32) -> Seq<char> {
    TAB_INIT_OPEN@ + USER_AGENT_DATA_JS@ + TAB_INIT_ID_PREFIX@ + decimal(tab_id as nat) + ";"@
        + replace_spec(TAB_INIT_BODY@, "{tab_id}"@, decimal(tab_id as nat)) + TAB_INIT_CLOSE@
}

/// The script run in every page of the tab `tab_id`: user-agent data,
/// permission prompts, URL-change reports, theme hook, keyboard shortcuts
/// and the image context menu, all tagged with the tab's id.
///
/// Trimmed, the script is one function expression called at once, and it
/// assigns the tab's id, ended by `;`, to `window.__ZENITH_TAB_ID`.
pub fn tab_initialization_script(tab_id: u32) -> (s: String)
    ensures
        s@ == init_script(tab_id),
        "(function() {"@.is_prefix_of(trim_spec(s@)),
        "})();"@.is_suffix_of(trim_spec(s@)),
        contains_spec(s@, "window.__ZENITH_TAB_ID = "@ + decimal(tab_id as nat) + ";"@),
{
    proof {
        crate::laws::law_init_script_is_one_call(tab_id);
        crate::laws::law_init_script_assigns_id(tab_id);
    }
    let ua_js = get_user_agent_data_js();
    let id = u32_to_string(tab_id);
    proof {
        reveal_strlit("{tab_id}");
    }
    let mut s = concat3(TAB_INIT_OPEN, ua_js.as_str(), TAB_INIT_ID_PREFIX);
    push_str(&mut s, id.as_str());
    push_str(&mut s, ";");
    let body = replace(TAB_INIT_BODY, "{tab_id}", id.as_str());
    push_str(&mut s, body.as_str());
    push_str(&mut s, TAB_INIT_CLOSE);
    s
}

/// A URL that a tab may open as an ordinary page.
pub open spec fn page_url(u: Seq<char>) -> bool {
    http_like(u) || "file://"@.is_prefix_of(u) || "about:"@.is_prefix_of(u) || "data:"@.is_prefix_of(u)
}

/// Whether a tab may navigate to `next`: browser URLs only to the asset
/// pages, otherwise web, file, `about:` and `data:` URLs.
pub open spec fn navigation_allowed(next: Seq<char>) -> bool {
    if "zenith://"@.is_prefix_of(next) {
        assets_url(next)
    } else {
        page_url(next)
    }
}

fn is_page_url(u: &str) -> (b: bool)
    ensures
        b == page_url(u@),
{
    is_http_like_url(u) || starts_with(u, "file://") || starts_with(u, "about:") || starts_with(
        u,
        "data:",
    )
}

/// Whether a tab may navigate to `next`.
pub fn allows_navigation(next: &str) -> (b: bool)
    ensures
        b == navigation_allowed(next@),
{
    if starts_with(next, "zenith://") {
        return is_assets_url(next);
    }
    is_page_url(next)
}

/// What happens to a page's request for a new window.  The request itself
/// is always denied.
#[derive(Clone, Copy, Debug, PartialEq, Eq, Structural)]
pub enum NewWindowAction {
    /// Load the URL in the hidden account-sync view.
    BackgroundAuthSync,
    /// Open the URL in a sign-in window.
    AuthWindow,
    /// Open the URL in a new active tab.
    NewTab,
    /// Drop the request.
    Ignore,
}

/// The action for a new-window request, given what `url::Url::parse`
/// made of the URL.
pub open spec fn new_window_action_spec(next: Seq<char>, parsed: Option<UrlParts>) -> NewWindowAction {
    if background_sync(parsed) {
        NewWindowAction::BackgroundAuthSync
    } else if auth_window(parsed) {
        NewWindowAction::AuthWindow
    } else if page_url(next) {
        NewWindowAction::NewTab
    } else {
        NewWindowAction::Ignore
    }
}

/// The action for a new-window request, given what `url::Url::parse`
/// made of the URL.
pub fn new_window_action_with(next: &str, parsed: &Option<ParsedUrl>) -> (a: NewWindowAction)
    ensures
        a == new_window_action_spec(next@, opt_url_view(*parsed)),
{
    if is_background_google_account_sync_with(parsed) {
        NewWindowAction::BackgroundAuthSync
    } else if should_open_auth_window_with(parsed) {
        NewWindowAction::AuthWindow
    } else if is_page_url(next) {
        NewWindowAction::NewTab
    } else {
        NewWindowAction::Ignore
    }
}

/// The action for a page's request to open `next` in a new window:
/// Google's account-sync pages go to the hidden sync view, sign-in pages
/// to a sign-in window, other pages to a new tab.
pub fn new_window_action(next: &str) -> (a: NewWindowAction)
    ensures
        a == new_window_action_spec(next@, url_parse(next@)),
{
    let parsed = parse_url(next);
    new_window_action_with(next, &parsed)
}

/// The text after the last `c` in `s`, or all of `s` where it has none
/// (`str::split(c).last()`).
pub open spec fn after_last(s: Seq<char>, c: char) -> Seq<char>
    decreases s.len(),
{
    if s.len() == 0 {
        s
    } else if s.last() == c {
        Seq::empty()
    } else {
        after_last(s.drop_last(), c).push(s.last())
    }
}

/// The text before the first `c` in `s`, or all of `s` where it has none
/// (`str::split(c).next()`).
pub open spec fn before_first(s: Seq<char>, c: char) -> Seq<char>
    decreases s.len(),
{
    if s.len() == 0 {
        s
    } else if s[0] == c {
        Seq::empty()
    } else {
        seq![s[0]] + before_first(s.drop_first(), c)
    }
}

/// The file name a download of `url` is saved under: the last path
/// segment without its query, where that segment is not empty.
pub open spec fn download_name(url: Seq<char>) -> Option<Seq<char>> {
    let seg = after_last(url, '/');
    if seg.len() == 0 {
        None
    } else {
        Some(before_first(seg, '?'))
    }
}

proof fn lemma_after_last(s: Seq<char>, c: char, j: int)
    requires
        0 <= j <= s.len(),
        forall|k: int| j <= k < s.len() ==> s[k] != c,
        j == 0 || s[j - 1] == c,
    ensures
        after_last(s, c) == s.subrange(j, s.len() as int),
    decreases s.len(),
{
    if s.len() == 0 {
    } else if s.last() == c {
        assert(j == s.len());
        assert(s.subrange(j, s.len() as int) =~= Seq::<char>::empty());
    } else {
        lemma_after_last(s.drop_last(), c, j);
        assert(s.drop_last().subrange(j, s.len() - 1).push(s.last()) =~= s.subrange(
            j,
            s.len() as int,
        ));
    }
}

proof fn lemma_before_first(s: Seq<char>, c: char, j: int)
    requires
        0 <= j <= s.len(),
        forall|k: int| 0 <= k < j ==> s[k] != c,
        j == s.len() || s[j] == c,
    ensures
        before_first(s, c) == s.subrange(0, j),
    decreases s.len(),
{
    if s.len() == 0 {
    } else if s[0] == c {
        assert(j == 0);
        assert(s.subrange(0, 0) =~= Seq::<char>::empty());
    } else {
        lemma_before_first(s.drop_first(), c, j - 1);
        assert(seq![s[0]] + s.drop_first().subrange(0, j - 1) =~= s.subrange(0, j));
    }
}

/// The file name a download of `url` is saved under, where the browser
/// picks one.
pub fn download_file_name(url: &str) -> (name: Option<String>)
    ensures
        match name {
            Some(n) => download_name(url@) == Some(n@),
            None => download_name(url@).is_none(),
        },
{
    let v = chars_of(url);
    let n = v.len();
    let mut j: usize = n;
    while j > 0 && v[j - 1] != '/'
        invariant
            v@ == url@,
            n == v@.len(),
            j <= n,
            forall|k: int| j <= k < n ==> v@[k] != '/',
        decreases j,
    {
        j -= 1;
    }
    proof {
        lemma_after_last(v@, '/', j as int);
    }
    if j == n {
        return None;
    }
    let mut e: usize = j;
    while e < n && v[e] != '?'
        invariant
            v@ == url@,
            n == v@.len(),
            j <= e <= n,
            forall|k: int| j <= k < e ==> v@[k] != '?',
        decreases n - e,
    {
        e += 1;
    }
    proof {
        let seg = v@.subrange(j as int, n as int);
        lemma_before_first(seg, '?', e - j);
        assert(seg.subrange(0, e - j) =~= v@.subrange(j as int, e as int));
    }
    Some(string_of_range(&v, j, e))
}

} // verus!
