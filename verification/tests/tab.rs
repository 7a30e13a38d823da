use zenith_browser::tab::{
    allows_navigation, download_file_name, get_user_agent_data_js, new_window_action,
    tab_initialization_script, NewWindowAction,
};
use zenith_browser::scripts::save_image_script;

fn expected_user_agent_data_js() -> String {
    r#"
    try {
        Object.defineProperty(navigator, 'vendor', { get: function() { return 'Google Inc.'; } });
        Object.defineProperty(navigator, 'userAgentData', {
            get: () => ({
                brands: [
                    { brand: 'Chromium', version: '124' },
                    { brand: 'Google Chrome', version: '124' },
                    { brand: 'Not-A.Brand', version: '99' }
                ],
                mobile: false,
                platform: 'macOS'
            })
        });
    } catch (_) {}
    "#
    .to_string()
}

fn expected_tab_initialization_script(tab_id: u32) -> String {
    let ua_js = expected_user_agent_data_js();
    format!(
        r#"
        (function() {{
            {ua_js}
            
            window.__ZENITH_TAB_ID = {tab_id};
            var send = function(payload) {{
                try {{ window.ipc.postMessage(JSON.stringify(payload)); }} catch (_) {{}}
            }};

            // Permission Tracking & Custom Prompts
            window._permRequests = {{}};
            var notifyPermission = function(name, granted) {{
                send({{ type: 'tab_permission_update', tabId: {tab_id}, permission: name, granted: granted }});
            }};

            var requestPermission = function(name) {{
                return new Promise(function(resolve) {{
                    var requestId = Math.random().toString(36).substring(7);
                    window._permRequests[requestId] = resolve;
                    send({{ type: 'permission_request', tabId: {tab_id}, permission: name, requestId: requestId, url: window.location.href }});
                }});
            }};

            window._zenith_grant_permission = function(requestId, result) {{
                if (window._permRequests[requestId]) {{
                    window._permRequests[requestId](result);
                    delete window._permRequests[requestId];
                }}
            }};

            // Camera & Microphone
            if (navigator.mediaDevices && typeof navigator.mediaDevices.getUserMedia === 'function') {{
                var originalGUM = navigator.mediaDevices.getUserMedia.bind(navigator.mediaDevices);
                navigator.mediaDevices.getUserMedia = async function() {{
                    try {{
                        var constraints = arguments[0];
                        var type = (constraints && constraints.video) ? 'camera' : 'microphone';
                        
                        var result = await requestPermission(type);
                        if (result === 'granted') {{
                            if (constraints.video) notifyPermission('camera', true);
                            if (constraints.audio) notifyPermission('microphone', true);
                            return originalGUM.apply(navigator.mediaDevices, arguments);
                        }} else {{
                            throw new DOMException("Permission denied by user", "NotAllowedError");
                        }}
                    }} catch (e) {{
                        throw e;
                    }}
                }};
            }}

            // Geolocation
            if (navigator.geolocation && typeof navigator.geolocation.getCurrentPosition === 'function') {{
                var originalGCP = navigator.geolocation.getCurrentPosition.bind(navigator.geolocation);
                navigator.geolocation.getCurrentPosition = async function() {{
                    var success = arguments[0];
                    var error = arguments[1];
                    var result = await requestPermission('geolocation');
                    if (result === 'granted') {{
                        notifyPermission('geolocation', true);
                        return originalGCP.apply(navigator.geolocation, arguments);
                    }} else if (error) {{
                        error({{ code: 1, message: "User denied Geolocation" }});
                    }}
                }};
            }}

            // Notifications
            if (window.Notification && window.Notification.requestPermission) {{
                var originalRequestPermission = window.Notification.requestPermission.bind(window.Notification);
                window.Notification.requestPermission = function() {{
                    return originalRequestPermission.apply(this, arguments).then(function(result) {{
                        if (result === 'granted') notifyPermission('notifications', true);
                        return result;
                    }});
                }};
            }}

            // Shim mediaDevices if missing (common in insecure contexts or unbundled apps)
            if (!navigator.mediaDevices || !navigator.mediaDevices.getUserMedia) {{
                var mockMediaDevices = {{
                    getUserMedia: async function() {{ 
                        var constraints = arguments[0];
                        var type = (constraints && constraints.video) ? 'camera' : 'microphone';
                        var result = await requestPermission(type);
                        if (result === 'granted') {{
                             return Promise.reject(new DOMException("Zenith internal grant successful, but real hardware is blocked by OS/context. Use a secure HTTPS connection for real video.", "NotReadableError")); 
                        }}
                        return Promise.reject(new DOMException("Permission denied by user", "NotAllowedError")); 
                    }},
                    enumerateDevices: function() {{ 
                        return Promise.resolve([
                            {{ deviceId: 'zenith-vcam', kind: 'videoinput', label: 'Zenith Camera (Permission Required)', groupId: 'zenith-media' }},
                            {{ deviceId: 'zenith-vmic', kind: 'audioinput', label: 'Zenith Microphone (Permission Required)', groupId: 'zenith-media' }}
                        ]); 
                    }},
                    addEventListener: function() {{}},
                    removeEventListener: function() {{}},
                    dispatchEvent: function() {{ return false; }},
                    ondevicechange: null
                }};
                try {{
                    if (!navigator.mediaDevices) {{
                        Object.defineProperty(navigator, 'mediaDevices', {{
                            get: function() {{ return mockMediaDevices; }},
                            configurable: true
                        }});
                    }} else if (!navigator.mediaDevices.getUserMedia) {{
                        navigator.mediaDevices.getUserMedia = mockMediaDevices.getUserMedia;
                    }}
                }} catch (e) {{}}
            }}
            // Spoof Secure Context to enable features on zenith:// schemes
            if (window.isSecureContext === false) {{
                try {{
                    Object.defineProperty(window, 'isSecureContext', {{ get: function() {{ return true; }} }});
                }} catch (e) {{}}
            }}

            var notifyUrl = function() {{
                send({{ type: 'tab_url_update', tabId: {tab_id}, url: window.location.href }});
            }};

            var wrapHistoryMethod = function(name) {{
                try {{
                    var original = history[name];
                    if (!original) return;
                    history[name] = function() {{
                        var result = original.apply(history, arguments);
                        notifyUrl();
                        return result;
                    }};
                }} catch (_) {{}}
            }};

            wrapHistoryMethod('pushState');
            wrapHistoryMethod('replaceState');
            window.addEventListener('popstate', notifyUrl);
            window.addEventListener('hashchange', notifyUrl);

            window.__zenithApplyBrowserTheme = function(theme) {{
                try {{
                    const mode = theme.includes('light') ? 'light' : 'dark';
                    window.__ZENITH_THEME = mode;
                    document.documentElement.style.colorScheme = mode;
                }} catch (_) {{}}
            }};

            if (document.readyState === 'loading') {{
                document.addEventListener('DOMContentLoaded', function() {{
                    notifyUrl();
                }}, {{ once: true }});
            }} else {{
                notifyUrl();
            }}

            window.addEventListener('keydown', function(e) {{
                var isPrimary = e.metaKey || e.ctrlKey;
                if (!isPrimary) return;

                var key = (e.key || '').toLowerCase();
                if (key === 't') {{
                    e.preventDefault();
                    send({{ type: 'new_tab' }});
                }} else if (key === 'w') {{
                    e.preventDefault();
                    send({{ type: 'close_tab', tabId: {tab_id} }});
                }} else if (key === 'r') {{
                    e.preventDefault();
                    send({{ type: 'tab_action', tabId: {tab_id}, action: 'reload' }});
                }} else if (key === '[') {{
                    e.preventDefault();
                    send({{ type: 'tab_action', tabId: {tab_id}, action: 'back' }});
                }} else if (key === ']') {{
                    e.preventDefault();
                    send({{ type: 'tab_action', tabId: {tab_id}, action: 'forward' }});
                }} else if (key === 'd') {{
                    e.preventDefault();
                    send({{ type: 'bookmark_active_tab', tabId: {tab_id} }});
                }} else if (key === 'y') {{
                    e.preventDefault();
                    send({{ type: 'open_history_tab' }});
                }} else if (key === 'j') {{
                    e.preventDefault();
                    send({{ type: 'open_downloads_tab' }});
                }} else if (key === ',') {{
                    e.preventDefault();
                    send({{ type: 'open_settings_tab' }});
                }}
            }});

            // Right-click context menu for images
            document.addEventListener('contextmenu', function(e) {{
                var el = e.target ? e.target.closest('img') : null;
                if (!el) return;
                e.preventDefault();
                var src = el.src || el.currentSrc || el.getAttribute('src') || '';
                if (!src) return;
                var filename = src.split('/').pop().split('?')[0] || 'image.jpg';
                if (!filename.includes('.')) filename += '.jpg';
                send({{ type: 'image_context_menu', url: src, filename: filename, x: e.screenX, y: e.screenY }});
            }});
        }})();
        "#,
        ua_js = ua_js,
        tab_id = tab_id,
    )
}


fn expected_save_image_script(url: &str, filename: &str) -> String {
    let escaped_url = serde_json::to_string(&url).unwrap();
    let escaped_filename = serde_json::to_string(&filename).unwrap();
    let js = format!(
                            r#"(function() {{
                                fetch({}, {{ cache: 'force-cache' }})
                                    .then(r => r.blob())
                                    .then(blob => {{
                                        const blobUrl = URL.createObjectURL(blob);
                                        const a = document.createElement('a');
                                        a.href = blobUrl;
                                        a.download = {};
                                        document.body.appendChild(a);
                                        a.click();
                                        document.body.removeChild(a);
                                        setTimeout(() => URL.revokeObjectURL(blobUrl), 10000);
                                    }})
                                    .catch(e => {{
                                        console.error('Save failed', e);
                                        // Fallback: simple click if fetch fails (CORS)
                                        const a = document.createElement('a');
                                        a.href = {};
                                        a.download = {};
                                        a.click();
                                    }});
                            }})();"#,
                            escaped_url, escaped_filename, escaped_url, escaped_filename
                        );
    js
}

#[test]
fn user_agent_script_is_the_chrome_shim() {
    assert_eq!(get_user_agent_data_js(), expected_user_agent_data_js());
    assert!(get_user_agent_data_js().contains("Google Chrome"));
}

#[test]
fn initialization_script_is_tagged_with_the_tab_id() {
    for id in [0u32, 1, 7, 42, 1234567, u32::MAX] {
        assert_eq!(tab_initialization_script(id), expected_tab_initialization_script(id));
    }
    let s = tab_initialization_script(7);
    assert!(s.contains("window.__ZENITH_TAB_ID = 7;"));
    assert!(s.contains("send({ type: 'close_tab', tabId: 7 });"));
    assert!(!s.contains("{tab_id}"));
    assert!(!s.contains("{ua_js}"));
}

#[test]
fn initialization_script_has_back_and_forward_shortcuts() {
    let s = tab_initialization_script(12);
    assert!(s.contains("if (key === 't')"));
    assert!(s.contains("else if (key === '[')"));
    assert!(s.contains("send({ type: 'tab_action', tabId: 12, action: 'back' });"));
    assert!(s.contains("else if (key === ']')"));
    assert!(s.contains("send({ type: 'tab_action', tabId: 12, action: 'forward' });"));
    assert!(s.contains("send({ type: 'tab_action', tabId: 12, action: 'reload' });"));
    assert!(s.trim().starts_with("(function() {"));
    assert!(s.trim().ends_with("})();"));
}

#[test]
fn save_image_script_escapes_its_arguments() {
    for (u, f) in [("https://a.b/c.png", "c.png"), ("https://x/\"q\".jpg", "we\"ird\n.jpg"), ("", "")] {
        assert_eq!(save_image_script(u, f), expected_save_image_script(u, f));
    }
}

#[test]
fn navigation_rules() {
    assert!(allows_navigation("https://example.com"));
    assert!(allows_navigation("http://example.com"));
    assert!(allows_navigation("file:///tmp/a.html"));
    assert!(allows_navigation("about:blank"));
    assert!(allows_navigation("data:text/plain,hi"));
    assert!(allows_navigation("zenith://assets/home"));
    assert!(!allows_navigation("zenith://other"));
    assert!(!allows_navigation("javascript:alert(1)"));
    assert!(!allows_navigation("ftp://example.com"));
}

#[test]
fn new_window_requests() {
    assert_eq!(
        new_window_action("https://accounts.google.com/CheckCookie?x=1"),
        NewWindowAction::BackgroundAuthSync
    );
    assert_eq!(new_window_action("https://github.com/login"), NewWindowAction::AuthWindow);
    assert_eq!(new_window_action("https://example.com/page"), NewWindowAction::NewTab);
    assert_eq!(new_window_action("about:blank"), NewWindowAction::NewTab);
    assert_eq!(new_window_action("mailto:a@b.c"), NewWindowAction::Ignore);
}

#[test]
fn download_names() {
    assert_eq!(download_file_name("https://a.b/dir/file.zip?token=1").as_deref(), Some("file.zip"));
    assert_eq!(download_file_name("https://a.b/dir/").as_deref(), None);
    assert_eq!(download_file_name("file.bin").as_deref(), Some("file.bin"));
    assert_eq!(download_file_name("https://a.b/?q").as_deref(), Some(""));
    assert_eq!(download_file_name("https://a.b/x?").as_deref(), Some("x"));
    assert_eq!(download_file_name("").as_deref(), None);
}
