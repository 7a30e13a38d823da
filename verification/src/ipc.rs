//! Messages between the browser chrome, the tabs and the event loop.

use vstd::prelude::*;
use crate::text::{owned, str_eq};

verus! {

broadcast use vstd::string::group_string_axioms;

/// Page navigation actions.
#[derive(Clone, Copy, Debug, PartialEq, Eq, Structural)]
pub enum BrowserAction {
    Back,
    Forward,
    Reload,
}

/// An entry of the address-bar suggestions; `suggestion_type` is one of
/// `history`, `bookmark`, `search` or `tab`.
#[derive(Clone, Debug, PartialEq, Eq)]
pub struct Suggestion {
    pub title: String,
    pub url: Option<String>,
    pub suggestion_type: String,
    pub tab_id: Option<u32>,
}

/// One tab as the chrome shows it.
#[derive(Clone, Debug, PartialEq, Eq)]
pub struct ChromeTabState {
    pub id: u32,
    pub title: String,
    pub url: String,
    pub is_bookmarked: bool,
    pub active_permissions: Vec<String>,
}

/// The tab strip as the chrome shows it.
#[derive(Clone, Debug, PartialEq, Eq)]
pub struct ChromeState {
    pub tabs: Vec<ChromeTabState>,
    pub active_id: Option<u32>,
}

/// Events handled by the browser's event loop.  Screen coordinates travel
/// as the bit patterns of their `f64` values (`f64::to_bits`).
pub enum UserEvent {
    ChromeReady,
    NewTab { url: Option<String>, activate: bool, is_incognito: bool },
    SwitchTab(u32),
    CloseTab(Option<u32>),
    NavigateTab { tab_id: Option<u32>, url: String },
    TabAction { tab_id: Option<u32>, action: BrowserAction },
    OpenSettingsTab,
    OpenHistoryTab,
    OpenDownloadsTab,
    BookmarkActiveTab(Option<u32>),
    OpenAuthWindow(String),
    OpenBackgroundAuthSync(String),
    TabUrlChanged { tab_id: u32, url: String },
    TabTitleChanged { tab_id: u32, title: String },
    SettingsChanged { key: String, value: String },
    ClearHistory,
    ClearDownloads,
    DownloadStarted { url: String, path: String },
    DownloadCompleted { url: String, path: Option<String>, success: bool },
    ShowThreeDotsMenu { x: u64, y: u64 },
    FindInPage { query: String, forward: bool },
    OpenFindBar,
    SaveImage { url: String, filename: String },
    ShowToast { message: String, toast_type: String },
    ImageContextMenu { url: String, filename: String, x: u64, y: u64 },
    TabPermissionChanged { tab_id: u32, permission: String, granted: bool },
    PermissionRequest { tab_id: u32, url: String, permission: String, request_id: String },
    PermissionDecision { tab_id: u32, decision: String, request_id: String },
    GetSuggestions(String),
    SuggestionResults(Vec<Suggestion>),
    SuggestionsShown,
    SuggestionsHidden,
}

/// A message posted by the chrome or by a tab's script.  `x` and `y` hold
/// the bit patterns of the `f64` coordinates of the message.
pub struct IpcMessage {
    pub message_type: String,
    pub tab_id: Option<u32>,
    pub url: Option<String>,
    pub action: Option<String>,
    pub key: Option<String>,
    pub value: Option<String>,
    pub x: Option<u64>,
    pub y: Option<u64>,
    pub query: Option<String>,
    pub forward: Option<bool>,
    pub filename: Option<String>,
    pub permission: Option<String>,
    pub request_id: Option<String>,
    pub decision: Option<String>,
    pub granted: Option<bool>,
}

/// The kinds of message the event loop reacts to.
#[derive(Clone, Copy, Debug, PartialEq, Eq, Structural)]
pub enum MessageKind {
    ChromeReady,
    NewTab,
    SwitchTab,
    CloseTab,
    Navigate,
    TabAction,
    OpenSettings,
    OpenHistory,
    OpenDownloads,
    BookmarkActiveTab,
    OpenAuth,
    TabUrlUpdate,
    TabPermissionUpdate,
    PermissionRequest,
    PermissionDecision,
    GetSuggestions,
    HideSuggestions,
    SuggestionsShown,
    SuggestionsHidden,
    SettingsChange,
    SettingsAction,
    ClearHistory,
    ClearDownloads,
    ShowContextMenu,
    FindInPage,
    SaveImage,
    ImageContextMenu,
    Unknown,
}

/// The kind of a message, by its `type` field.
pub open spec fn kind_of(t: Seq<char>) -> MessageKind {
    if t == "chrome_ready"@ {
        MessageKind::ChromeReady
    } else if t == "new_tab"@ {
        MessageKind::NewTab
    } else if t == "switch_tab"@ {
        MessageKind::SwitchTab
    } else if t == "close_tab"@ {
        MessageKind::CloseTab
    } else if t == "navigate"@ {
        MessageKind::Navigate
    } else if t == "tab_action"@ {
        MessageKind::TabAction
    } else if t == "open_settings_tab"@ || t == "open-settings"@ {
        MessageKind::OpenSettings
    } else if t == "open_history_tab"@ || t == "open-history"@ {
        MessageKind::OpenHistory
    } else if t == "open_downloads_tab"@ || t == "open-downloads"@ {
        MessageKind::OpenDownloads
    } else if t == "bookmark_active_tab"@ || t == "bookmark-page"@ {
        MessageKind::BookmarkActiveTab
    } else if t == "open_auth"@ {
        MessageKind::OpenAuth
    } else if t == "tab_url_update"@ {
        MessageKind::TabUrlUpdate
    } else if t == "tab_permission_update"@ {
        MessageKind::TabPermissionUpdate
    } else if t == "permission_request"@ {
        MessageKind::PermissionRequest
    } else if t == "permission_decision"@ {
        MessageKind::PermissionDecision
    } else if t == "get_suggestions"@ {
        MessageKind::GetSuggestions
    } else if t == "hide_suggestions"@ {
        MessageKind::HideSuggestions
    } else if t == "suggestions_shown"@ {
        MessageKind::SuggestionsShown
    } else if t == "suggestions_hidden"@ {
        MessageKind::SuggestionsHidden
    } else if t == "settings-change"@ || t == "settings_change"@ {
        MessageKind::SettingsChange
    } else if t == "settings-action"@ {
        MessageKind::SettingsAction
    } else if t == "clear_history"@ {
        MessageKind::ClearHistory
    } else if t == "clear_downloads"@ {
        MessageKind::ClearDownloads
    } else if t == "show_context_menu"@ {
        MessageKind::ShowContextMenu
    } else if t == "find_in_page"@ || t == "find-in-page"@ {
        MessageKind::FindInPage
    } else if t == "save_image"@ {
        MessageKind::SaveImage
    } else if t == "image_context_menu"@ {
        MessageKind::ImageContextMenu
    } else {
        MessageKind::Unknown
    }
}

/// The kind of a message type.
pub fn message_kind(t: &str) -> (k: MessageKind)
    ensures
        k == kind_of(t@),
{
    if str_eq(t, "chrome_ready") {
        MessageKind::ChromeReady
    } else if str_eq(t, "new_tab") {
        MessageKind::NewTab
    } else if str_eq(t, "switch_tab") {
        MessageKind::SwitchTab
    } else if str_eq(t, "close_tab") {
        MessageKind::CloseTab
    } else if str_eq(t, "navigate") {
        MessageKind::Navigate
    } else if str_eq(t, "tab_action") {
        MessageKind::TabAction
    } else if str_eq(t, "open_settings_tab") || str_eq(t, "open-settings") {
        MessageKind::OpenSettings
    } else if str_eq(t, "open_history_tab") || str_eq(t, "open-history") {
        MessageKind::OpenHistory
    } else if str_eq(t, "open_downloads_tab") || str_eq(t, "open-downloads") {
        MessageKind::OpenDownloads
    } else if str_eq(t, "bookmark_active_tab") || str_eq(t, "bookmark-page") {
        MessageKind::BookmarkActiveTab
    } else if str_eq(t, "open_auth") {
        MessageKind::OpenAuth
    } else if str_eq(t, "tab_url_update") {
        MessageKind::TabUrlUpdate
    } else if str_eq(t, "tab_permission_update") {
        MessageKind::TabPermissionUpdate
    } else if str_eq(t, "permission_request") {
        MessageKind::PermissionRequest
    } else if str_eq(t, "permission_decision") {
        MessageKind::PermissionDecision
    } else if str_eq(t, "get_suggestions") {
        MessageKind::GetSuggestions
    } else if str_eq(t, "hide_suggestions") {
        MessageKind::HideSuggestions
    } else if str_eq(t, "suggestions_shown") {
        MessageKind::SuggestionsShown
    } else if str_eq(t, "suggestions_hidden") {
        MessageKind::SuggestionsHidden
    } else if str_eq(t, "settings-change") || str_eq(t, "settings_change") {
        MessageKind::SettingsChange
    } else if str_eq(t, "settings-action") {
        MessageKind::SettingsAction
    } else if str_eq(t, "clear_history") {
        MessageKind::ClearHistory
    } else if str_eq(t, "clear_downloads") {
        MessageKind::ClearDownloads
    } else if str_eq(t, "show_context_menu") {
        MessageKind::ShowContextMenu
    } else if str_eq(t, "find_in_page") || str_eq(t, "find-in-page") {
        MessageKind::FindInPage
    } else if str_eq(t, "save_image") {
        MessageKind::SaveImage
    } else if str_eq(t, "image_context_menu") {
        MessageKind::ImageContextMenu
    } else {
        MessageKind::Unknown
    }
}

/// The action named by a `tab_action` message.
pub open spec fn action_of(a: Option<String>) -> Option<BrowserAction> {
    match a {
        Some(s) => if s@ == "back"@ {
            Some(BrowserAction::Back)
        } else if s@ == "forward"@ {
            Some(BrowserAction::Forward)
        } else if s@ == "reload"@ {
            Some(BrowserAction::Reload)
        } else {
            None
        },
        None => None,
    }
}

/// The action named by a `tab_action` message: `back`, `forward` or `reload`.
pub fn parse_browser_action(action: &Option<String>) -> (a: Option<BrowserAction>)
    ensures
        a == action_of(*action),
{
    match action {
        Some(s) => if str_eq(s.as_str(), "back") {
            Some(BrowserAction::Back)
        } else if str_eq(s.as_str(), "forward") {
            Some(BrowserAction::Forward)
        } else if str_eq(s.as_str(), "reload") {
            Some(BrowserAction::Reload)
        } else {
            None
        },
        None => None,
    }
}

/// A `SettingsChanged` event for the given key and value.
pub open spec fn is_setting_event(e: UserEvent, key: Seq<char>, value: Seq<char>) -> bool {
    match e {
        UserEvent::SettingsChanged { key: k, value: v } => k@ == key && v@ == value,
        _ => false,
    }
}

/// The tab a message is about: its own `tabId`, else the tab it came from.
pub open spec fn message_tab(m: IpcMessage, fallback_tab_id: Option<u32>) -> Option<u32> {
    match m.tab_id {
        Some(t) => Some(t),
        None => fallback_tab_id,
    }
}

/// The events a message leads to.
pub open spec fn dispatched(m: IpcMessage, fallback_tab_id: Option<u32>, out: Seq<UserEvent>) -> bool {
    let tab_id = message_tab(m, fallback_tab_id);
    let none = Seq::<UserEvent>::empty();
    match kind_of(m.message_type@) {
        MessageKind::ChromeReady => out == seq![UserEvent::ChromeReady],
        MessageKind::NewTab => out == seq![
            UserEvent::NewTab { url: m.url, activate: true, is_incognito: false },
        ],
        MessageKind::SwitchTab => match tab_id {
            Some(id) => out == seq![UserEvent::SwitchTab(id)],
            None => out == none,
        },
        MessageKind::CloseTab => out == seq![UserEvent::CloseTab(tab_id)],
        MessageKind::Navigate => match m.url {
            Some(url) => out == seq![UserEvent::NavigateTab { tab_id, url }],
            None => out == none,
        },
        MessageKind::TabAction => match action_of(m.action) {
            Some(action) => out == seq![UserEvent::TabAction { tab_id, action }],
            None => out == none,
        },
        MessageKind::OpenSettings => out == seq![UserEvent::OpenSettingsTab],
        MessageKind::OpenHistory => out == seq![UserEvent::OpenHistoryTab],
        MessageKind::OpenDownloads => out == seq![UserEvent::OpenDownloadsTab],
        MessageKind::BookmarkActiveTab => out == seq![UserEvent::BookmarkActiveTab(tab_id)],
        MessageKind::OpenAuth => match (fallback_tab_id, m.url) {
            (None, Some(url)) => out == seq![UserEvent::OpenAuthWindow(url)],
            _ => out == none,
        },
        MessageKind::TabUrlUpdate => match (tab_id, m.url) {
            (Some(id), Some(url)) => out == seq![UserEvent::TabUrlChanged { tab_id: id, url }],
            _ => out == none,
        },
        MessageKind::TabPermissionUpdate => match (tab_id, m.permission) {
            (Some(id), Some(permission)) => out == seq![
                UserEvent::TabPermissionChanged {
                    tab_id: id,
                    permission,
                    granted: match m.granted {
                        Some(g) => g,
                        None => true,
                    },
                },
            ],
            _ => out == none,
        },
        MessageKind::PermissionRequest => match (tab_id, m.url, m.permission, m.request_id) {
            (Some(id), Some(url), Some(permission), Some(request_id)) => out == seq![
                UserEvent::PermissionRequest { tab_id: id, url, permission, request_id },
            ],
            _ => out == none,
        },
        MessageKind::PermissionDecision => match (
            m.tab_id,
            m.permission,
            m.decision,
            m.request_id,
        ) {
            (Some(id), Some(_p), Some(decision), Some(request_id)) => out == seq![
                UserEvent::PermissionDecision { tab_id: id, decision, request_id },
            ],
            _ => out == none,
        },
        MessageKind::GetSuggestions => match m.query {
            Some(q) => out == seq![UserEvent::GetSuggestions(q)],
            None => out == none,
        },
        MessageKind::HideSuggestions => out.len() == 1 && match out[0] {
            UserEvent::GetSuggestions(q) => q@ == Seq::<char>::empty(),
            _ => false,
        },
        MessageKind::SuggestionsShown => out == seq![UserEvent::SuggestionsShown],
        MessageKind::SuggestionsHidden => out == seq![UserEvent::SuggestionsHidden],
        MessageKind::SettingsChange => match (m.key, m.value) {
            (Some(key), Some(value)) => out == seq![UserEvent::SettingsChanged { key, value }],
            _ => out == none,
        },
        MessageKind::SettingsAction => {
            let reset = match m.action {
                Some(a) => a@ == "reset"@,
                None => false,
            };
            if reset {
                out.len() == 2 && is_setting_event(out[0], "theme"@, "dark"@) && is_setting_event(
                    out[1],
                    "searchEngine"@,
                    "google"@,
                )
            } else {
                out == none
            }
        },
        MessageKind::ClearHistory => out == seq![UserEvent::ClearHistory],
        MessageKind::ClearDownloads => out == seq![UserEvent::ClearDownloads],
        MessageKind::ShowContextMenu => match (m.x, m.y) {
            (Some(x), Some(y)) => out == seq![UserEvent::ShowThreeDotsMenu { x, y }],
            _ => out == none,
        },
        MessageKind::FindInPage => match m.query {
            Some(query) => out == seq![
                UserEvent::FindInPage {
                    query,
                    forward: match m.forward {
                        Some(f) => f,
                        None => true,
                    },
                },
            ],
            None => out == none,
        },
        MessageKind::SaveImage => match (m.url, m.filename) {
            (Some(url), Some(filename)) => out == seq![UserEvent::SaveImage { url, filename }],
            _ => out == none,
        },
        MessageKind::ImageContextMenu => match (m.url, m.filename) {
            (Some(url), Some(filename)) => out == seq![
                UserEvent::ImageContextMenu {
                    url,
                    filename,
                    x: match m.x {
                        Some(x) => x,
                        None => 0,
                    },
                    y: match m.y {
                        Some(y) => y,
                        None => 0,
                    },
                },
            ],
            _ => out == none,
        },
        MessageKind::Unknown => out == none,
    }
}

/// The events that a message from the chrome (`fallback_tab_id` is `None`)
/// or from the tab `fallback_tab_id` leads to.  Messages of unknown type,
/// or that lack a field their type needs, lead to none.  A missing
/// coordinate of an image context menu counts as `0.0`, whose bit pattern
/// is `0`.
pub fn events_for_message(message: IpcMessage, fallback_tab_id: Option<u32>) -> (events: Vec<UserEvent>)
    ensures
        dispatched(message, fallback_tab_id, events@),
{
    let ghost m = message;
    let kind = message_kind(message.message_type.as_str());
    let action = parse_browser_action(&message.action);
    let tab_id = match message.tab_id {
        Some(t) => Some(t),
        None => fallback_tab_id,
    };
    let mut out: Vec<UserEvent> = Vec::new();
    match kind {
        MessageKind::ChromeReady => {
            out.push(UserEvent::ChromeReady);
        },
        MessageKind::NewTab => {
            out.push(UserEvent::NewTab { url: message.url, activate: true, is_incognito: false });
        },
        MessageKind::SwitchTab => {
            if let Some(id) = tab_id {
                out.push(UserEvent::SwitchTab(id));
            }
        },
        MessageKind::CloseTab => {
            out.push(UserEvent::CloseTab(tab_id));
        },
        MessageKind::Navigate => {
            if let Some(url) = message.url {
                out.push(UserEvent::NavigateTab { tab_id, url });
            }
        },
        MessageKind::TabAction => {
            if let Some(action) = action {
                out.push(UserEvent::TabAction { tab_id, action });
            }
        },
        MessageKind::OpenSettings => {
            out.push(UserEvent::OpenSettingsTab);
        },
        MessageKind::OpenHistory => {
            out.push(UserEvent::OpenHistoryTab);
        },
        MessageKind::OpenDownloads => {
            out.push(UserEvent::OpenDownloadsTab);
        },
        MessageKind::BookmarkActiveTab => {
            out.push(UserEvent::BookmarkActiveTab(tab_id));
        },
        MessageKind::OpenAuth => {
            if fallback_tab_id.is_none() {
                if let Some(url) = message.url {
                    out.push(UserEvent::OpenAuthWindow(url));
                }
            }
        },
        MessageKind::TabUrlUpdate => {
            if let (Some(id), Some(url)) = (tab_id, message.url) {
                out.push(UserEvent::TabUrlChanged { tab_id: id, url });
            }
        },
        MessageKind::TabPermissionUpdate => {
            if let (Some(id), Some(permission)) = (tab_id, message.permission) {
                let granted = match message.granted {
                    Some(g) => g,
                    None => true,
                };
                out.push(UserEvent::TabPermissionChanged { tab_id: id, permission, granted });
            }
        },
        MessageKind::PermissionRequest => {
            if let (Some(id), Some(url), Some(permission), Some(request_id)) = (
                tab_id,
                message.url,
                message.permission,
                message.request_id,
            ) {
                out.push(UserEvent::PermissionRequest { tab_id: id, url, permission, request_id });
            }
        },
        MessageKind::PermissionDecision => {
            if let (Some(id), Some(_permission), Some(decision), Some(request_id)) = (
                message.tab_id,
                message.permission,
                message.decision,
                message.request_id,
            ) {
                out.push(UserEvent::PermissionDecision { tab_id: id, decision, request_id });
            }
        },
        MessageKind::GetSuggestions => {
            if let Some(q) = message.query {
                out.push(UserEvent::GetSuggestions(q));
            }
        },
        MessageKind::HideSuggestions => {
            out.push(UserEvent::GetSuggestions(String::new()));
        },
        MessageKind::SuggestionsShown => {
            out.push(UserEvent::SuggestionsShown);
        },
        MessageKind::SuggestionsHidden => {
            out.push(UserEvent::SuggestionsHidden);
        },
        MessageKind::SettingsChange => {
            if let (Some(key), Some(value)) = (message.key, message.value) {
                out.push(UserEvent::SettingsChanged { key, value });
            }
        },
        MessageKind::SettingsAction => {
            let reset = match &message.action {
                Some(a) => str_eq(a.as_str(), "reset"),
                None => false,
            };
            if reset {
                out.push(
                    UserEvent::SettingsChanged { key: owned("theme"), value: owned("dark") },
                );
                out.push(
                    UserEvent::SettingsChanged {
                        key: owned("searchEngine"),
                        value: owned("google"),
                    },
                );
            }
        },
        MessageKind::ClearHistory => {
            out.push(UserEvent::ClearHistory);
        },
        MessageKind::ClearDownloads => {
            out.push(UserEvent::ClearDownloads);
        },
        MessageKind::ShowContextMenu => {
            if let (Some(x), Some(y)) = (message.x, message.y) {
                out.push(UserEvent::ShowThreeDotsMenu { x, y });
            }
        },
        MessageKind::FindInPage => {
            if let Some(query) = message.query {
                let forward = match message.forward {
                    Some(f) => f,
                    None => true,
                };
                out.push(UserEvent::FindInPage { query, forward });
            }
        },
        MessageKind::SaveImage => {
            if let (Some(url), Some(filename)) = (message.url, message.filename) {
                out.push(UserEvent::SaveImage { url, filename });
            }
        },
        MessageKind::ImageContextMenu => {
            if let (Some(url), Some(filename)) = (message.url, message.filename) {
                let x = match message.x {
                    Some(x) => x,
                    None => 0,
                };
                let y = match message.y {
                    Some(y) => y,
                    None => 0,
                };
                out.push(UserEvent::ImageContextMenu { url, filename, x, y });
            }
        },
        MessageKind::Unknown => {},
    }
    assert(dispatched(m, fallback_tab_id, out@));
    out
}

} // verus!
