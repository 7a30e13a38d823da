use zenith_browser::ipc::{
    events_for_message, message_kind, parse_browser_action, BrowserAction, IpcMessage,
    MessageKind, UserEvent,
};

fn message(kind: &str) -> IpcMessage {
    IpcMessage {
        message_type: kind.to_string(),
        tab_id: None,
        url: None,
        action: None,
        key: None,
        value: None,
        x: None,
        y: None,
        query: None,
        forward: None,
        filename: None,
        permission: None,
        request_id: None,
        decision: None,
        granted: None,
    }
}

#[test]
fn kinds_and_aliases() {
    assert_eq!(message_kind("chrome_ready"), MessageKind::ChromeReady);
    assert_eq!(message_kind("open-settings"), MessageKind::OpenSettings);
    assert_eq!(message_kind("open_settings_tab"), MessageKind::OpenSettings);
    assert_eq!(message_kind("bookmark-page"), MessageKind::BookmarkActiveTab);
    assert_eq!(message_kind("find-in-page"), MessageKind::FindInPage);
    assert_eq!(message_kind("settings_change"), MessageKind::SettingsChange);
    assert_eq!(message_kind("whatever"), MessageKind::Unknown);
}

#[test]
fn browser_actions() {
    assert_eq!(parse_browser_action(&Some("back".to_string())), Some(BrowserAction::Back));
    assert_eq!(parse_browser_action(&Some("forward".to_string())), Some(BrowserAction::Forward));
    assert_eq!(parse_browser_action(&Some("reload".to_string())), Some(BrowserAction::Reload));
    assert_eq!(parse_browser_action(&Some("stop".to_string())), None);
    assert_eq!(parse_browser_action(&None), None);
}

#[test]
fn new_tab_message_opens_an_active_tab() {
    let mut m = message("new_tab");
    m.url = Some("example.com".to_string());
    let ev = events_for_message(m, Some(3));
    assert_eq!(ev.len(), 1);
    match &ev[0] {
        UserEvent::NewTab { url, activate, is_incognito } => {
            assert_eq!(url.as_deref(), Some("example.com"));
            assert!(*activate);
            assert!(!*is_incognito);
        }
        _ => panic!("wrong event"),
    }
}

#[test]
fn tab_messages_fall_back_to_sender() {
    let ev = events_for_message(message("close_tab"), Some(7));
    assert!(matches!(ev.as_slice(), [UserEvent::CloseTab(Some(7))]));
    let mut m = message("close_tab");
    m.tab_id = Some(2);
    let ev = events_for_message(m, Some(7));
    assert!(matches!(ev.as_slice(), [UserEvent::CloseTab(Some(2))]));
    assert!(events_for_message(message("switch_tab"), None).is_empty());
    let ev = events_for_message(message("switch_tab"), Some(4));
    assert!(matches!(ev.as_slice(), [UserEvent::SwitchTab(4)]));
}

#[test]
fn tab_action_needs_a_known_action() {
    let mut m = message("tab_action");
    m.action = Some("reload".to_string());
    let ev = events_for_message(m, Some(1));
    assert!(matches!(
        ev.as_slice(),
        [UserEvent::TabAction { tab_id: Some(1), action: BrowserAction::Reload }]
    ));
    let mut m = message("tab_action");
    m.action = Some("jump".to_string());
    assert!(events_for_message(m, Some(1)).is_empty());
}

#[test]
fn open_auth_only_from_the_chrome() {
    let mut m = message("open_auth");
    m.url = Some("https://github.com/login".to_string());
    assert!(events_for_message(m, Some(1)).is_empty());
    let mut m = message("open_auth");
    m.url = Some("https://github.com/login".to_string());
    let ev = events_for_message(m, None);
    assert!(matches!(&ev[..], [UserEvent::OpenAuthWindow(u)] if u == "https://github.com/login"));
}

#[test]
fn permission_messages() {
    let mut m = message("tab_permission_update");
    m.permission = Some("Camera".to_string());
    let ev = events_for_message(m, Some(5));
    assert!(matches!(&ev[..], [UserEvent::TabPermissionChanged { tab_id: 5, permission, granted: true }] if permission == "Camera"));

    let mut m = message("permission_decision");
    m.permission = Some("camera".to_string());
    m.decision = Some("granted".to_string());
    m.request_id = Some("r1".to_string());
    // the decision needs the message's own tab id, not the sender's
    assert!(events_for_message(m, Some(5)).is_empty());

    let mut m = message("permission_request");
    m.url = Some("https://meet.example".to_string());
    m.permission = Some("microphone".to_string());
    m.request_id = Some("abc".to_string());
    let ev = events_for_message(m, Some(9));
    assert!(matches!(&ev[..], [UserEvent::PermissionRequest { tab_id: 9, .. }]));
}

#[test]
fn settings_reset_restores_theme_and_engine() {
    let mut m = message("settings-action");
    m.action = Some("reset".to_string());
    let ev = events_for_message(m, None);
    assert_eq!(ev.len(), 2);
    assert!(matches!(&ev[0], UserEvent::SettingsChanged { key, value } if key == "theme" && value == "dark"));
    assert!(matches!(&ev[1], UserEvent::SettingsChanged { key, value } if key == "searchEngine" && value == "google"));
    let mut m = message("settings-action");
    m.action = Some("other".to_string());
    assert!(events_for_message(m, None).is_empty());
}

#[test]
fn hide_suggestions_asks_for_nothing() {
    let ev = events_for_message(message("hide_suggestions"), None);
    assert!(matches!(&ev[..], [UserEvent::GetSuggestions(q)] if q.is_empty()));
}

#[test]
fn coordinates_and_defaults() {
    let mut m = message("show_context_menu");
    m.x = Some(10.5f64.to_bits());
    assert!(events_for_message(m, None).is_empty());
    let mut m = message("show_context_menu");
    m.x = Some(10.5f64.to_bits());
    m.y = Some(3.0f64.to_bits());
    let ev = events_for_message(m, None);
    assert!(matches!(&ev[..], [UserEvent::ShowThreeDotsMenu { x, y }] if f64::from_bits(*x) == 10.5 && f64::from_bits(*y) == 3.0));

    let mut m = message("image_context_menu");
    m.url = Some("https://a/b.png".to_string());
    m.filename = Some("b.png".to_string());
    let ev = events_for_message(m, Some(1));
    assert!(matches!(&ev[..], [UserEvent::ImageContextMenu { x, y, .. }] if f64::from_bits(*x) == 0.0 && f64::from_bits(*y) == 0.0));

    let mut m = message("find_in_page");
    m.query = Some("needle".to_string());
    let ev = events_for_message(m, None);
    assert!(matches!(&ev[..], [UserEvent::FindInPage { query, forward: true }] if query == "needle"));
}

#[test]
fn unknown_and_incomplete_messages_do_nothing() {
    assert!(events_for_message(message("bogus"), Some(1)).is_empty());
    assert!(events_for_message(message("navigate"), Some(1)).is_empty());
    assert!(events_for_message(message("save_image"), Some(1)).is_empty());
    assert!(events_for_message(message("settings-change"), Some(1)).is_empty());
}
