use zenith_browser::config::{BookmarkSite, RecentSite};
use zenith_browser::ipc::Suggestion;
use zenith_browser::suggestions::{like_pattern, merge_db_suggestions, merge_tab_suggestions};

fn site(url: &str, title: &str) -> RecentSite {
    RecentSite { url: url.to_string(), title: title.to_string() }
}

fn tab(id: u32, title: &str, url: &str) -> Suggestion {
    Suggestion {
        title: title.to_string(),
        url: Some(url.to_string()),
        suggestion_type: "tab".to_string(),
        tab_id: Some(id),
    }
}

#[test]
fn bookmarks_first_then_new_history() {
    let bookmarks = vec![BookmarkSite { url: "https://a".to_string(), title: "A".to_string() }];
    let history = vec![site("https://a", "A again"), site("https://b", "B"), site("https://b", "B2")];
    let r = merge_db_suggestions(bookmarks, history);
    assert_eq!(r.len(), 2);
    assert_eq!(r[0].suggestion_type, "bookmark");
    assert_eq!(r[0].url.as_deref(), Some("https://a"));
    assert_eq!(r[1].suggestion_type, "history");
    assert_eq!(r[1].title, "B");
    assert_eq!(r[1].tab_id, None);
}

#[test]
fn tabs_join_by_title_or_url_without_duplicates() {
    let db = vec![tab(0, "Rust", "https://rust-lang.org")];
    let tabs = vec![
        tab(1, "RUST", "https://x"),
        tab(2, "Rust", "https://dup"),
        tab(3, "Docs", "https://docs.rs/RUST"),
        tab(4, "Other", "https://other"),
    ];
    let r = merge_tab_suggestions(db, tabs, "rust");
    let ids: Vec<Option<u32>> = r.iter().map(|s| s.tab_id).collect();
    assert_eq!(ids, vec![Some(0), Some(1), Some(3)]);
}

#[test]
fn tabs_stop_at_the_limit() {
    let db: Vec<Suggestion> = (0..14).map(|i| tab(100 + i, &format!("db{i}"), "u")).collect();
    let tabs: Vec<Suggestion> = (0..5).map(|i| tab(i, &format!("tab{i}"), "u")).collect();
    let r = merge_tab_suggestions(db, tabs, "");
    assert_eq!(r.len(), 15);
    assert_eq!(r[14].tab_id, Some(0));
    let full: Vec<Suggestion> = (0..20).map(|i| tab(100 + i, &format!("db{i}"), "u")).collect();
    let r = merge_tab_suggestions(full, vec![tab(1, "t", "u")], "");
    assert_eq!(r.len(), 20);
}

#[test]
fn tabs_without_url_match_on_title_only() {
    let mut t = tab(1, "Inbox", "ignored");
    t.url = None;
    assert_eq!(merge_tab_suggestions(Vec::new(), vec![t.clone()], "inb").len(), 1);
    assert_eq!(merge_tab_suggestions(Vec::new(), vec![t], "ignored").len(), 0);
}

#[test]
fn like_patterns() {
    assert_eq!(like_pattern("abc"), "%abc%");
    assert_eq!(like_pattern(""), "%%");
}
