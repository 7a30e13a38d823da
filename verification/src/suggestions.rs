//! Address-bar suggestions: bookmarks and history from the database,
//! then matching open tabs.

use vstd::prelude::*;
use crate::config::{BookmarkSite, RecentSite};
use crate::ipc::Suggestion;
use crate::text::{concat3, contains, contains_spec, owned, str_eq, to_lowercase, unicode_lower};
use crate::url_parts::opt_str_view;

verus! {

broadcast use vstd::string::group_string_axioms;

/// The most suggestions that tabs are added up to.
pub const SUGGESTION_LIMIT: usize = 15;

/// The text of a suggestion.
pub ghost struct SuggestionView {
    pub title: Seq<char>,
    pub url: Option<Seq<char>>,
    pub kind: Seq<char>,
    pub tab_id: Option<u32>,
}

/// The view of a suggestion.
pub open spec fn sugg_view(s: Suggestion) -> SuggestionView {
    SuggestionView {
        title: s.title@,
        url: opt_str_view(s.url),
        kind: s.suggestion_type@,
        tab_id: s.tab_id,
    }
}

/// The views of a list of suggestions.
pub open spec fn suggs_view(v: Seq<Suggestion>) -> Seq<SuggestionView> {
    v.map_values(|s: Suggestion| sugg_view(s))
}

/// A bookmark as a suggestion.
pub open spec fn bookmark_view(b: BookmarkSite) -> SuggestionView {
    SuggestionView { title: b.title@, url: Some(b.url@), kind: "bookmark"@, tab_id: None }
}

/// A history entry as a suggestion.
pub open spec fn history_view(h: RecentSite) -> SuggestionView {
    SuggestionView { title: h.title@, url: Some(h.url@), kind: "history"@, tab_id: None }
}

/// Some suggestion in `acc` points at `u`.
pub open spec fn has_url(acc: Seq<SuggestionView>, u: Seq<char>) -> bool {
    exists|k: int| 0 <= k < acc.len() && acc[k].url == Some(u)
}

/// `acc` followed by the history entries whose address no earlier
/// suggestion points at.
pub open spec fn with_history(acc: Seq<SuggestionView>, hs: Seq<RecentSite>) -> Seq<SuggestionView>
    decreases hs.len(),
{
    if hs.len() == 0 {
        acc
    } else {
        let prev = with_history(acc, hs.drop_last());
        if has_url(prev, hs.last().url@) {
            prev
        } else {
            prev.push(history_view(hs.last()))
        }
    }
}

/// The database suggestions: every bookmark, then the history entries
/// whose address is not already suggested.
pub open spec fn db_suggestions(bookmarks: Seq<BookmarkSite>, history: Seq<RecentSite>) -> Seq<SuggestionView> {
    with_history(bookmarks.map_values(|b: BookmarkSite| bookmark_view(b)), history)
}

/// The database suggestions for the bookmarks and history entries that
/// match a query.
pub fn merge_db_suggestions(bookmarks: Vec<BookmarkSite>, history: Vec<RecentSite>) -> (r: Vec<Suggestion>)
    ensures
        suggs_view(r@) == db_suggestions(bookmarks@, history@),
{
    let mut results: Vec<Suggestion> = Vec::new();
    let mut i: usize = 0;
    while i < bookmarks.len()
        invariant
            i <= bookmarks@.len(),
            suggs_view(results@) == bookmarks@.take(i as int).map_values(
                |b: BookmarkSite| bookmark_view(b),
            ),
        decreases bookmarks.len() - i,
    {
        let b = &bookmarks[i];
        let s = Suggestion {
            title: b.title.clone(),
            url: Some(b.url.clone()),
            suggestion_type: owned("bookmark"),
            tab_id: None,
        };
        let ghost before = results@;
        results.push(s);
        assert(suggs_view(results@) =~= suggs_view(before).push(sugg_view(s)));
        assert(bookmarks@.take(i + 1).map_values(|b: BookmarkSite| bookmark_view(b))
            =~= bookmarks@.take(i as int).map_values(|b: BookmarkSite| bookmark_view(b)).push(
            bookmark_view(bookmarks@[i as int]),
        ));
        i += 1;
    }
    assert(bookmarks@.take(bookmarks@.len() as int) =~= bookmarks@);
    let ghost start = suggs_view(results@);
    let mut j: usize = 0;
    assert(history@.take(0) =~= Seq::<RecentSite>::empty());
    while j < history.len()
        invariant
            j <= history@.len(),
            suggs_view(results@) == with_history(start, history@.take(j as int)),
        decreases history.len() - j,
    {
        let h = &history[j];
        let ghost prev = suggs_view(results@);
        assert(history@.take(j + 1).drop_last() =~= history@.take(j as int));
        let mut seen = false;
        let mut k: usize = 0;
        while k < results.len()
            invariant
                k <= results@.len(),
                prev == suggs_view(results@),
                seen == exists|m: int| 0 <= m < k && prev[m].url == Some(h.url@),
            decreases results.len() - k,
        {
            match &results[k].url {
                Some(u) => {
                    if str_eq(u.as_str(), h.url.as_str()) {
                        seen = true;
                    }
                },
                None => {},
            }
            assert(prev[k as int] == sugg_view(results@[k as int]));
            k += 1;
        }
        if !seen {
            let s = Suggestion {
                title: h.title.clone(),
                url: Some(h.url.clone()),
                suggestion_type: owned("history"),
                tab_id: None,
            };
            results.push(s);
            assert(suggs_view(results@) =~= prev.push(sugg_view(s)));
        }
        j += 1;
    }
    assert(history@.take(history@.len() as int) =~= history@);
    results
}

/// A copy of a suggestion.
pub fn copy_suggestion(s: &Suggestion) -> (c: Suggestion)
    ensures
        sugg_view(c) == sugg_view(*s),
{
    Suggestion {
        title: s.title.clone(),
        url: match &s.url {
            Some(u) => Some(u.clone()),
            None => None,
        },
        suggestion_type: s.suggestion_type.clone(),
        tab_id: s.tab_id,
    }
}

/// The lower-case text a tab suggestion is matched on.
pub open spec fn lowered_url(u: Option<Seq<char>>) -> Seq<char> {
    match u {
        Some(s) => unicode_lower(s),
        None => Seq::empty(),
    }
}

/// A tab suggestion matches the lower-case query by title or address.
pub open spec fn tab_matches(t: SuggestionView, q: Seq<char>) -> bool {
    contains_spec(unicode_lower(t.title), q) || contains_spec(lowered_url(t.url), q)
}

/// Some suggestion in `acc` carries the title `title`.
pub open spec fn has_title(acc: Seq<SuggestionView>, title: Seq<char>) -> bool {
    exists|k: int| 0 <= k < acc.len() && acc[k].title == title
}

/// `acc` after considering tab `t`.
pub open spec fn tab_step(acc: Seq<SuggestionView>, t: SuggestionView, q: Seq<char>) -> Seq<SuggestionView> {
    if tab_matches(t, q) && !has_title(acc, t.title) {
        acc.push(t)
    } else {
        acc
    }
}

/// `acc` with the matching tabs whose titles are new appended in order,
/// while fewer than the limit are listed.
pub open spec fn with_tabs(acc: Seq<SuggestionView>, tabs: Seq<SuggestionView>, q: Seq<char>) -> Seq<SuggestionView>
    decreases tabs.len(),
{
    if tabs.len() == 0 || acc.len() >= SUGGESTION_LIMIT {
        acc
    } else {
        with_tabs(tab_step(acc, tabs[0], q), tabs.drop_first(), q)
    }
}

/// The suggestions with the open tabs added: a tab whose title or address
/// contains the query (compared in lower case) joins the list, unless a
/// suggestion with its title is already listed, until the list holds the
/// limit.
pub fn merge_tab_suggestions(results: Vec<Suggestion>, tabs: Vec<Suggestion>, query: &str) -> (r: Vec<Suggestion>)
    ensures
        suggs_view(r@) == with_tabs(suggs_view(results@), suggs_view(tabs@), unicode_lower(query@)),
{
    let q = to_lowercase(query);
    let ghost qv = q@;
    let ghost tv = suggs_view(tabs@);
    let ghost goal = with_tabs(suggs_view(results@), tv, qv);
    let mut acc = results;
    let mut i: usize = 0;
    let n = tabs.len();
    assert(tv.skip(0) =~= tv);
    while i < n
        invariant
            n == tabs@.len(),
            tv == suggs_view(tabs@),
            i <= n,
            qv == q@,
            qv == unicode_lower(query@),
            goal == with_tabs(suggs_view(acc@), tv.skip(i as int), qv),
            goal == with_tabs(suggs_view(results@), suggs_view(tabs@), unicode_lower(query@)),
        decreases n - i,
    {
        if acc.len() >= SUGGESTION_LIMIT {
            assert(suggs_view(acc@).len() == acc@.len());
            assert(suggs_view(acc@).len() >= SUGGESTION_LIMIT);
            assert(with_tabs(suggs_view(acc@), tv.skip(i as int), qv) == suggs_view(acc@));
            return acc;
        }
        assert(tv.skip(i as int).drop_first() =~= tv.skip(i + 1));
        assert(tv.skip(i as int)[0] == sugg_view(tabs@[i as int]));
        let t = &tabs[i];
        let title_lc = to_lowercase(t.title.as_str());
        let url_lc = match &t.url {
            Some(u) => to_lowercase(u.as_str()),
            None => String::new(),
        };
        let matches = contains(title_lc.as_str(), q.as_str()) || contains(url_lc.as_str(), q.as_str());
        if matches {
            let ghost prev = suggs_view(acc@);
            let mut dup = false;
            let mut k: usize = 0;
            while k < acc.len()
                invariant
                    k <= acc@.len(),
                    prev == suggs_view(acc@),
                    dup == exists|m: int| 0 <= m < k && prev[m].title == t.title@,
                decreases acc.len() - k,
            {
                if str_eq(acc[k].title.as_str(), t.title.as_str()) {
                    dup = true;
                }
                assert(prev[k as int] == sugg_view(acc@[k as int]));
                k += 1;
            }
            if !dup {
                let s = copy_suggestion(t);
                acc.push(s);
                assert(suggs_view(acc@) =~= prev.push(sugg_view(s)));
            }
        }
        i += 1;
    }
    assert(tv.skip(n as int) =~= Seq::<SuggestionView>::empty());
    acc
}

/// The SQL `LIKE` pattern that matches text containing `query`.
pub fn like_pattern(query: &str) -> (p: String)
    ensures
        p@ == "%"@ + query@ + "%"@,
{
    concat3("%", query, "%")
}

} // verus!
