//! Properties that relate the library's operations to each other.

use vstd::prelude::*;
use vstd::utf8::encode_utf8;
use crate::encoding::{percent_byte, percent_bytes, percent_encode_spec, hex_upper, is_alnum_byte};
use crate::text::{
    no_ws, contains_spec, decimal, digit_char, is_ws, occurs_at, replace_spec, trim_end_spec, trim_spec,
    trim_start_spec,
};
use crate::tab::{
    init_script, TAB_INIT_BODY, TAB_INIT_CLOSE, TAB_INIT_ID_PREFIX, TAB_INIT_OPEN, USER_AGENT_DATA_JS,
};
use crate::urls::{
    auth_markers, oauth_exchange, or_empty, path_and_query, auth_window, background_sync, fallback_title, host_title, http_like, lower_host,
    normalized_url, resolved_title, strip_www, track_recent, HOME_URL,
};
use crate::url_parts::{host_without_ws, UrlParts};
use crate::text::lower_spec;
use crate::browser::{
    title_after_url_change, toggled_theme, active_after_close, has_tab, other_than, permissions_after, tab_added, tab_at, tab_closed, target_of,
    view_wf, BrowserView, CloseOutcome,
};
use crate::suggestions::{lowered_url, has_title, tab_step, with_tabs, SuggestionView, SUGGESTION_LIMIT};

verus! {

proof fn lemma_trim_start_shape(s: Seq<char>)
    ensures
        trim_start_spec(s).len() <= s.len(),
        trim_start_spec(s) == s.skip(s.len() - trim_start_spec(s).len()),
        trim_start_spec(s).len() > 0 ==> !is_ws(trim_start_spec(s)[0]),
    decreases s.len(),
{
    if s.len() > 0 && is_ws(s[0]) {
        lemma_trim_start_shape(s.drop_first());
        assert(s.drop_first().skip(s.drop_first().len() - trim_start_spec(s).len()) =~= s.skip(
            s.len() - trim_start_spec(s).len(),
        ));
    } else {
        assert(s.skip(0) =~= s);
    }
}

proof fn lemma_trim_end_shape(s: Seq<char>)
    ensures
        trim_end_spec(s).len() <= s.len(),
        trim_end_spec(s) == s.take(trim_end_spec(s).len() as int),
        trim_end_spec(s).len() > 0 ==> !is_ws(trim_end_spec(s).last()),
        s.len() > 0 && !is_ws(s[0]) ==> trim_end_spec(s).len() > 0,
    decreases s.len(),
{
    if s.len() > 0 && is_ws(s.last()) {
        lemma_trim_end_shape(s.drop_last());
        assert(s.drop_last().take(trim_end_spec(s).len() as int) =~= s.take(
            trim_end_spec(s).len() as int,
        ));
        if s.len() > 0 && !is_ws(s[0]) {
            assert(s.len() > 1);
            assert(s.drop_last()[0] == s[0]);
        }
    } else {
        assert(s.take(s.len() as int) =~= s);
    }
}

/// Trimmed text, where not empty, begins and ends with a character that
/// is not whitespace.
proof fn lemma_trim_edges(s: Seq<char>)
    ensures
        trim_spec(s).len() > 0 ==> !is_ws(trim_spec(s)[0]) && !is_ws(trim_spec(s).last()),
{
    let a = trim_start_spec(s);
    lemma_trim_start_shape(s);
    lemma_trim_end_shape(a);
    if trim_spec(s).len() > 0 {
        assert(trim_spec(s)[0] == a[0]);
    }
}

/// Text that neither begins nor ends with whitespace is its own trim.
proof fn lemma_trim_fixed(s: Seq<char>)
    requires
        s.len() == 0 || (!is_ws(s[0]) && !is_ws(s.last())),
    ensures
        trim_spec(s) == s,
{
}

proof fn lemma_percent_no_ws(bs: Seq<u8>)
    ensures
        no_ws(percent_bytes(bs)),
    decreases bs.len(),
{
    if bs.len() > 0 {
        lemma_percent_no_ws(bs.drop_first());
        let b = bs[0];
        let head = percent_byte(b);
        assert(no_ws(head)) by {
            if is_alnum_byte(b) {
                assert(head[0] == ((b as u32) as char));
            } else {
                let hi = b as int / 16;
                let lo = b as int % 16;
                assert(0 <= hi < 16 && 0 <= lo < 16);
                assert(head[1] == hex_upper(hi));
                assert(head[2] == hex_upper(lo));
            }
        }
        let rest = percent_bytes(bs.drop_first());
        assert forall|i: int| 0 <= i < percent_bytes(bs).len() implies !is_ws(
            #[trigger] percent_bytes(bs)[i],
        ) by {
            if i < head.len() {
                assert(percent_bytes(bs)[i] == head[i]);
            } else {
                assert(percent_bytes(bs)[i] == rest[i - head.len()]);
            }
        }
    }
}

proof fn lemma_replace_keeps_prefix(s: Seq<char>, p: Seq<char>, from: Seq<char>, to: Seq<char>)
    requires
        p.is_prefix_of(s),
        from.len() > 0,
        forall|i: int| 0 <= i < p.len() ==> p[i] != from[0],
    ensures
        p.is_prefix_of(replace_spec(s, from, to)),
    decreases p.len(),
{
    if p.len() > 0 {
        assert(s[0] == p[0]);
        assert(!from.is_prefix_of(s));
        let q = p.drop_first();
        assert(q.is_prefix_of(s.drop_first()));
        assert forall|i: int| 0 <= i < q.len() implies q[i] != from[0] by {
            assert(q[i] == p[i + 1]);
        }
        lemma_replace_keeps_prefix(s.drop_first(), q, from, to);
        let r = replace_spec(s.drop_first(), from, to);
        assert forall|i: int| 0 <= i < p.len() implies (seq![s[0]] + r)[i] == p[i] by {
            if i > 0 {
                assert((seq![s[0]] + r)[i] == r[i - 1]);
                assert(r[i - 1] == q[i - 1]);
            }
        }
    }
}

/// Replacing with a non-empty text leaves a non-empty result that ends
/// either as the text did or as the replacement does.
proof fn lemma_replace_last(s: Seq<char>, from: Seq<char>, to: Seq<char>)
    requires
        s.len() > 0,
        from.len() > 0,
        to.len() > 0,
    ensures
        replace_spec(s, from, to).len() > 0,
        replace_spec(s, from, to).last() == s.last() || replace_spec(s, from, to).last()
            == to.last(),
    decreases s.len(),
{
    if from.is_prefix_of(s) {
        let rest = s.skip(from.len() as int);
        if rest.len() > 0 {
            lemma_replace_last(rest, from, to);
            assert(rest.last() == s.last());
        } else {
            assert(replace_spec(rest, from, to) =~= Seq::<char>::empty());
            assert(replace_spec(s, from, to) =~= to);
        }
    } else {
        let rest = s.drop_first();
        if rest.len() > 0 {
            lemma_replace_last(rest, from, to);
            assert(rest.last() == s.last());
        } else {
            assert(replace_spec(rest, from, to) =~= Seq::<char>::empty());
            assert(replace_spec(s, from, to) =~= seq![s[0]]);
        }
    }
}

/// The percent-encoding of non-empty text is not empty.
proof fn lemma_percent_nonempty(t: Seq<char>)
    requires
        t.len() > 0,
    ensures
        percent_encode_spec(t).len() > 0,
{
    let bs = encode_utf8(t);
    assert(vstd::utf8::encode_scalar(t[0] as u32).len() > 0);
    assert(bs.len() > 0);
    assert(percent_bytes(bs) == percent_byte(bs[0]) + percent_bytes(bs.drop_first()));
}

/// Address-bar input that has been normalised normalises to itself, for a
/// search URL that is a web URL without leading or trailing whitespace.
pub proof fn law_normalize_idempotent(raw: Seq<char>, search_engine_url: Seq<char>)
    requires
        http_like(search_engine_url),
        trim_spec(search_engine_url) == search_engine_url,
    ensures
        normalized_url(normalized_url(raw, search_engine_url), search_engine_url) == normalized_url(
            raw,
            search_engine_url,
        ),
{
    reveal_strlit("zenith://assets/home");
    reveal_strlit("zenith://");
    reveal_strlit("http://");
    reveal_strlit("https://");
    reveal_strlit("{}");
    let t = trim_spec(raw);
    lemma_trim_edges(raw);
    let n = normalized_url(raw, search_engine_url);
    if t.len() == 0 {
        assert(n == HOME_URL@);
        lemma_trim_fixed(n);
        assert("zenith://"@.is_prefix_of(n));
    } else if "zenith://"@.is_prefix_of(t) || http_like(t) {
        lemma_trim_fixed(t);
    } else if (t.contains('.') || "localhost"@.is_prefix_of(t)) && !t.contains(' ') {
        assert(n == "https://"@ + t);
        assert(n[0] == 'h');
        assert(n.last() == t.last());
        lemma_trim_fixed(n);
        assert("https://"@.is_prefix_of(n));
    } else {
        let q = percent_encode_spec(t);
        lemma_percent_no_ws(encode_utf8(t));
        lemma_percent_nonempty(t);
        let p = if "http://"@.is_prefix_of(search_engine_url) {
            "http://"@
        } else {
            "https://"@
        };
        lemma_replace_keeps_prefix(search_engine_url, p, "{}"@, q);
        lemma_trim_edges(search_engine_url);
        lemma_replace_last(search_engine_url, "{}"@, q);
        assert(!is_ws(q.last()));
        assert(n.len() > 0);
        assert(!is_ws(n[0]) && !is_ws(n.last()));
        lemma_trim_fixed(n);
        assert(http_like(n));
    }
}

/// Google's background account-sync pages never open a sign-in window.
pub proof fn law_background_sync_is_not_auth_window(parsed: Option<UrlParts>)
    ensures
        background_sync(parsed) ==> !auth_window(parsed),
{
}

/// Only web URLs (scheme `http` or `https`, in any case) with a host open a
/// sign-in window.
pub proof fn law_auth_window_only_for_web_urls(u: UrlParts)
    ensures
        auth_window(Some(u)) ==> (lower_spec(u.scheme) == "http"@ || lower_spec(u.scheme)
            == "https"@) && lower_host(u).len() > 0,
{
}

/// Only web pages go into the history.
pub proof fn law_tracked_sites_are_web_pages(raw: Seq<char>, parsed: Option<UrlParts>)
    ensures
        track_recent(raw, parsed) ==> http_like(raw),
{
}

/// A tab always has a title to show: the fallback title is never empty.
pub proof fn law_fallback_title_not_empty(raw: Seq<char>, parsed: Option<UrlParts>)
    ensures
        fallback_title(raw, parsed).len() > 0,
{
    reveal_strlit("Settings");
    reveal_strlit("History");
    reveal_strlit("Downloads");
    reveal_strlit("New Tab");
    reveal_strlit("Zenith");
}

/// The title a tab shows for a reported title is never empty.
pub proof fn law_resolved_title_not_empty(raw_title: Seq<char>, url: Seq<char>, parsed: Option<UrlParts>)
    ensures
        resolved_title(raw_title, url, parsed).len() > 0,
{
    law_fallback_title_not_empty(url, parsed);
}

/// The fallback title neither begins nor ends with whitespace, where the
/// URL's host holds none (as no host that `url::Url::parse` gives does).
pub proof fn law_fallback_title_trimmed(raw: Seq<char>, parsed: Option<UrlParts>)
    requires
        host_without_ws(parsed),
    ensures
        trim_spec(fallback_title(raw, parsed)) == fallback_title(raw, parsed),
{
    reveal_strlit("Settings");
    reveal_strlit("History");
    reveal_strlit("Downloads");
    reveal_strlit("New Tab");
    reveal_strlit("Zenith");
    reveal_strlit("www.");
    let f = fallback_title(raw, parsed);
    law_fallback_title_not_empty(raw, parsed);
    if f == host_title(parsed) && f != "Zenith"@ {
        let h = parsed.unwrap().host.unwrap();
        assert(f == strip_www(h));
        if "www."@.is_prefix_of(h) {
            assert(f[0] == h[4]);
            assert(f.last() == h.last());
        } else {
            assert(f[0] == h[0]);
        }
        assert(!is_ws(f[0]) && !is_ws(f.last()));
    }
    lemma_trim_fixed(f);
}

/// The title a tab shows neither begins nor ends with whitespace, where the
/// URL's host holds none (as no host that `url::Url::parse` gives does).
pub proof fn law_resolved_title_trimmed(raw_title: Seq<char>, url: Seq<char>, parsed: Option<UrlParts>)
    requires
        host_without_ws(parsed),
    ensures
        trim_spec(resolved_title(raw_title, url, parsed)) == resolved_title(raw_title, url, parsed),
{
    let t = trim_spec(raw_title);
    lemma_trim_edges(raw_title);
    law_fallback_title_trimmed(url, parsed);
    if resolved_title(raw_title, url, parsed) == t && t.len() > 0 {
        lemma_trim_fixed(t);
    }
}

/// Resolving a title that has already been resolved changes nothing, where
/// the URL's host holds no whitespace (as no host that `url::Url::parse`
/// gives does).
pub proof fn law_resolved_title_idempotent(raw_title: Seq<char>, url: Seq<char>, parsed: Option<UrlParts>)
    requires
        host_without_ws(parsed),
    ensures
        resolved_title(resolved_title(raw_title, url, parsed), url, parsed) == resolved_title(
            raw_title,
            url,
            parsed,
        ),
{
    let t = trim_spec(raw_title);
    let r = resolved_title(raw_title, url, parsed);
    lemma_trim_edges(raw_title);
    law_fallback_title_not_empty(url, parsed);
    law_fallback_title_trimmed(url, parsed);
    if r == t && t.len() > 0 {
        lemma_trim_fixed(t);
    }
}

/// The menu's Light Mode check flips with every toggle of the theme, and
/// toggling the light or the dark theme twice gives it back.
pub proof fn law_toggle_theme_flips(current: Seq<char>)
    ensures
        (toggled_theme(current) == "light"@) == (current != "light"@),
        current == "light"@ || current == "dark"@ ==> toggled_theme(toggled_theme(current))
            == current,
{
    reveal_strlit("light");
    reveal_strlit("dark");
    assert("light"@ != "dark"@) by {
        assert("light"@[0] != "dark"@[0]);
    }
}

/// Granting a permission twice is the same as granting it once.
pub proof fn law_grant_idempotent(perms: Seq<Seq<char>>, p: Seq<char>)
    ensures
        permissions_after(permissions_after(perms, p, true), p, true) == permissions_after(
            perms,
            p,
            true,
        ),
{
    if !perms.contains(p) {
        assert(perms.push(p)[perms.len() as int] == p);
    }
}

/// After a grant the tab holds the permission; after a revocation it does
/// not.
pub proof fn law_grant_holds_revoke_drops(perms: Seq<Seq<char>>, p: Seq<char>)
    ensures
        permissions_after(perms, p, true).contains(p),
        !permissions_after(perms, p, false).contains(p),
{
    if !perms.contains(p) {
        assert(perms.push(p)[perms.len() as int] == p);
    }
    let f = permissions_after(perms, p, false);
    if f.contains(p) {
        let k = choose|k: int| 0 <= k < f.len() && f[k] == p;
        perms.filter_lemma(other_than(p));
        assert(false);
    }
}

/// Revoking a permission undoes granting it, where the tab did not hold it.
pub proof fn law_revoke_undoes_grant(perms: Seq<Seq<char>>, p: Seq<char>)
    requires
        !perms.contains(p),
    ensures
        permissions_after(permissions_after(perms, p, true), p, false) == perms,
{
    let pred = other_than(p);
    perms.lemma_filter_push(p, pred);
    assert(perms.push(p).filter(pred) == perms.filter(pred));
    lemma_filter_keeps_all(perms, p);
    assert(perms.push(p)[perms.len() as int] == p);
    assert(permissions_after(perms, p, true) == perms.push(p));
}

proof fn lemma_filter_keeps_all(perms: Seq<Seq<char>>, p: Seq<char>)
    requires
        !perms.contains(p),
    ensures
        perms.filter(other_than(p)) == perms,
    decreases perms.len(),
{
    let pred = other_than(p);
    if perms.len() > 0 {
        let init = perms.drop_last();
        assert(!init.contains(p)) by {
            if init.contains(p) {
                let k = choose|k: int| 0 <= k < init.len() && init[k] == p;
                assert(perms[k] == p);
            }
        }
        lemma_filter_keeps_all(init, p);
        assert(perms.last() != p) by {
            assert(perms[perms.len() - 1] == perms.last());
        }
        init.lemma_filter_push(perms.last(), pred);
        assert(init.push(perms.last()) =~= perms);
    } else {
        assert(perms.filter(pred) =~= perms);
    }
}

/// Granting and revoking keep a permission list free of duplicates.
pub proof fn law_permissions_stay_distinct(perms: Seq<Seq<char>>, p: Seq<char>, granted: bool)
    requires
        perms.no_duplicates(),
    ensures
        permissions_after(perms, p, granted).no_duplicates(),
{
    if granted {
        if !perms.contains(p) {
            let r = perms.push(p);
            assert forall|i: int, j: int| 0 <= i < r.len() && 0 <= j < r.len() && i != j implies r[i]
                != r[j] by {
                if i == perms.len() as int {
                    assert(r[j] == perms[j]);
                } else if j == perms.len() as int {
                    assert(r[i] == perms[i]);
                }
            }
        }
    } else {
        lemma_filter_distinct(perms, other_than(p));
    }
}

proof fn lemma_filter_distinct(s: Seq<Seq<char>>, pred: spec_fn(Seq<char>) -> bool)
    requires
        s.no_duplicates(),
    ensures
        s.filter(pred).no_duplicates(),
    decreases s.len(),
{
    if s.len() > 0 {
        let init = s.drop_last();
        assert(init.no_duplicates()) by {
            assert forall|i: int, j: int| 0 <= i < init.len() && 0 <= j < init.len() && i != j implies init[i]
                != init[j] by {
                assert(init[i] == s[i] && init[j] == s[j]);
            }
        }
        lemma_filter_distinct(init, pred);
        init.lemma_filter_push(s.last(), pred);
        assert(init.push(s.last()) =~= s);
        if pred(s.last()) {
            let f = init.filter(pred);
            assert(!f.contains(s.last())) by {
                if f.contains(s.last()) {
                    let k = choose|k: int| 0 <= k < f.len() && f[k] == s.last();
                    init.lemma_filter_contains_rev(pred, s.last());
                    assert(init.contains(f[k]));
                    let m = choose|m: int| 0 <= m < init.len() && init[m] == f[k];
                    assert(s[m] == s[s.len() - 1]);
                }
            }
            let r = f.push(s.last());
            assert forall|i: int, j: int| 0 <= i < r.len() && 0 <= j < r.len() && i != j implies r[i]
                != r[j] by {
                if i == f.len() as int {
                    assert(r[j] == f[j]);
                } else if j == f.len() as int {
                    assert(r[i] == f[i]);
                }
            }
        }
    }
}

/// Closing a tab that was just opened restores the tab strip, and the
/// active tab is the one that was active before, or, where the new tab
/// had become active, the tab before it.
pub proof fn law_close_undoes_add(
    v0: BrowserView,
    v1: BrowserView,
    v2: BrowserView,
    index: usize,
    url: String,
    activate: bool,
    is_incognito: bool,
    outcome: CloseOutcome,
)
    requires
        view_wf(v0),
        v0.tabs.len() >= 1,
        tab_added(v0, v1, index, url, activate, is_incognito),
        tab_closed(v1, v2, Some(v0.next_id), outcome),
    ensures
        outcome == (CloseOutcome::Closed { index, reopen: false }),
        v2.tabs == v0.tabs,
        v2.active == if activate || v0.active.is_none() {
            Some(v0.tabs.last().id)
        } else {
            v0.active
        },
        v2.next_id == v0.next_id + 1,
{
    let id = v0.next_id;
    assert(tab_at(v1.tabs, id, index as int));
    assert(has_tab(v1.tabs, id));
    let idx = choose|idx: int|
        #![trigger v1.tabs.remove(idx)]
        tab_at(v1.tabs, id, idx) && outcome == (CloseOutcome::Closed {
            index: idx as usize,
            reopen: v1.tabs.len() <= 1,
        }) && v2 == (BrowserView { tabs: v1.tabs.remove(idx), active: active_after_close(v1, id, idx), ..v1 });
    if idx != index as int {
        assert(v1.tabs[idx] == v0.tabs[idx]) by {
            assert(v1.tabs.subrange(0, index as int)[idx] == v1.tabs[idx]);
        }
        assert(false);
    }
    assert(v1.tabs.remove(idx) =~= v0.tabs) by {
        assert forall|k: int| 0 <= k < v0.tabs.len() implies v1.tabs.remove(idx)[k] == v0.tabs[k] by {
            assert(v1.tabs.subrange(0, index as int)[k] == v1.tabs[k]);
        }
    }
    assert(v0.tabs[v0.tabs.len() - 1] == v0.tabs.last());
    if let Some(a) = v0.active {
        assert(a < v0.next_id);
    }
}

/// Closing a tab other than the last one leaves an open tab active, where
/// one was active before.
pub proof fn law_close_keeps_active_open(
    v1: BrowserView,
    v2: BrowserView,
    tab_id: Option<u32>,
    index: usize,
)
    requires
        view_wf(v1),
        tab_closed(v1, v2, tab_id, CloseOutcome::Closed { index, reopen: false }),
        match v1.active {
            Some(a) => has_tab(v1.tabs, a),
            None => true,
        },
    ensures
        match v2.active {
            Some(a) => has_tab(v2.tabs, a),
            None => true,
        },
{
    let id = target_of(tab_id, v1.active).unwrap();
    let idx = choose|idx: int|
        #![trigger v1.tabs.remove(idx)]
        tab_at(v1.tabs, id, idx) && CloseOutcome::Closed { index, reopen: false } == (
        CloseOutcome::Closed { index: idx as usize, reopen: v1.tabs.len() <= 1 }) && v2 == (BrowserView {
            tabs: v1.tabs.remove(idx),
            active: active_after_close(v1, id, idx),
            ..v1
        });
    let rest = v1.tabs.remove(idx);
    if v1.active == Some(id) {
        let j = if idx > 0 {
            idx - 1
        } else {
            0
        };
        assert(tab_at(rest, rest[j].id, j));
    } else if let Some(a) = v1.active {
        let k = choose|k: int| tab_at(v1.tabs, a, k);
        assert(k != idx);
        let k2 = if k < idx { k } else { k - 1 };
        assert(rest[k2] == v1.tabs[k]);
        assert(tab_at(rest, a, k2));
    }
}

/// Adding open tabs to the suggestions keeps the earlier suggestions first
/// and in order.
pub proof fn law_tab_merge_keeps_results(acc: Seq<SuggestionView>, tabs: Seq<SuggestionView>, q: Seq<char>)
    ensures
        acc.is_prefix_of(with_tabs(acc, tabs, q)),
    decreases tabs.len(),
{
    if tabs.len() == 0 || acc.len() >= SUGGESTION_LIMIT {
    } else {
        let next = tab_step(acc, tabs[0], q);
        law_tab_merge_keeps_results(next, tabs.drop_first(), q);
    }
}

/// Open tabs are added only up to the limit.
pub proof fn law_tab_merge_limit(acc: Seq<SuggestionView>, tabs: Seq<SuggestionView>, q: Seq<char>)
    ensures
        with_tabs(acc, tabs, q).len() <= if acc.len() > SUGGESTION_LIMIT {
            acc.len()
        } else {
            SUGGESTION_LIMIT as nat
        },
    decreases tabs.len(),
{
    if tabs.len() == 0 || acc.len() >= SUGGESTION_LIMIT {
    } else {
        let next = tab_step(acc, tabs[0], q);
        law_tab_merge_limit(next, tabs.drop_first(), q);
    }
}

/// Every tab suggestion that is added carries a title that no suggestion
/// before it carries.
pub proof fn law_tab_merge_new_titles(acc: Seq<SuggestionView>, tabs: Seq<SuggestionView>, q: Seq<char>)
    ensures
        forall|i: int, j: int|
            #![trigger with_tabs(acc, tabs, q)[i], with_tabs(acc, tabs, q)[j]]
            acc.len() <= i < with_tabs(acc, tabs, q).len() && 0 <= j < i ==> with_tabs(
                acc,
                tabs,
                q,
            )[j].title != with_tabs(acc, tabs, q)[i].title,
    decreases tabs.len(),
{
    if tabs.len() == 0 || acc.len() >= SUGGESTION_LIMIT {
    } else {
        let next = tab_step(acc, tabs[0], q);
        law_tab_merge_new_titles(next, tabs.drop_first(), q);
        law_tab_merge_keeps_results(next, tabs.drop_first(), q);
        let r = with_tabs(acc, tabs, q);
        assert(r == with_tabs(next, tabs.drop_first(), q));
        if next.len() > acc.len() {
            let i0 = acc.len() as int;
            assert(next[i0] == r.subrange(0, next.len() as int)[i0]);
            assert(r[i0] == tabs[0]);
            assert forall|j: int| 0 <= j < i0 implies r[j].title != r[i0].title by {
                assert(next[j] == r.subrange(0, next.len() as int)[j]);
                assert(r[j] == acc[j]);
                if r[j].title == r[i0].title {
                    assert(has_title(acc, tabs[0].title));
                }
            }
        }
    }
}


// ---------------------------------------------------------------------------
// The tab initialization script
// ---------------------------------------------------------------------------

/// Every character of a decimal numeral is a digit, and there is one.
proof fn lemma_decimal_digits(n: nat)
    ensures
        decimal(n).len() > 0,
        n >= 10 ==> decimal(n).len() >= 2,
        forall|i: int| 0 <= i < decimal(n).len() ==> '0' <= #[trigger] decimal(n)[i] <= '9',
    decreases n,
{
    if n >= 10 {
        lemma_decimal_digits(n / 10);
        let d = (n % 10) as nat;
        assert('0' <= digit_char(d) <= '9');
        assert forall|i: int| 0 <= i < decimal(n).len() implies '0' <= #[trigger] decimal(n)[i]
            <= '9' by {
            if i < decimal(n / 10).len() {
                assert(decimal(n)[i] == decimal(n / 10)[i]);
            }
        }
    } else {
        assert('0' <= digit_char(n) <= '9');
    }
}

proof fn lemma_digit_char_injective(a: nat, b: nat)
    requires
        a < 10,
        b < 10,
        digit_char(a) == digit_char(b),
    ensures
        a == b,
{
    assert((digit_char(a) as u32) == a + 48);
    assert((digit_char(b) as u32) == b + 48);
}

/// Different numbers have different decimal numerals.
proof fn lemma_decimal_injective(a: nat, b: nat)
    requires
        decimal(a) == decimal(b),
    ensures
        a == b,
    decreases a,
{
    lemma_decimal_digits(a);
    lemma_decimal_digits(b);
    if a < 10 && b < 10 {
        assert(decimal(a) == seq![digit_char(a)]);
        assert(decimal(b) == seq![digit_char(b)]);
        assert(decimal(a)[0] == decimal(b)[0]);
        assert(decimal(a)[0] == digit_char(a));
        assert(decimal(b)[0] == digit_char(b));
        lemma_digit_char_injective(a, b);
    } else if a >= 10 && b >= 10 {
        let da = decimal(a);
        assert(da.last() == digit_char((a % 10) as nat));
        assert(decimal(b).last() == digit_char((b % 10) as nat));
        lemma_digit_char_injective((a % 10) as nat, (b % 10) as nat);
        assert(decimal(a / 10) =~= da.drop_last());
        assert(decimal(b / 10) =~= decimal(b).drop_last());
        lemma_decimal_injective(a / 10, b / 10);
    }
}

/// What stands before the tab's id in its script.
pub open spec fn init_script_head() -> Seq<char> {
    TAB_INIT_OPEN@ + USER_AGENT_DATA_JS@ + TAB_INIT_ID_PREFIX@
}

/// The body of the script with the id `tab_id` in place.
pub open spec fn init_script_body(tab_id: u32) -> Seq<char> {
    replace_spec(TAB_INIT_BODY@, "{tab_id}"@, decimal(tab_id as nat))
}

/// The script of a tab assigns the tab's id, followed by a semicolon, to
/// `window.__ZENITH_TAB_ID`.
pub proof fn law_init_script_assigns_id(tab_id: u32)
    ensures
        contains_spec(
            init_script(tab_id),
            "window.__ZENITH_TAB_ID = "@ + decimal(tab_id as nat) + ";"@,
        ),
{
    reveal_strlit("window.__ZENITH_TAB_ID = ");
    reveal_strlit(";");
    reveal_strlit("\n            \n            window.__ZENITH_TAB_ID = ");
    let d = decimal(tab_id as nat);
    let h = init_script_head();
    let b = init_script_body(tab_id);
    let s = init_script(tab_id);
    let p = "window.__ZENITH_TAB_ID = "@ + d + ";"@;
    assert(s =~= h + d + ";"@ + b + TAB_INIT_CLOSE@);
    let k = h.len() - 25;
    assert(TAB_INIT_ID_PREFIX@.len() == 51);
    assert forall|i: int| 0 <= i < p.len() implies #[trigger] s.subrange(k, k + p.len())[i] == p[i] by {
        assert(s.subrange(k, k + p.len())[i] == s[k + i]);
        if i < 25 {
            assert(s[k + i] == h[k + i]);
            assert(h[k + i] == TAB_INIT_ID_PREFIX@[26 + i]);
        } else if i < 25 + d.len() {
            assert(s[k + i] == d[i - 25]);
        } else {
            assert(s[k + i] == ';');
        }
    }
    assert(s.subrange(k, k + p.len()) =~= p);
    assert(occurs_at(s, p, k));
}

/// Different tabs get different scripts.
pub proof fn law_init_script_distinct(a: u32, b: u32)
    requires
        a != b,
    ensures
        init_script(a) != init_script(b),
{
    let h = init_script_head();
    let da = decimal(a as nat);
    let db = decimal(b as nat);
    let sa = init_script(a);
    let sb = init_script(b);
    reveal_strlit(";");
    assert(sa =~= h + da + ";"@ + init_script_body(a) + TAB_INIT_CLOSE@);
    assert(sb =~= h + db + ";"@ + init_script_body(b) + TAB_INIT_CLOSE@);
    lemma_decimal_digits(a as nat);
    lemma_decimal_digits(b as nat);
    let l = h.len() as int;
    if sa == sb {
        if da.len() == db.len() {
            assert forall|i: int| 0 <= i < da.len() implies da[i] == db[i] by {
                assert(sa[l + i] == da[i]);
                assert(sb[l + i] == db[i]);
            }
            assert(da =~= db);
            lemma_decimal_injective(a as nat, b as nat);
        } else if da.len() < db.len() {
            let i = l + da.len();
            assert(sa[i] == ';');
            assert(sb[i] == db[da.len() as int]);
        } else {
            let i = l + db.len();
            assert(sb[i] == ';');
            assert(sa[i] == da[db.len() as int]);
        }
    }
}

/// Leading whitespace goes, the rest stays.
proof fn lemma_trim_start_ws_prefix(w: Seq<char>, c: Seq<char>)
    requires
        forall|i: int| 0 <= i < w.len() ==> is_ws(#[trigger] w[i]),
        c.len() > 0,
        !is_ws(c[0]),
    ensures
        trim_start_spec(w + c) == c,
    decreases w.len(),
{
    if w.len() > 0 {
        let w2 = w.drop_first();
        assert forall|i: int| 0 <= i < w2.len() implies is_ws(#[trigger] w2[i]) by {
            assert(w2[i] == w[i + 1]);
        }
        assert((w + c).drop_first() =~= w2 + c);
        lemma_trim_start_ws_prefix(w2, c);
    } else {
        assert(w + c =~= c);
    }
}

/// Trailing whitespace goes, the rest stays.
proof fn lemma_trim_end_ws_suffix(c: Seq<char>, w: Seq<char>)
    requires
        forall|i: int| 0 <= i < w.len() ==> is_ws(#[trigger] w[i]),
        c.len() > 0,
        !is_ws(c.last()),
    ensures
        trim_end_spec(c + w) == c,
    decreases w.len(),
{
    if w.len() > 0 {
        let w2 = w.drop_last();
        assert forall|i: int| 0 <= i < w2.len() implies is_ws(#[trigger] w2[i]) by {
            assert(w2[i] == w[i]);
        }
        assert((c + w).last() == w.last());
        assert((c + w).drop_last() =~= c + w2);
        lemma_trim_end_ws_suffix(c, w2);
    } else {
        assert(c + w =~= c);
    }
}

/// Text framed by whitespace trims to what the whitespace frames.
proof fn lemma_trim_framed(w1: Seq<char>, c: Seq<char>, w2: Seq<char>)
    requires
        forall|i: int| 0 <= i < w1.len() ==> is_ws(#[trigger] w1[i]),
        forall|i: int| 0 <= i < w2.len() ==> is_ws(#[trigger] w2[i]),
        c.len() > 0,
        !is_ws(c[0]),
        !is_ws(c.last()),
    ensures
        trim_spec(w1 + c + w2) == c,
{
    let cw = c + w2;
    assert(cw[0] == c[0]);
    lemma_trim_start_ws_prefix(w1, cw);
    assert(w1 + c + w2 =~= w1 + cw);
    lemma_trim_end_ws_suffix(c, w2);
}

/// A tab's script, trimmed, is one function expression that is called at
/// once: it begins with `(function() {` and ends with `})();`.
pub proof fn law_init_script_is_one_call(tab_id: u32)
    ensures
        "(function() {"@.is_prefix_of(trim_spec(init_script(tab_id))),
        "})();"@.is_suffix_of(trim_spec(init_script(tab_id))),
{
    reveal_strlit("\n        (function() {\n            ");
    reveal_strlit("        })();\n        ");
    reveal_strlit("(function() {");
    reveal_strlit("})();");
    reveal_strlit(";");
    let open = TAB_INIT_OPEN@;
    let close = TAB_INIT_CLOSE@;
    let w1 = open.subrange(0, 9);
    let w2 = close.subrange(close.len() - 9, close.len() as int);
    let mid = init_script_head().skip(9) + decimal(tab_id as nat) + ";"@ + init_script_body(tab_id)
        + close.subrange(0, close.len() - 9);
    let s = init_script(tab_id);
    assert(s =~= w1 + mid + w2);
    assert forall|i: int| 0 <= i < w1.len() implies is_ws(#[trigger] w1[i]) by {}
    assert forall|i: int| 0 <= i < w2.len() implies is_ws(#[trigger] w2[i]) by {}
    assert(mid[0] == '(');
    assert(mid.last() == ';');
    lemma_trim_framed(w1, mid, w2);
    assert forall|i: int| 0 <= i < 13 implies #[trigger] mid[i] == "(function() {"@[i] by {
        assert(mid[i] == open[9 + i]);
    }
    let m = mid.len() as int;
    assert forall|i: int| 0 <= i < 5 implies #[trigger] mid[m - 5 + i] == "})();"@[i] by {
        assert(mid[m - 5 + i] == close[8 + i]);
    }
    assert(mid.subrange(0, 13) =~= "(function() {"@);
    assert(mid.subrange(m - 5, m) =~= "})();"@);
}


// ---------------------------------------------------------------------------
// What the main operations are for
// ---------------------------------------------------------------------------

/// Closing the active tab, with other tabs open, closes it where it stands
/// and makes the tab before it active, or the new first tab where it was
/// the first; no new tab is opened.
pub proof fn law_close_active_activates_previous(
    v1: BrowserView,
    v2: BrowserView,
    idx: int,
    outcome: CloseOutcome,
)
    requires
        view_wf(v1),
        v1.tabs.len() > 1,
        0 <= idx < v1.tabs.len(),
        v1.active == Some(v1.tabs[idx].id),
        tab_closed(v1, v2, None, outcome),
    ensures
        outcome == (CloseOutcome::Closed { index: idx as usize, reopen: false }),
        v2.tabs == v1.tabs.remove(idx),
        v2.active == Some(
            if idx > 0 {
                v1.tabs[idx - 1].id
            } else {
                v1.tabs[1].id
            },
        ),
        v2.next_id == v1.next_id,
{
    let id = v1.tabs[idx].id;
    assert(tab_at(v1.tabs, id, idx));
    let k = choose|k: int|
        #![trigger v1.tabs.remove(k)]
        tab_at(v1.tabs, id, k) && outcome == (CloseOutcome::Closed {
            index: k as usize,
            reopen: v1.tabs.len() <= 1,
        }) && v2 == (BrowserView { tabs: v1.tabs.remove(k), active: active_after_close(v1, id, k), ..v1 });
    assert(k == idx);
    let rest = v1.tabs.remove(idx);
    if idx > 0 {
        assert(rest[idx - 1] == v1.tabs[idx - 1]);
    } else {
        assert(rest[0] == v1.tabs[1]);
    }
}

/// Address-bar input that holds a space and is not already a browser or
/// web URL is searched for: the search URL with `{}` replaced by the
/// percent-encoded input.  It is never taken for a host name.
pub proof fn law_spaced_input_is_searched(raw: Seq<char>, search_engine_url: Seq<char>)
    requires
        trim_spec(raw).contains(' '),
        !"zenith://"@.is_prefix_of(trim_spec(raw)),
        !http_like(trim_spec(raw)),
    ensures
        normalized_url(raw, search_engine_url) == replace_spec(
            search_engine_url,
            "{}"@,
            percent_encode_spec(trim_spec(raw)),
        ),
{
    assert(trim_spec(raw).len() > 0);
}

/// A web URL whose host begins with `auth.` or `login.` and whose path or
/// query names a sign-in step (`login`, `signin`, `oauth`, `authorize`,
/// `consent`, `sso`, `2fa`, `mfa`, ...) opens in a sign-in window.
pub proof fn law_auth_subdomain_sign_in_opens_window(u: UrlParts, prefix: Seq<char>, marker: Seq<char>)
    requires
        lower_spec(u.scheme) == "http"@ || lower_spec(u.scheme) == "https"@,
        prefix == "auth."@ || prefix == "login."@,
        prefix.is_prefix_of(lower_host(u)),
        marker == "oauth"@ || marker == "authorize"@ || marker == "signin"@ || marker == "login"@
            || marker == "consent"@ || marker == "accountchooser"@ || marker == "servicelogin"@
            || marker == "sso"@ || marker == "2fa"@ || marker == "mfa"@ || marker == "challenge"@
            || marker == "checkpoint"@,
        contains_spec(lower_spec(u.path), marker) || contains_spec(
            lower_spec(or_empty(u.query)),
            marker,
        ),
    ensures
        auth_window(Some(u)),
{
    reveal_strlit("auth.");
    reveal_strlit("login.");
    reveal_strlit("accounts.google.com");
    reveal_strlit("?");
    let host = lower_host(u);
    assert(host.len() >= 5);
    assert(host != "accounts.google.com"@) by {
        assert(prefix[1] == 'u' || prefix[1] == 'o');
        assert(host.subrange(0, prefix.len() as int)[1] == host[1]);
        assert("accounts.google.com"@[1] == 'c');
    }
    let p = lower_spec(u.path);
    let q = lower_spec(or_empty(u.query));
    let c = path_and_query(u);
    assert(c =~= p + "?"@ + q);
    if contains_spec(p, marker) {
        let k = choose|k: int| occurs_at(p, marker, k);
        assert(c.subrange(k, k + marker.len()) =~= p.subrange(k, k + marker.len()));
        assert(occurs_at(c, marker, k));
    } else {
        let k = choose|k: int| occurs_at(q, marker, k);
        let o = p.len() + 1 + k;
        assert(c.subrange(o, o + marker.len()) =~= q.subrange(k, k + marker.len()));
        assert(occurs_at(c, marker, o));
    }
    assert(contains_spec(c, marker));
    assert(auth_markers(u));
}

/// An open tab whose lower-case title or address contains the lower-case
/// query anywhere is suggested, right after the earlier suggestions, while they
/// are fewer than the limit and none of them carries its title.
pub proof fn law_tab_with_matching_title_is_suggested(
    acc: Seq<SuggestionView>,
    tab: SuggestionView,
    rest: Seq<SuggestionView>,
    q: Seq<char>,
    at: int,
)
    requires
        acc.len() < SUGGESTION_LIMIT,
        occurs_at(crate::text::unicode_lower(tab.title), q, at) || occurs_at(
            lowered_url(tab.url),
            q,
            at,
        ),
        forall|j: int| 0 <= j < acc.len() ==> acc[j].title != tab.title,
    ensures
        with_tabs(acc, seq![tab] + rest, q).len() > acc.len(),
        with_tabs(acc, seq![tab] + rest, q)[acc.len() as int] == tab,
{
    let tabs = seq![tab] + rest;
    assert(tabs[0] == tab);
    assert(tabs.drop_first() =~= rest);
    assert(contains_spec(crate::text::unicode_lower(tab.title), q) || contains_spec(
        lowered_url(tab.url),
        q,
    ));
    assert(!has_title(acc, tab.title));
    let next = acc.push(tab);
    assert(tab_step(acc, tab, q) == next);
    law_tab_merge_keeps_results(next, rest, q);
    let r = with_tabs(acc, tabs, q);
    assert(r == with_tabs(next, rest, q));
    assert(next[acc.len() as int] == tab);
    assert(r.subrange(0, next.len() as int) == next);
    assert(r[acc.len() as int] == r.subrange(0, next.len() as int)[acc.len() as int]);
}

/// A tab titled with the fallback title of its old address, with the
/// placeholder `Zenith` or with a blank title is titled with the fallback
/// title of its new address once the address changes.
pub proof fn law_url_change_renews_fallback_title(title: Seq<char>, old_url: Seq<char>, new_url: Seq<char>)
    requires
        title == fallback_title(old_url, crate::url_parts::url_parse(old_url)) || title == "Zenith"@
            || trim_spec(title).len() == 0,
    ensures
        title_after_url_change(title, old_url, new_url) == fallback_title(
            new_url,
            crate::url_parts::url_parse(new_url),
        ),
{
}

/// A tab keeps a title of its own, one that is not blank, not the
/// placeholder `Zenith` and not the fallback title of its old address,
/// when the address changes.
pub proof fn law_url_change_keeps_own_title(title: Seq<char>, old_url: Seq<char>, new_url: Seq<char>)
    requires
        trim_spec(title).len() > 0,
        title != "Zenith"@,
        title != fallback_title(old_url, crate::url_parts::url_parse(old_url)),
    ensures
        title_after_url_change(title, old_url, new_url) == title,
{
}


/// Closing a tab that is not the active one removes it where it stands and
/// leaves the active tab as it was; a fresh tab is asked for only where it
/// was the last one.
pub proof fn law_close_inactive_keeps_active(
    v1: BrowserView,
    v2: BrowserView,
    idx: int,
    outcome: CloseOutcome,
)
    requires
        view_wf(v1),
        0 <= idx < v1.tabs.len(),
        v1.active != Some(v1.tabs[idx].id),
        tab_closed(v1, v2, Some(v1.tabs[idx].id), outcome),
    ensures
        outcome == (CloseOutcome::Closed { index: idx as usize, reopen: v1.tabs.len() == 1 }),
        v2.tabs == v1.tabs.remove(idx),
        v2.active == v1.active,
        v2.next_id == v1.next_id,
{
    let id = v1.tabs[idx].id;
    assert(tab_at(v1.tabs, id, idx));
    let k = choose|k: int|
        #![trigger v1.tabs.remove(k)]
        tab_at(v1.tabs, id, k) && outcome == (CloseOutcome::Closed {
            index: k as usize,
            reopen: v1.tabs.len() <= 1,
        }) && v2 == (BrowserView { tabs: v1.tabs.remove(k), active: active_after_close(v1, id, k), ..v1 });
    assert(k == idx);
}

/// Address-bar input that names a host (it holds a dot and no space, or
/// begins with `localhost`) and is not already a browser or web URL is
/// opened over `https`.
pub proof fn law_host_input_gets_https(raw: Seq<char>, search_engine_url: Seq<char>)
    requires
        trim_spec(raw).contains('.') || "localhost"@.is_prefix_of(trim_spec(raw)),
        !trim_spec(raw).contains(' '),
        !"zenith://"@.is_prefix_of(trim_spec(raw)),
        !http_like(trim_spec(raw)),
    ensures
        normalized_url(raw, search_engine_url) == "https://"@ + trim_spec(raw),
{
    reveal_strlit("localhost");
    assert(trim_spec(raw).len() > 0);
}

/// Blank address-bar input opens the home page.
pub proof fn law_blank_input_opens_home(raw: Seq<char>, search_engine_url: Seq<char>)
    requires
        trim_spec(raw).len() == 0,
    ensures
        normalized_url(raw, search_engine_url) == HOME_URL@,
{
}

} // verus!
