//! The browser's tab bookkeeping: which tabs are open, which one is
//! active, what each shows, and the settings that shape navigation.

use vstd::prelude::*;
use crate::config::SessionTab;
use crate::ipc::{ChromeTabState, Suggestion};
use crate::text::{
    lower_spec, owned, str_eq, to_lowercase, trim, trim_spec, unicode_lower,
};
use crate::url_parts::{parse_url, url_parse};
use crate::urls::{
    fallback_title, fallback_title_with, is_assets_url, normalize_user_input_url,
    normalized_url, resolved_tab_title_with, resolved_title, should_track_recent_site_with,
    should_warmup_youtube_account_sync_with, track_recent, youtube_home, assets_url, HOME_URL,
};

verus! {

broadcast use vstd::string::group_string_axioms;

/// The page that refreshes Google's account cookies in the background.
pub const ACCOUNT_SYNC_URL: &'static str = "https://accounts.google.com/RotateCookiesPage";

/// The search URL used until the user picks an engine.
pub const DEFAULT_SEARCH_URL: &'static str = "https://www.google.com/search?q={}";

/// One open tab.
pub struct BrowserTab {
    pub id: u32,
    pub url: String,
    pub title: String,
    pub active_permissions: Vec<String>,
    pub is_incognito: bool,
}

/// The text of each string in `v`.
pub open spec fn strings_view(v: Seq<String>) -> Seq<Seq<char>> {
    v.map_values(|s: String| s@)
}

/// The abstract state of the browser.
pub ghost struct BrowserView {
    pub tabs: Seq<BrowserTab>,
    pub active: Option<u32>,
    pub next_id: u32,
    pub chrome_ready: bool,
    pub theme: Seq<char>,
    pub search_url: Seq<char>,
}

/// The position of the tab `id` in `tabs`.
pub open spec fn tab_at(tabs: Seq<BrowserTab>, id: u32, i: int) -> bool {
    0 <= i < tabs.len() && tabs[i].id == id
}

/// Some tab in `tabs` has the id `id`.
pub open spec fn has_tab(tabs: Seq<BrowserTab>, id: u32) -> bool {
    exists|i: int| tab_at(tabs, id, i)
}

/// No two tabs share an id.
pub open spec fn unique_ids(tabs: Seq<BrowserTab>) -> bool {
    forall|i: int, j: int| 0 <= i < tabs.len() && 0 <= j < tabs.len() && i != j ==> tabs[i].id != tabs[j].id
}

/// The tab a command is about: the one named, else the active one.
pub open spec fn target_of(tab_id: Option<u32>, active: Option<u32>) -> Option<u32> {
    match tab_id {
        Some(t) => Some(t),
        None => active,
    }
}

/// The tab a command is about: the one named, else the active one.
pub fn target_tab(tab_id: Option<u32>, active: Option<u32>) -> (t: Option<u32>)
    ensures
        t == target_of(tab_id, active),
{
    match tab_id {
        Some(t) => Some(t),
        None => active,
    }
}

/// The tabs of the browser, with their ids, addresses and titles, the
/// active tab and the settings that shape navigation.
pub struct BrowserState {
    tabs: Vec<BrowserTab>,
    active_tab_id: Option<u32>,
    next_tab_id: u32,
    chrome_ready: bool,
    current_theme: String,
    current_search_url: String,
}

impl View for BrowserState {
    type V = BrowserView;

    closed spec fn view(&self) -> BrowserView {
        BrowserView {
            tabs: self.tabs@,
            active: self.active_tab_id,
            next_id: self.next_tab_id,
            chrome_ready: self.chrome_ready,
            theme: self.current_theme@,
            search_url: self.current_search_url@,
        }
    }
}

/// Where `close_tab` left things.
#[derive(Clone, Copy, Debug, PartialEq, Eq, Structural)]
pub enum CloseOutcome {
    /// No tab was named and none is active: nothing happened.
    NoTarget,
    /// The named tab is not open: nothing changed.
    Missing,
    /// The tab at `index` was closed; `reopen` is set when it was the last
    /// one, and a fresh tab is to be opened in its place.
    Closed { index: usize, reopen: bool },
}

/// What a navigation request leads to.
pub struct NavigationPlan {
    /// The address the tab is sent to.
    pub url: String,
    /// The address is YouTube's home page; the account sync is warmed up.
    pub warmup_account_sync: bool,
    /// The position of the tab that navigates, if it is open.
    pub loaded: Option<usize>,
}

/// What a tab's report of a new address leads to.
pub struct UrlChange {
    /// The position of the tab.
    pub index: usize,
    /// The new address is YouTube's home page.
    pub warmup_account_sync: bool,
    /// The visit goes into the history.
    pub track: bool,
}

/// Which setting a settings change touched.
#[derive(Clone, Copy, Debug, PartialEq, Eq, Structural)]
pub enum SettingChange {
    Theme,
    SearchEngine,
    Other,
}

/// The search URL for an engine name: DuckDuckGo, Bing, else Google.
pub open spec fn engine_url(name: Seq<char>) -> Seq<char> {
    if name == "duckduckgo"@ {
        "https://duckduckgo.com/?q={}"@
    } else if name == "bing"@ {
        "https://www.bing.com/search?q={}"@
    } else {
        DEFAULT_SEARCH_URL@
    }
}

/// The search URL for an engine name.
pub fn search_url_for_engine(name: &str) -> (u: String)
    ensures
        u@ == engine_url(name@),
{
    if str_eq(name, "duckduckgo") {
        owned("https://duckduckgo.com/?q={}")
    } else if str_eq(name, "bing") {
        owned("https://www.bing.com/search?q={}")
    } else {
        owned(DEFAULT_SEARCH_URL)
    }
}

/// The theme the theme toggle switches to.
pub open spec fn toggled_theme(current: Seq<char>) -> Seq<char> {
    if current == "light"@ {
        "dark"@
    } else {
        "light"@
    }
}

/// The theme the menu's theme toggle switches to: dark from light, light
/// from anything else.
pub fn toggle_theme(current: &str) -> (t: String)
    ensures
        t@ == toggled_theme(current@),
{
    if str_eq(current, "light") {
        owned("dark")
    } else {
        owned("light")
    }
}

/// Whether the menu's Light Mode check is on for the theme `current`: only
/// for the light theme.
pub fn is_light_theme(current: &str) -> (b: bool)
    ensures
        b == (current@ == "light"@),
{
    str_eq(current, "light")
}

/// The title a tab keeps when its address changes: a blank title, the
/// placeholder `Zenith` or the fallback title of the old address gives way
/// to the fallback title of the new address.
pub open spec fn title_after_url_change(title: Seq<char>, old_url: Seq<char>, new_url: Seq<char>) -> Seq<char> {
    if trim_spec(title).len() == 0 || title == "Zenith"@ || title == fallback_title(
        old_url,
        url_parse(old_url),
    ) {
        fallback_title(new_url, url_parse(new_url))
    } else {
        title
    }
}

/// The permissions of a tab after a grant or a revocation of `p`.
pub open spec fn permissions_after(perms: Seq<Seq<char>>, p: Seq<char>, granted: bool) -> Seq<Seq<char>> {
    if granted {
        if perms.contains(p) {
            perms
        } else {
            perms.push(p)
        }
    } else {
        perms.filter(other_than(p))
    }
}

/// The predicate that holds of every text but `p`.
pub open spec fn other_than(p: Seq<char>) -> spec_fn(Seq<char>) -> bool {
    |q: Seq<char>| q != p
}

/// A copy of a list of strings.
pub fn copy_strings(v: &Vec<String>) -> (c: Vec<String>)
    ensures
        strings_view(c@) == strings_view(v@),
{
    let mut c: Vec<String> = Vec::new();
    let mut i: usize = 0;
    while i < v.len()
        invariant
            i <= v@.len(),
            strings_view(c@) == strings_view(v@.take(i as int)),
        decreases v.len() - i,
    {
        c.push(v[i].clone());
        assert(strings_view(v@.take(i + 1)) =~= strings_view(v@.take(i as int)).push(v@[i as int]@));
        i += 1;
    }
    assert(v@.take(v@.len() as int) =~= v@);
    c
}

/// `perms` holds a string with the text `p`.
pub fn holds_string(perms: &Vec<String>, p: &str) -> (b: bool)
    ensures
        b == strings_view(perms@).contains(p@),
{
    let mut i: usize = 0;
    while i < perms.len()
        invariant
            i <= perms@.len(),
            forall|k: int| 0 <= k < i ==> perms@[k]@ != p@,
        decreases perms.len() - i,
    {
        if str_eq(perms[i].as_str(), p) {
            assert(strings_view(perms@)[i as int] == p@);
            return true;
        }
        i += 1;
    }
    assert forall|k: int| 0 <= k < strings_view(perms@).len() implies strings_view(perms@)[k] != p@ by {
        assert(strings_view(perms@)[k] == perms@[k]@);
    }
    false
}

/// The permission list after granting (`p` added unless present) or
/// revoking (every copy of `p` removed).
pub fn update_permissions(perms: Vec<String>, p: String, granted: bool) -> (r: Vec<String>)
    ensures
        strings_view(r@) == permissions_after(strings_view(perms@), p@, granted),
{
    if granted {
        if holds_string(&perms, p.as_str()) {
            perms
        } else {
            let mut r = perms;
            r.push(p);
            assert(strings_view(r@) =~= strings_view(perms@).push(p@));
            r
        }
    } else {
        let ghost pred = other_than(p@);
        let mut r: Vec<String> = Vec::new();
        let mut i: usize = 0;
        while i < perms.len()
            invariant
                i <= perms@.len(),
                pred == other_than(p@),
                strings_view(r@) == strings_view(perms@.take(i as int)).filter(pred),
            decreases perms.len() - i,
        {
            let ghost before = strings_view(perms@.take(i as int));
            assert(strings_view(perms@.take(i + 1)) =~= before.push(perms@[i as int]@));
            proof {
                before.lemma_filter_push(perms@[i as int]@, pred);
            }
            if !str_eq(perms[i].as_str(), p.as_str()) {
                let ghost rv = strings_view(r@);
                r.push(perms[i].clone());
                assert(strings_view(r@) =~= rv.push(perms@[i as int]@));
            }
            i += 1;
        }
        assert(perms@.take(perms@.len() as int) =~= perms@);
        r
    }
}

/// `new` is `old` with a tab for `url` appended at `index` under the next
/// id, titled `Zenith`, with no permissions; it is active when asked for
/// or when no tab was active, and the next id moves on by one.
pub open spec fn tab_added(
    old: BrowserView,
    new: BrowserView,
    index: usize,
    url: String,
    activate: bool,
    is_incognito: bool,
) -> bool {
    &&& index == old.tabs.len()
    &&& new.tabs.len() == old.tabs.len() + 1
    &&& new.tabs.subrange(0, index as int) == old.tabs
    &&& forall|i: int| 0 <= i < index ==> #[trigger] new.tabs[i] == old.tabs[i]
    &&& new.tabs[index as int].id == old.next_id
    &&& new.tabs[index as int].url == url
    &&& new.tabs[index as int].title@ == "Zenith"@
    &&& new.tabs[index as int].active_permissions@.len() == 0
    &&& new.tabs[index as int].is_incognito == is_incognito
    &&& new.active == if activate || old.active.is_none() {
        Some(old.next_id)
    } else {
        old.active
    }
    &&& new.next_id == old.next_id + 1
    &&& new.chrome_ready == old.chrome_ready
    &&& new.theme == old.theme
    &&& new.search_url == old.search_url
}

/// The active tab after the tab at `idx`, whose id is `id`, is removed from
/// `old`.
pub open spec fn active_after_close(old: BrowserView, id: u32, idx: int) -> Option<u32> {
    if old.tabs.len() > 1 && old.active == Some(id) {
        Some(old.tabs.remove(idx)[if idx > 0 { idx - 1 } else { 0 }].id)
    } else {
        old.active
    }
}

/// `new` and `outcome` are what closing the named tab (else the active one)
/// makes of `old`.
pub open spec fn tab_closed(old: BrowserView, new: BrowserView, tab_id: Option<u32>, outcome: CloseOutcome) -> bool {
    match target_of(tab_id, old.active) {
        None => outcome == CloseOutcome::NoTarget && new == old,
        Some(id) => if has_tab(old.tabs, id) {
            exists|idx: int|
                #![trigger old.tabs.remove(idx)]
                tab_at(old.tabs, id, idx) && outcome == (CloseOutcome::Closed {
                    index: idx as usize,
                    reopen: old.tabs.len() <= 1,
                }) && new == (BrowserView {
                    tabs: old.tabs.remove(idx),
                    active: active_after_close(old, id, idx),
                    ..old
                })
        } else {
            outcome == CloseOutcome::Missing && new == old
        },
    }
}

/// Tab ids are unique, and they and the active id are below the next id.
pub open spec fn view_wf(v: BrowserView) -> bool {
    &&& unique_ids(v.tabs)
    &&& forall|i: int| 0 <= i < v.tabs.len() ==> v.tabs[i].id < v.next_id
    &&& match v.active {
        Some(a) => a < v.next_id,
        None => true,
    }
}

/// The position of the last row marked active.
pub open spec fn last_active_row(rows: Seq<SessionTab>) -> Option<int>
    decreases rows.len(),
{
    if rows.len() == 0 {
        None
    } else if rows.last().is_active {
        Some(rows.len() - 1)
    } else {
        last_active_row(rows.drop_last())
    }
}

/// The tab to activate once `rows` are open under the ids from `first` on:
/// the last row marked active, else the last row.
pub open spec fn restored_active(rows: Seq<SessionTab>, first: u32) -> Option<u32> {
    match last_active_row(rows) {
        Some(k) => Some((first + k) as u32),
        None => if rows.len() > 0 {
            Some((first + rows.len() - 1) as u32)
        } else {
            None
        },
    }
}

/// `new` is `old` with one tab per session row appended in order, under
/// consecutive ids, at the row's address as a new tab would open it.
pub open spec fn tabs_restored(old: BrowserView, new: BrowserView, rows: Seq<SessionTab>) -> bool {
    &&& new.tabs.len() == old.tabs.len() + rows.len()
    &&& forall|i: int| 0 <= i < old.tabs.len() ==> #[trigger] new.tabs[i] == old.tabs[i]
    &&& forall|k: int|
        0 <= k < rows.len() ==> {
            let t = #[trigger] new.tabs[old.tabs.len() + k];
            &&& t.id == old.next_id + k
            &&& t.url@ == normalized_url(rows[k].url@, old.search_url)
            &&& t.title@ == "Zenith"@
            &&& t.active_permissions@.len() == 0
            &&& !t.is_incognito
        }
    &&& new.active == if old.active.is_none() && rows.len() > 0 {
        Some(old.next_id)
    } else {
        old.active
    }
    &&& new.next_id == old.next_id + rows.len()
    &&& new.chrome_ready == old.chrome_ready
    &&& new.theme == old.theme
    &&& new.search_url == old.search_url
}

/// `e` is the session row of the tab `t` at position `k`.
pub open spec fn session_entry(e: SessionTab, t: BrowserTab, active: Option<u32>, k: int) -> bool {
    &&& e.url@ == t.url@
    &&& e.title@ == t.title@
    &&& e.is_active == (active == Some(t.id))
    &&& e.position == k as i32
}

fn session_row(t: &BrowserTab, active: Option<u32>, k: usize) -> (e: SessionTab)
    ensures
        session_entry(e, *t, active, k as int),
{
    SessionTab {
        url: t.url.clone(),
        title: t.title.clone(),
        is_active: active == Some(t.id),
        position: k as i32,
    }
}

/// `e` is the suggestion that stands for the open tab `t`.
pub open spec fn tab_suggestion_entry(e: Suggestion, t: BrowserTab) -> bool {
    &&& e.title@ == t.title@
    &&& crate::url_parts::opt_str_view(e.url) == Some(t.url@)
    &&& e.suggestion_type@ == "tab"@
    &&& e.tab_id == Some(t.id)
}

fn tab_suggestion(t: &BrowserTab) -> (e: Suggestion)
    ensures
        tab_suggestion_entry(e, *t),
{
    Suggestion {
        title: t.title.clone(),
        url: Some(t.url.clone()),
        suggestion_type: owned("tab"),
        tab_id: Some(t.id),
    }
}

/// `e` is the tab-strip entry of the tab `t`, not yet marked bookmarked.
pub open spec fn chrome_tab_entry(e: ChromeTabState, t: BrowserTab) -> bool {
    &&& e.id == t.id
    &&& e.title@ == t.title@
    &&& e.url@ == t.url@
    &&& !e.is_bookmarked
    &&& strings_view(e.active_permissions@) == strings_view(t.active_permissions@)
}

fn chrome_tab(t: &BrowserTab) -> (e: ChromeTabState)
    ensures
        chrome_tab_entry(e, *t),
{
    ChromeTabState {
        id: t.id,
        title: t.title.clone(),
        url: t.url.clone(),
        is_bookmarked: false,
        active_permissions: copy_strings(&t.active_permissions),
    }
}

impl BrowserState {
    /// The state is consistent: tab ids are unique and below the next id.
    pub closed spec fn wf(&self) -> bool {
        view_wf(self@)
    }

    /// A consistent state has unique tab ids, all below the next id.
    pub proof fn lemma_wf(&self)
        requires
            self.wf(),
        ensures
            view_wf(self@),
    {
    }

    /// No tabs, none active, ids starting at 1, dark theme, Google search.
    pub fn new() -> (s: Self)
        ensures
            s.wf(),
            s@.tabs.len() == 0,
            s@.active.is_none(),
            s@.next_id == 1,
            !s@.chrome_ready,
            s@.theme == "dark"@,
            s@.search_url == DEFAULT_SEARCH_URL@,
    {
        BrowserState {
            tabs: Vec::new(),
            active_tab_id: None,
            next_tab_id: 1,
            chrome_ready: false,
            current_theme: owned("dark"),
            current_search_url: owned(DEFAULT_SEARCH_URL),
        }
    }

    /// The open tabs, in tab-strip order.
    pub fn tabs(&self) -> (t: &Vec<BrowserTab>)
        ensures
            t@ == self@.tabs,
    {
        &self.tabs
    }

    /// The active tab's id.
    pub fn active_tab_id(&self) -> (a: Option<u32>)
        ensures
            a == self@.active,
    {
        self.active_tab_id
    }

    /// The id the next tab gets.
    pub fn next_tab_id(&self) -> (n: u32)
        ensures
            n == self@.next_id,
    {
        self.next_tab_id
    }

    /// Whether the chrome has reported that it is ready.
    pub fn chrome_ready(&self) -> (r: bool)
        ensures
            r == self@.chrome_ready,
    {
        self.chrome_ready
    }

    /// Records that the chrome is ready.
    pub fn set_chrome_ready(&mut self)
        requires
            old(self).wf(),
        ensures
            final(self).wf(),
            final(self)@ == (BrowserView { chrome_ready: true, ..old(self)@ }),
    {
        self.chrome_ready = true;
    }

    /// The current theme.
    pub fn current_theme(&self) -> (t: &str)
        ensures
            t@ == self@.theme,
    {
        self.current_theme.as_str()
    }

    /// The current search URL, with `{}` where the query goes.
    pub fn current_search_url(&self) -> (u: &str)
        ensures
            u@ == self@.search_url,
    {
        self.current_search_url.as_str()
    }

    /// The position of the tab `tab_id`.
    pub fn find_tab(&self, tab_id: u32) -> (r: Option<usize>)
        ensures
            match r {
                Some(i) => tab_at(self@.tabs, tab_id, i as int),
                None => !has_tab(self@.tabs, tab_id),
            },
    {
        let mut i: usize = 0;
        while i < self.tabs.len()
            invariant
                i <= self.tabs@.len(),
                forall|k: int| 0 <= k < i ==> self.tabs@[k].id != tab_id,
            decreases self.tabs.len() - i,
        {
            if self.tabs[i].id == tab_id {
                return Some(i);
            }
            i += 1;
        }
        None
    }

    /// The position of the tab a command is about: the one named, else
    /// the active one.
    pub fn resolve_target(&self, tab_id: Option<u32>) -> (r: Option<usize>)
        ensures
            match target_of(tab_id, self@.active) {
                Some(id) => match r {
                    Some(i) => tab_at(self@.tabs, id, i as int),
                    None => !has_tab(self@.tabs, id),
                },
                None => r.is_none(),
            },
    {
        match target_tab(tab_id, self.active_tab_id) {
            Some(id) => self.find_tab(id),
            None => None,
        }
    }

    /// The address a new tab opens: the given one (the home page where
    /// there is none), normalised as address-bar input.
    pub fn start_url(&self, url: Option<&str>) -> (u: String)
        ensures
            u@ == normalized_url(
                match url {
                    Some(s) => s@,
                    None => HOME_URL@,
                },
                self@.search_url,
            ),
    {
        let raw = match url {
            Some(s) => s,
            None => HOME_URL,
        };
        normalize_user_input_url(raw, self.current_search_url.as_str())
    }

    /// Appends a tab showing `url` under the next id, titled `Zenith`; it
    /// becomes active when asked to or when no tab is active.  Returns its
    /// position.
    pub fn add_tab(&mut self, url: String, activate: bool, is_incognito: bool) -> (index: usize)
        requires
            old(self).wf(),
            old(self)@.next_id < u32::MAX,
        ensures
            final(self).wf(),
            tab_added(old(self)@, final(self)@, index, url, activate, is_incognito),
    {
        let id = self.next_tab_id;
        let index = self.tabs.len();
        self.tabs.push(
            BrowserTab {
                id,
                url,
                title: owned("Zenith"),
                active_permissions: Vec::new(),
                is_incognito,
            },
        );
        if activate || self.active_tab_id.is_none() {
            self.active_tab_id = Some(id);
        }
        self.next_tab_id = id + 1;
        assert(self.tabs@.subrange(0, index as int) =~= old(self).tabs@);
        index
    }

    /// Opens one tab per saved session row, in order, as new background
    /// tabs at the rows' addresses, and returns the tab to activate: the
    /// last row marked active, else the last row (`None` for no rows).
    pub fn restore_session(&mut self, rows: &Vec<SessionTab>) -> (to_activate: Option<u32>)
        requires
            old(self).wf(),
            old(self)@.next_id + rows@.len() <= u32::MAX,
        ensures
            final(self).wf(),
            tabs_restored(old(self)@, final(self)@, rows@),
            to_activate == restored_active(rows@, old(self)@.next_id),
    {
        let ghost v0 = self@;
        let first = self.next_tab_id;
        let mut chosen: Option<u32> = None;
        let mut i: usize = 0;
        while i < rows.len()
            invariant
                i <= rows@.len(),
                v0.next_id + rows@.len() <= u32::MAX,
                self.wf(),
                first == v0.next_id,
                tabs_restored(v0, self@, rows@.take(i as int)),
                chosen == match last_active_row(rows@.take(i as int)) {
                    Some(k) => Some((first + k) as u32),
                    None => None::<u32>,
                },
            decreases rows.len() - i,
        {
            let ghost before = self@;
            let url = self.start_url(Some(rows[i].url.as_str()));
            let id = self.next_tab_id;
            let index = self.add_tab(url, false, false);
            if rows[i].is_active {
                chosen = Some(id);
            }
            proof {
                let done = rows@.take(i as int);
                let next = rows@.take(i + 1);
                assert(next.drop_last() =~= done);
                assert(next.last() == rows@[i as int]);
                assert(index == before.tabs.len());
                assert forall|k: int| 0 <= k < next.len() implies {
                    let t = #[trigger] self@.tabs[v0.tabs.len() + k];
                    &&& t.id == v0.next_id + k
                    &&& t.url@ == normalized_url(next[k].url@, v0.search_url)
                    &&& t.title@ == "Zenith"@
                    &&& t.active_permissions@.len() == 0
                    &&& !t.is_incognito
                } by {
                    if k < i {
                        assert(self@.tabs[v0.tabs.len() + k] == before.tabs[v0.tabs.len() + k]);
                        assert(next[k] == done[k]);
                    } else {
                        assert(next[k] == rows@[i as int]);
                    }
                }
                assert forall|j: int| 0 <= j < v0.tabs.len() implies #[trigger] self@.tabs[j]
                    == v0.tabs[j] by {
                    assert(self@.tabs[j] == before.tabs[j]);
                }
            }
            i += 1;
        }
        proof {
            assert(rows@.take(rows@.len() as int) =~= rows@);
        }
        match chosen {
            Some(id) => Some(id),
            None => if rows.len() > 0 {
                Some(self.next_tab_id - 1)
            } else {
                None
            },
        }
    }

    /// Makes the tab `tab_id` active if it is open; reports whether it is.
    pub fn switch_tab(&mut self, tab_id: u32) -> (switched: bool)
        requires
            old(self).wf(),
        ensures
            final(self).wf(),
            switched == has_tab(old(self)@.tabs, tab_id),
            final(self)@ == if switched {
                BrowserView { active: Some(tab_id), ..old(self)@ }
            } else {
                old(self)@
            },
    {
        match self.find_tab(tab_id) {
            Some(_) => {
                self.active_tab_id = Some(tab_id);
                true
            },
            None => false,
        }
    }

    /// Closes the named tab, else the active one.  When the active tab
    /// closes, the tab before it (or the new first tab) becomes active;
    /// when the last tab closes, the caller opens a fresh one.
    pub fn close_tab(&mut self, tab_id: Option<u32>) -> (outcome: CloseOutcome)
        requires
            old(self).wf(),
        ensures
            final(self).wf(),
            tab_closed(old(self)@, final(self)@, tab_id, outcome),
    {
        let close_id = match target_tab(tab_id, self.active_tab_id) {
            Some(id) => id,
            None => {
                return CloseOutcome::NoTarget;
            },
        };
        match self.find_tab(close_id) {
            None => CloseOutcome::Missing,
            Some(idx) => {
                let is_last = self.tabs.len() <= 1;
                let ghost old_tabs = self.tabs@;
                self.tabs.remove(idx);
                assert(self.tabs@ == old_tabs.remove(idx as int));
                assert forall|i: int, j: int|
                    0 <= i < self.tabs@.len() && 0 <= j < self.tabs@.len() && i != j implies self.tabs@[i].id
                    != self.tabs@[j].id by {
                    let oi = if i < idx { i } else { i + 1 };
                    let oj = if j < idx { j } else { j + 1 };
                    assert(self.tabs@[i] == old_tabs[oi]);
                    assert(self.tabs@[j] == old_tabs[oj]);
                }
                assert forall|i: int| 0 <= i < self.tabs@.len() implies self.tabs@[i].id < self.next_tab_id by {
                    let oi = if i < idx { i } else { i + 1 };
                    assert(self.tabs@[i] == old_tabs[oi]);
                }
                if !is_last && self.active_tab_id == Some(close_id) {
                    let next_idx = if idx > 0 { idx - 1 } else { 0 };
                    self.active_tab_id = Some(self.tabs[next_idx].id);
                }
                CloseOutcome::Closed { index: idx, reopen: is_last }
            },
        }
    }

    /// Sends the named tab, else the active one, to what `url` normalises
    /// to.  Browser URLs other than the asset pages are refused (`None`);
    /// so is a request with no tab to act on.  An open target tab takes the
    /// new address and its fallback title.
    pub fn navigate_tab(&mut self, tab_id: Option<u32>, url: &str) -> (plan: Option<NavigationPlan>)
        requires
            old(self).wf(),
        ensures
            final(self).wf(),
            ({
                let next = normalized_url(url@, old(self)@.search_url);
                let refused = "zenith://"@.is_prefix_of(next) && !assets_url(next);
                match target_of(tab_id, old(self)@.active) {
                    None => plan.is_none() && final(self)@ == old(self)@,
                    Some(id) => if refused {
                        plan.is_none() && final(self)@ == old(self)@
                    } else {
                        match plan {
                            None => false,
                            Some(p) => {
                                &&& p.url@ == next
                                &&& p.warmup_account_sync == youtube_home(url_parse(next))
                                &&& match p.loaded {
                                    None => !has_tab(old(self)@.tabs, id) && final(self)@
                                        == old(self)@,
                                    Some(i) => {
                                        &&& tab_at(old(self)@.tabs, id, i as int)
                                        &&& final(self)@.tabs.len() == old(self)@.tabs.len()
                                        &&& (forall|k: int|
                                            0 <= k < old(self)@.tabs.len() && k != i
                                                ==> final(self)@.tabs[k] == old(self)@.tabs[k])
                                        &&& final(self)@.tabs[i as int].id == id
                                        &&& final(self)@.tabs[i as int].url@ == next
                                        &&& final(self)@.tabs[i as int].title@ == fallback_title(
                                            next,
                                            url_parse(next),
                                        )
                                        &&& final(self)@.tabs[i as int].active_permissions
                                            == old(self)@.tabs[i as int].active_permissions
                                        &&& final(self)@.tabs[i as int].is_incognito
                                            == old(self)@.tabs[i as int].is_incognito
                                        &&& final(self)@.active == old(self)@.active
                                        &&& final(self)@.next_id == old(self)@.next_id
                                        &&& final(self)@.chrome_ready == old(self)@.chrome_ready
                                        &&& final(self)@.theme == old(self)@.theme
                                        &&& final(self)@.search_url == old(self)@.search_url
                                    },
                                }
                            },
                        }
                    },
                }
            }),
    {
        let target = match target_tab(tab_id, self.active_tab_id) {
            Some(id) => id,
            None => {
                return None;
            },
        };
        let next_url = normalize_user_input_url(url, self.current_search_url.as_str());
        if crate::text::starts_with(next_url.as_str(), "zenith://") && !is_assets_url(next_url.as_str()) {
            return None;
        }
        let parsed = parse_url(next_url.as_str());
        let warmup = should_warmup_youtube_account_sync_with(&parsed);
        match self.find_tab(target) {
            None => Some(NavigationPlan { url: next_url, warmup_account_sync: warmup, loaded: None }),
            Some(i) => {
                let title = fallback_title_with(next_url.as_str(), &parsed);
                let url_copy = next_url.clone();
                let ghost old_tabs = self.tabs@;
                let mut tab = self.tabs.remove(i);
                tab.url = url_copy;
                tab.title = title;
                self.tabs.insert(i, tab);
                assert forall|k: int| 0 <= k < old_tabs.len() implies self.tabs@[k].id == old_tabs[k].id by {
                    if k != i {
                        assert(self.tabs@[k] == old_tabs[k]);
                    }
                }
                assert(unique_ids(self.tabs@));
                Some(NavigationPlan { url: next_url, warmup_account_sync: warmup, loaded: Some(i) })
            },
        }
    }

    /// Puts `tab` back at position `i` after an update that kept its id.
    fn restore_tab(&mut self, i: usize, tab: BrowserTab, Ghost(old_tabs): Ghost<Seq<BrowserTab>>)
        requires
            i <= old(self).tabs@.len(),
            old_tabs.len() == old(self).tabs@.len() + 1,
            old_tabs.remove(i as int) == old(self).tabs@,
            match old(self).active_tab_id {
                Some(a) => a < old(self).next_tab_id,
                None => true,
            },
            tab.id == old_tabs[i as int].id,
            unique_ids(old_tabs),
            forall|k: int| 0 <= k < old_tabs.len() ==> old_tabs[k].id < old(self).next_tab_id,
        ensures
            final(self).tabs@ == old_tabs.update(i as int, tab),
            final(self).active_tab_id == old(self).active_tab_id,
            final(self).next_tab_id == old(self).next_tab_id,
            final(self).chrome_ready == old(self).chrome_ready,
            final(self).current_theme == old(self).current_theme,
            final(self).current_search_url == old(self).current_search_url,
            final(self).wf(),
    {
        self.tabs.insert(i, tab);
        assert(self.tabs@ =~= old_tabs.update(i as int, tab));
        assert forall|k: int| 0 <= k < old_tabs.len() implies self.tabs@[k].id == old_tabs[k].id by {
        }
    }

    /// Records that the tab `tab_id` now shows `url`.  A blank title, the
    /// placeholder `Zenith` or the fallback title of the old address gives
    /// way to the fallback title of the new one.  Reports the tab's position,
    /// whether the new address warms up the account sync and whether the
    /// visit goes into the history; `None` where the tab is not open.
    pub fn on_url_changed(&mut self, tab_id: u32, url: String) -> (change: Option<UrlChange>)
        requires
            old(self).wf(),
        ensures
            final(self).wf(),
            match change {
                None => !has_tab(old(self)@.tabs, tab_id) && final(self)@ == old(self)@,
                Some(c) => {
                    let i = c.index as int;
                    let t = old(self)@.tabs[i];
                    &&& tab_at(old(self)@.tabs, tab_id, i)
                    &&& final(self)@.tabs == old(self)@.tabs.update(
                        i,
                        BrowserTab {
                            url: url,
                            title: final(self)@.tabs[i].title,
                            ..t
                        },
                    )
                    &&& final(self)@.tabs[i].title@ == title_after_url_change(t.title@, t.url@, url@)
                    &&& c.warmup_account_sync == youtube_home(url_parse(url@))
                    &&& c.track == track_recent(url@, url_parse(url@))
                    &&& final(self)@.active == old(self)@.active
                    &&& final(self)@.next_id == old(self)@.next_id
                    &&& final(self)@.chrome_ready == old(self)@.chrome_ready
                    &&& final(self)@.theme == old(self)@.theme
                    &&& final(self)@.search_url == old(self)@.search_url
                },
            },
    {
        let i = match self.find_tab(tab_id) {
            Some(i) => i,
            None => {
                return None;
            },
        };
        let ghost old_tabs = self.tabs@;
        let mut tab = self.tabs.remove(i);
        let old_parsed = parse_url(tab.url.as_str());
        let old_fallback = fallback_title_with(tab.url.as_str(), &old_parsed);
        let new_parsed = parse_url(url.as_str());
        let trimmed = trim(tab.title.as_str());
        if trimmed.as_str().is_empty() || str_eq(tab.title.as_str(), "Zenith") || str_eq(
            tab.title.as_str(),
            old_fallback.as_str(),
        ) {
            tab.title = fallback_title_with(url.as_str(), &new_parsed);
        }
        let warmup = should_warmup_youtube_account_sync_with(&new_parsed);
        let track = should_track_recent_site_with(url.as_str(), &new_parsed);
        tab.url = url;
        self.restore_tab(i, tab, Ghost(old_tabs));
        Some(UrlChange { index: i, warmup_account_sync: warmup, track })
    }

    /// Records the title the page in tab `tab_id` reports, as
    /// [`crate::urls::resolved_tab_title`] resolves it against the tab's
    /// address.  Reports the tab's position and whether the visit goes into
    /// the history; `None` where the tab is not open.
    pub fn on_title_changed(&mut self, tab_id: u32, title: &str) -> (change: Option<(usize, bool)>)
        requires
            old(self).wf(),
        ensures
            final(self).wf(),
            match change {
                None => !has_tab(old(self)@.tabs, tab_id) && final(self)@ == old(self)@,
                Some((i, track)) => {
                    let t = old(self)@.tabs[i as int];
                    &&& tab_at(old(self)@.tabs, tab_id, i as int)
                    &&& final(self)@.tabs == old(self)@.tabs.update(
                        i as int,
                        BrowserTab { title: final(self)@.tabs[i as int].title, ..t },
                    )
                    &&& final(self)@.tabs[i as int].title@ == resolved_title(
                        title@,
                        t.url@,
                        url_parse(t.url@),
                    )
                    &&& track == track_recent(t.url@, url_parse(t.url@))
                    &&& final(self)@.active == old(self)@.active
                    &&& final(self)@.next_id == old(self)@.next_id
                    &&& final(self)@.chrome_ready == old(self)@.chrome_ready
                    &&& final(self)@.theme == old(self)@.theme
                    &&& final(self)@.search_url == old(self)@.search_url
                },
            },
    {
        let i = match self.find_tab(tab_id) {
            Some(i) => i,
            None => {
                return None;
            },
        };
        let ghost old_tabs = self.tabs@;
        let mut tab = self.tabs.remove(i);
        let parsed = parse_url(tab.url.as_str());
        tab.title = resolved_tab_title_with(title, tab.url.as_str(), &parsed);
        let track = should_track_recent_site_with(tab.url.as_str(), &parsed);
        self.restore_tab(i, tab, Ghost(old_tabs));
        Some((i, track))
    }

    /// Grants (adds, once) or revokes (removes every copy of) the lower-case
    /// form of `permission` for the tab `tab_id`.  Reports the tab's
    /// position; `None` where the tab is not open.
    pub fn set_tab_permission(&mut self, tab_id: u32, permission: &str, granted: bool) -> (r: Option<usize>)
        requires
            old(self).wf(),
        ensures
            final(self).wf(),
            match r {
                None => !has_tab(old(self)@.tabs, tab_id) && final(self)@ == old(self)@,
                Some(i) => {
                    let t = old(self)@.tabs[i as int];
                    &&& tab_at(old(self)@.tabs, tab_id, i as int)
                    &&& final(self)@.tabs == old(self)@.tabs.update(
                        i as int,
                        BrowserTab {
                            active_permissions: final(self)@.tabs[i as int].active_permissions,
                            ..t
                        },
                    )
                    &&& strings_view(final(self)@.tabs[i as int].active_permissions@)
                        == permissions_after(
                        strings_view(t.active_permissions@),
                        unicode_lower(permission@),
                        granted,
                    )
                    &&& final(self)@.active == old(self)@.active
                    &&& final(self)@.next_id == old(self)@.next_id
                    &&& final(self)@.chrome_ready == old(self)@.chrome_ready
                    &&& final(self)@.theme == old(self)@.theme
                    &&& final(self)@.search_url == old(self)@.search_url
                },
            },
    {
        let i = match self.find_tab(tab_id) {
            Some(i) => i,
            None => {
                return None;
            },
        };
        let p = to_lowercase(permission);
        let ghost old_tabs = self.tabs@;
        let mut tab = self.tabs.remove(i);
        let perms = tab.active_permissions;
        tab.active_permissions = update_permissions(perms, p, granted);
        self.restore_tab(i, tab, Ghost(old_tabs));
        Some(i)
    }

    /// Applies a settings change: `theme` sets the theme, `searchEngine`
    /// (or `search_engine`) the search URL of the named engine; other keys
    /// change nothing here.
    pub fn apply_setting(&mut self, key: &str, value: &str) -> (c: SettingChange)
        requires
            old(self).wf(),
        ensures
            final(self).wf(),
            if key@ == "theme"@ {
                c == SettingChange::Theme && final(self)@ == (BrowserView { theme: value@, ..old(self)@ })
            } else if key@ == "searchEngine"@ || key@ == "search_engine"@ {
                c == SettingChange::SearchEngine && final(self)@ == (BrowserView {
                    search_url: engine_url(value@),
                    ..old(self)@
                })
            } else {
                c == SettingChange::Other && final(self)@ == old(self)@
            },
    {
        if str_eq(key, "theme") {
            self.current_theme = owned(value);
            SettingChange::Theme
        } else if str_eq(key, "searchEngine") || str_eq(key, "search_engine") {
            self.current_search_url = search_url_for_engine(value);
            SettingChange::SearchEngine
        } else {
            SettingChange::Other
        }
    }

    /// The tabs as session rows, in order, each marked active or not and
    /// numbered by its position.
    pub fn session_tabs(&self) -> (s: Vec<SessionTab>)
        ensures
            s@.len() == self@.tabs.len(),
            forall|i: int|
                0 <= i < s@.len() ==> {
                    &&& #[trigger] s@[i].url@ == self@.tabs[i].url@
                    &&& s@[i].title@ == self@.tabs[i].title@
                    &&& s@[i].is_active == (self@.active == Some(self@.tabs[i].id))
                    &&& s@[i].position == i as i32
                },
    {
        let mut s: Vec<SessionTab> = Vec::new();
        let mut i: usize = 0;
        while i < self.tabs.len()
            invariant
                i <= self.tabs@.len(),
                s@.len() == i,
                forall|k: int|
                    0 <= k < i ==> #[trigger] session_entry(
                        s@[k],
                        self.tabs@[k],
                        self.active_tab_id,
                        k,
                    ),
            decreases self.tabs.len() - i,
        {
            let entry = session_row(&self.tabs[i], self.active_tab_id, i);
            let ghost before = s@;
            s.push(entry);
            proof {
                assert forall|k: int| 0 <= k < i + 1 implies #[trigger] session_entry(
                    s@[k],
                    self.tabs@[k],
                    self.active_tab_id,
                    k,
                ) by {
                    if k < i {
                        assert(s@[k] == before[k]);
                        assert(session_entry(before[k], self.tabs@[k], self.active_tab_id, k));
                    } else {
                        assert(s@[k] == entry);
                    }
                }
            }
            i += 1;
        }
        proof {
            assert forall|k: int| 0 <= k < s@.len() implies #[trigger] s@[k].url@
                == self@.tabs[k].url@ by {
                assert(session_entry(s@[k], self.tabs@[k], self.active_tab_id, k));
            }
            assert forall|k: int| 0 <= k < s@.len() implies session_entry(
                s@[k],
                self@.tabs[k],
                self@.active,
                k,
            ) by {
                assert(session_entry(s@[k], self.tabs@[k], self.active_tab_id, k));
            }
        }
        s
    }

    /// The open tabs as suggestions of type `tab`.
    pub fn tab_suggestions(&self) -> (s: Vec<Suggestion>)
        ensures
            s@.len() == self@.tabs.len(),
            forall|i: int|
                0 <= i < s@.len() ==> {
                    &&& #[trigger] s@[i].title@ == self@.tabs[i].title@
                    &&& crate::url_parts::opt_str_view(s@[i].url) == Some(self@.tabs[i].url@)
                    &&& s@[i].suggestion_type@ == "tab"@
                    &&& s@[i].tab_id == Some(self@.tabs[i].id)
                },
    {
        let mut s: Vec<Suggestion> = Vec::new();
        let mut i: usize = 0;
        while i < self.tabs.len()
            invariant
                i <= self.tabs@.len(),
                s@.len() == i,
                forall|k: int| 0 <= k < i ==> #[trigger] tab_suggestion_entry(s@[k], self.tabs@[k]),
            decreases self.tabs.len() - i,
        {
            let entry = tab_suggestion(&self.tabs[i]);
            let ghost before = s@;
            s.push(entry);
            proof {
                assert forall|k: int| 0 <= k < i + 1 implies #[trigger] tab_suggestion_entry(
                    s@[k],
                    self.tabs@[k],
                ) by {
                    if k < i {
                        assert(s@[k] == before[k]);
                        assert(tab_suggestion_entry(before[k], self.tabs@[k]));
                    } else {
                        assert(s@[k] == entry);
                    }
                }
            }
            i += 1;
        }
        proof {
            assert forall|k: int| 0 <= k < s@.len() implies #[trigger] s@[k].title@
                == self@.tabs[k].title@ by {
                assert(tab_suggestion_entry(s@[k], self.tabs@[k]));
            }
            assert forall|k: int| 0 <= k < s@.len() implies tab_suggestion_entry(
                s@[k],
                self@.tabs[k],
            ) by {
                assert(tab_suggestion_entry(s@[k], self.tabs@[k]));
            }
        }
        s
    }

    /// The tab strip for the chrome, every tab marked as not bookmarked
    /// until the bookmarks are looked up.
    pub fn chrome_tabs(&self) -> (s: Vec<ChromeTabState>)
        ensures
            s@.len() == self@.tabs.len(),
            forall|i: int|
                0 <= i < s@.len() ==> {
                    &&& #[trigger] s@[i].id == self@.tabs[i].id
                    &&& s@[i].title@ == self@.tabs[i].title@
                    &&& s@[i].url@ == self@.tabs[i].url@
                    &&& !s@[i].is_bookmarked
                    &&& strings_view(s@[i].active_permissions@) == strings_view(
                        self@.tabs[i].active_permissions@,
                    )
                },
    {
        let mut s: Vec<ChromeTabState> = Vec::new();
        let mut i: usize = 0;
        while i < self.tabs.len()
            invariant
                i <= self.tabs@.len(),
                s@.len() == i,
                forall|k: int| 0 <= k < i ==> #[trigger] chrome_tab_entry(s@[k], self.tabs@[k]),
            decreases self.tabs.len() - i,
        {
            let entry = chrome_tab(&self.tabs[i]);
            let ghost before = s@;
            s.push(entry);
            proof {
                assert forall|k: int| 0 <= k < i + 1 implies #[trigger] chrome_tab_entry(
                    s@[k],
                    self.tabs@[k],
                ) by {
                    if k < i {
                        assert(s@[k] == before[k]);
                        assert(chrome_tab_entry(before[k], self.tabs@[k]));
                    } else {
                        assert(s@[k] == entry);
                    }
                }
            }
            i += 1;
        }
        proof {
            assert forall|k: int| 0 <= k < s@.len() implies #[trigger] s@[k].id
                == self@.tabs[k].id by {
                assert(chrome_tab_entry(s@[k], self.tabs@[k]));
            }
            assert forall|k: int| 0 <= k < s@.len() implies chrome_tab_entry(
                s@[k],
                self@.tabs[k],
            ) by {
                assert(chrome_tab_entry(s@[k], self.tabs@[k]));
            }
        }
        s
    }

    /// Which tabs are shown: exactly the active one.
    pub fn tab_visibility(&self) -> (v: Vec<bool>)
        ensures
            v@.len() == self@.tabs.len(),
            forall|i: int| 0 <= i < v@.len() ==> #[trigger] v@[i] == (self@.active == Some(self@.tabs[i].id)),
    {
        let mut v: Vec<bool> = Vec::new();
        let mut i: usize = 0;
        while i < self.tabs.len()
            invariant
                i <= self.tabs@.len(),
                v@.len() == i,
                forall|k: int| 0 <= k < i ==> #[trigger] v@[k] == (self.active_tab_id == Some(self.tabs@[k].id)),
            decreases self.tabs.len() - i,
        {
            v.push(self.active_tab_id == Some(self.tabs[i].id));
            i += 1;
        }
        v
    }
}

} // verus!
