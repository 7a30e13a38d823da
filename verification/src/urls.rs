//! URL classification, tab titles and address-bar input normalisation.

use vstd::prelude::*;
use crate::encoding::{percent_encode_query, percent_encode_spec};
use crate::text::{
    chars_of, concat2, contains, contains_spec, has_char, lower_spec, owned, replace,
    replace_spec, starts_with, str_eq, to_ascii_lower, trim, trim_end_char, trim_end_char_spec,
    trim_spec,
};
use crate::url_parts::{opt_url_view, parse_url, url_parse, ParsedUrl, UrlParts};

verus! {

broadcast use vstd::string::group_string_axioms;

/// The user agent the browser presents.
pub const CUSTOM_USER_AGENT: &'static str = "Mozilla/5.0 (Macintosh; Intel Mac OS X 10_15_7) AppleWebKit/537.36 (KHTML, like Gecko) Chrome/124.0.0.0 Safari/537.36";

/// The new-tab page.
pub const HOME_URL: &'static str = "zenith://assets/home";

/// The settings page.
pub const SETTINGS_URL: &'static str = "zenith://assets/settings";

/// The history page.
pub const HISTORY_URL: &'static str = "zenith://assets/history";

/// The downloads page.
pub const DOWNLOADS_URL: &'static str = "zenith://assets/downloads";

// ---------------------------------------------------------------------------
// Specifications
// ---------------------------------------------------------------------------

/// The URL uses the `http` or `https` scheme, spelled in lower case.
pub open spec fn http_like(u: Seq<char>) -> bool {
    "http://"@.is_prefix_of(u) || "https://"@.is_prefix_of(u)
}

/// The URL names one of the browser's own asset pages.
pub open spec fn assets_url(u: Seq<char>) -> bool {
    "zenith://assets/"@.is_prefix_of(u) || u == "zenith://assets"@
}

/// `host` without a leading `www.`.
pub open spec fn strip_www(host: Seq<char>) -> Seq<char> {
    if "www."@.is_prefix_of(host) {
        host.skip(4)
    } else {
        host
    }
}

/// The title derived from a parsed URL: its host without `www.`, or
/// `Zenith` where there is none.
pub open spec fn host_title(parsed: Option<UrlParts>) -> Seq<char> {
    match parsed {
        Some(u) => match u.host {
            Some(h) => if strip_www(h).len() > 0 {
                strip_www(h)
            } else {
                "Zenith"@
            },
            None => "Zenith"@,
        },
        None => "Zenith"@,
    }
}

/// The title shown for a page before it reports one.
pub open spec fn fallback_title(raw: Seq<char>, parsed: Option<UrlParts>) -> Seq<char> {
    if SETTINGS_URL@.is_prefix_of(raw) {
        "Settings"@
    } else if HISTORY_URL@.is_prefix_of(raw) {
        "History"@
    } else if DOWNLOADS_URL@.is_prefix_of(raw) {
        "Downloads"@
    } else if HOME_URL@.is_prefix_of(raw) {
        "New Tab"@
    } else {
        host_title(parsed)
    }
}

/// A page title that says nothing about the page.
pub open spec fn generic_title(lower: Seq<char>) -> bool {
    lower == "zenith"@ || lower == "zenith browser"@ || lower == "about:blank"@ || lower
        == "new tab"@
}

/// The title a tab shows for a reported title and its current URL.
pub open spec fn resolved_title(raw_title: Seq<char>, url: Seq<char>, parsed: Option<UrlParts>) -> Seq<char> {
    let t = trim_spec(raw_title);
    if t.len() == 0 {
        fallback_title(url, parsed)
    } else if generic_title(lower_spec(t)) && http_like(url) {
        fallback_title(url, parsed)
    } else {
        t
    }
}

/// Address-bar input that names a host rather than a search.
pub open spec fn host_like_input(t: Seq<char>) -> bool {
    (t.contains('.') || "localhost"@.is_prefix_of(t)) && !t.contains(' ')
}

/// The address that address-bar input leads to.
pub open spec fn normalized_url(raw: Seq<char>, search_engine_url: Seq<char>) -> Seq<char> {
    let t = trim_spec(raw);
    if t.len() == 0 {
        HOME_URL@
    } else if "zenith://"@.is_prefix_of(t) || http_like(t) {
        t
    } else if host_like_input(t) {
        "https://"@ + t
    } else {
        replace_spec(search_engine_url, "{}"@, percent_encode_spec(t))
    }
}

/// Hosts that serve sign-in flows.
pub open spec fn auth_host(host: Seq<char>) -> bool {
    ||| host == "accounts.google.com"@
    ||| host == "oauth2.googleapis.com"@
    ||| host == "github.com"@
    ||| host == "gitlab.com"@
    ||| host == "bitbucket.org"@
    ||| host == "login.live.com"@
    ||| host == "account.microsoft.com"@
    ||| host == "login.microsoftonline.com"@
    ||| host == "appleid.apple.com"@
    ||| host == "id.twitch.tv"@
    ||| host == "discord.com"@
    ||| host == "slack.com"@
    ||| host == "auth.openai.com"@
    ||| host == "www.facebook.com"@
    ||| host == "m.facebook.com"@
    ||| host == "www.instagram.com"@
    ||| host == "x.com"@
    ||| host == "twitter.com"@
    ||| host == "www.linkedin.com"@
}

/// The text of an optional component, empty where it is absent.
pub open spec fn or_empty(o: Option<Seq<char>>) -> Seq<char> {
    match o {
        Some(s) => s,
        None => Seq::empty(),
    }
}

/// `path?query` in lower case.
pub open spec fn path_and_query(u: UrlParts) -> Seq<char> {
    lower_spec(u.path) + "?"@ + lower_spec(or_empty(u.query))
}

/// The path or query mentions a sign-in step.
pub open spec fn auth_markers(u: UrlParts) -> bool {
    let c = path_and_query(u);
    ||| contains_spec(c, "oauth"@)
    ||| contains_spec(c, "authorize"@)
    ||| contains_spec(c, "signin"@)
    ||| contains_spec(c, "login"@)
    ||| contains_spec(c, "consent"@)
    ||| contains_spec(c, "accountchooser"@)
    ||| contains_spec(c, "servicelogin"@)
    ||| contains_spec(c, "sso"@)
    ||| contains_spec(c, "2fa"@)
    ||| contains_spec(c, "mfa"@)
    ||| contains_spec(c, "challenge"@)
    ||| contains_spec(c, "checkpoint"@)
}

/// The query carries the parameters of an OAuth authorisation request.
pub open spec fn oauth_exchange(u: UrlParts) -> bool {
    let q = lower_spec(or_empty(u.query));
    (contains_spec(q, "client_id="@) || contains_spec(q, "appid="@) || contains_spec(q, "scope="@))
        && (contains_spec(q, "redirect_uri="@) || contains_spec(q, "response_type="@)
        || contains_spec(q, "code_challenge="@))
}

/// A lower-case path of Google's background account-sync pages.
pub open spec fn google_sync_path(p: Seq<char>) -> bool {
    contains_spec(p, "rotatecookiespage"@) || contains_spec(p, "checkcookie"@) || contains_spec(
        p,
        "listaccounts"@,
    )
}

/// The lower-case host of a parsed URL, empty where there is none.
pub open spec fn lower_host(u: UrlParts) -> Seq<char> {
    lower_spec(or_empty(u.host))
}

/// A host that looks like it serves sign-in flows.
pub open spec fn auth_like_host(host: Seq<char>) -> bool {
    auth_host(host) || "accounts."@.is_prefix_of(host) || "auth."@.is_prefix_of(host)
        || "login."@.is_prefix_of(host) || contains_spec(host, "oauth"@)
}

/// A bare sign-in path.
pub open spec fn auth_path(p: Seq<char>) -> bool {
    p == "/signin"@ || p == "/login"@ || p == "/oauth"@ || p == "/authorize"@
}

/// The decision to open a parsed URL in a sign-in window.
pub open spec fn auth_window_for(u: UrlParts) -> bool {
    let scheme = lower_spec(u.scheme);
    let host = lower_host(u);
    if scheme != "http"@ && scheme != "https"@ {
        false
    } else if host.len() == 0 {
        false
    } else if host == "accounts.google.com"@ && google_sync_path(lower_spec(u.path)) {
        false
    } else if oauth_exchange(u) {
        true
    } else if !auth_like_host(host) {
        false
    } else if auth_markers(u) {
        true
    } else {
        auth_path(lower_spec(u.path))
    }
}

/// The decision to open a URL in a sign-in window.
pub open spec fn auth_window(parsed: Option<UrlParts>) -> bool {
    match parsed {
        Some(u) => auth_window_for(u),
        None => false,
    }
}

/// A Google account-sync page that runs in the background.
pub open spec fn background_sync(parsed: Option<UrlParts>) -> bool {
    match parsed {
        Some(u) => lower_host(u) == "accounts.google.com"@ && google_sync_path(lower_spec(u.path)),
        None => false,
    }
}

/// The YouTube home page, which warms up the account sync.
pub open spec fn youtube_home(parsed: Option<UrlParts>) -> bool {
    match parsed {
        Some(u) => {
            let host = lower_host(u);
            (host == "youtube.com"@ || host == "www.youtube.com"@ || host == "m.youtube.com"@)
                && trim_end_char_spec(u.path, '/').len() == 0
        },
        None => false,
    }
}

/// A page that goes into the history of recent sites.
pub open spec fn track_recent(raw: Seq<char>, parsed: Option<UrlParts>) -> bool {
    if !http_like(raw) {
        false
    } else {
        match parsed {
            Some(u) => lower_host(u).len() > 0 && lower_host(u) != "accounts.google.com"@,
            None => false,
        }
    }
}


// ---------------------------------------------------------------------------
// Executable functions
// ---------------------------------------------------------------------------

/// The URL uses the `http` or `https` scheme.
pub fn is_http_like_url(url: &str) -> (b: bool)
    ensures
        b == http_like(url@),
{
    starts_with(url, "http://") || starts_with(url, "https://")
}

/// The URL names one of the browser's own asset pages.
pub fn is_assets_url(url: &str) -> (b: bool)
    ensures
        b == assets_url(url@),
{
    starts_with(url, "zenith://assets/") || str_eq(url, "zenith://assets")
}

/// The title derived from a parsed URL: its host without `www.`, or
/// `Zenith` where there is none.
pub fn title_from_parsed(parsed: &Option<ParsedUrl>) -> (t: String)
    ensures
        t@ == host_title(opt_url_view(*parsed)),
{
    match parsed {
        Some(u) => match &u.host {
            Some(h) => {
                let hv = chars_of(h.as_str());
                proof {
                    reveal_strlit("www.");
                }
                let stripped = if starts_with(h.as_str(), "www.") {
                    crate::text::string_of_range(&hv, 4, hv.len())
                } else {
                    owned(h.as_str())
                };
                proof {
                    if "www."@.is_prefix_of(h@) {
                        assert(hv@.subrange(4, hv@.len() as int) =~= h@.skip(4));
                    }
                }
                if !stripped.as_str().is_empty() {
                    stripped
                } else {
                    owned("Zenith")
                }
            },
            None => owned("Zenith"),
        },
        None => owned("Zenith"),
    }
}

/// The title for a URL whose page has not reported one, given what
/// `url::Url::parse` made of it.
pub fn fallback_title_with(raw_url: &str, parsed: &Option<ParsedUrl>) -> (t: String)
    ensures
        t@ == fallback_title(raw_url@, opt_url_view(*parsed)),
{
    if starts_with(raw_url, SETTINGS_URL) {
        owned("Settings")
    } else if starts_with(raw_url, HISTORY_URL) {
        owned("History")
    } else if starts_with(raw_url, DOWNLOADS_URL) {
        owned("Downloads")
    } else if starts_with(raw_url, HOME_URL) {
        owned("New Tab")
    } else {
        title_from_parsed(parsed)
    }
}

/// The title for a URL whose page has not reported one: the name of an
/// asset page, else the host without `www.`, else `Zenith`.
pub fn fallback_title_for_url(raw_url: &str) -> (t: String)
    ensures
        t@ == fallback_title(raw_url@, url_parse(raw_url@)),
        t@.len() > 0,
        trim_spec(t@) == t@,
{
    let parsed = parse_url(raw_url);
    proof {
        crate::laws::law_fallback_title_not_empty(raw_url@, opt_url_view(parsed));
        crate::laws::law_fallback_title_trimmed(raw_url@, opt_url_view(parsed));
    }
    fallback_title_with(raw_url, &parsed)
}

/// The title a tab shows, given what `url::Url::parse` made of its URL.
pub fn resolved_tab_title_with(raw_title: &str, current_url: &str, parsed: &Option<ParsedUrl>) -> (t: String)
    ensures
        t@ == resolved_title(raw_title@, current_url@, opt_url_view(*parsed)),
{
    let trimmed = trim(raw_title);
    if trimmed.as_str().is_empty() {
        return fallback_title_with(current_url, parsed);
    }
    let lower = to_ascii_lower(trimmed.as_str());
    let generic = str_eq(lower.as_str(), "zenith") || str_eq(lower.as_str(), "zenith browser")
        || str_eq(lower.as_str(), "about:blank") || str_eq(lower.as_str(), "new tab");
    if generic && is_http_like_url(current_url) {
        return fallback_title_with(current_url, parsed);
    }
    trimmed
}

/// The title a tab shows for a reported page title: the trimmed title,
/// unless it is empty or a generic browser title on a web page, in which
/// case the fallback title of the URL.
///
/// The title is never empty, has no surrounding whitespace, and resolving
/// it again for the same URL gives it back.
pub fn resolved_tab_title(raw_title: &str, current_url: &str) -> (t: String)
    ensures
        t@ == resolved_title(raw_title@, current_url@, url_parse(current_url@)),
        t@.len() > 0,
        trim_spec(t@) == t@,
        resolved_title(t@, current_url@, url_parse(current_url@)) == t@,
{
    let parsed = parse_url(current_url);
    proof {
        let p = opt_url_view(parsed);
        crate::laws::law_resolved_title_not_empty(raw_title@, current_url@, p);
        crate::laws::law_resolved_title_trimmed(raw_title@, current_url@, p);
        crate::laws::law_resolved_title_idempotent(raw_title@, current_url@, p);
    }
    resolved_tab_title_with(raw_title, current_url, &parsed)
}

/// The address that address-bar input leads to: the home page for blank
/// input, browser and web URLs as typed, host names over `https`, and
/// anything else as a query for `search_engine_url`, whose `{}` marks
/// where the percent-encoded query goes.
pub fn normalize_user_input_url(raw: &str, search_engine_url: &str) -> (u: String)
    ensures
        u@ == normalized_url(raw@, search_engine_url@),
{
    let trimmed = trim(raw);
    if trimmed.as_str().is_empty() {
        return owned(HOME_URL);
    }
    if starts_with(trimmed.as_str(), "zenith://") || is_http_like_url(trimmed.as_str()) {
        return trimmed;
    }
    if (has_char(trimmed.as_str(), '.') || starts_with(trimmed.as_str(), "localhost")) && !has_char(
        trimmed.as_str(),
        ' ',
    ) {
        return concat2("https://", trimmed.as_str());
    }
    let q = percent_encode_query(trimmed.as_str());
    proof {
        reveal_strlit("{}");
    }
    replace(search_engine_url, "{}", q.as_str())
}

/// The host is a known sign-in provider.
pub fn is_auth_host(host: &str) -> (b: bool)
    ensures
        b == auth_host(host@),
{
    str_eq(host, "accounts.google.com") || str_eq(host, "oauth2.googleapis.com") || str_eq(
        host,
        "github.com",
    ) || str_eq(host, "gitlab.com") || str_eq(host, "bitbucket.org") || str_eq(
        host,
        "login.live.com",
    ) || str_eq(host, "account.microsoft.com") || str_eq(host, "login.microsoftonline.com")
        || str_eq(host, "appleid.apple.com") || str_eq(host, "id.twitch.tv") || str_eq(
        host,
        "discord.com",
    ) || str_eq(host, "slack.com") || str_eq(host, "auth.openai.com") || str_eq(
        host,
        "www.facebook.com",
    ) || str_eq(host, "m.facebook.com") || str_eq(host, "www.instagram.com") || str_eq(
        host,
        "x.com",
    ) || str_eq(host, "twitter.com") || str_eq(host, "www.linkedin.com")
}

/// The lower-case text of an optional component, empty where absent.
fn lower_or_empty(o: &Option<String>) -> (r: String)
    ensures
        r@ == lower_spec(or_empty(opt_str(*o))),
{
    match o {
        Some(s) => to_ascii_lower(s.as_str()),
        None => {
            assert(lower_spec(Seq::<char>::empty()) =~= Seq::<char>::empty());
            String::new()
        },
    }
}

/// The view of an optional string.
pub open spec fn opt_str(o: Option<String>) -> Option<Seq<char>> {
    crate::url_parts::opt_str_view(o)
}

/// The path or query of the URL mentions a sign-in step.
pub fn has_auth_markers(url: &ParsedUrl) -> (b: bool)
    ensures
        b == auth_markers(url@),
{
    let path = to_ascii_lower(url.path.as_str());
    let query = lower_or_empty(&url.query);
    let mut combined = path;
    combined.append("?");
    combined.append(query.as_str());
    let c = combined.as_str();
    contains(c, "oauth") || contains(c, "authorize") || contains(c, "signin") || contains(
        c,
        "login",
    ) || contains(c, "consent") || contains(c, "accountchooser") || contains(c, "servicelogin")
        || contains(c, "sso") || contains(c, "2fa") || contains(c, "mfa") || contains(
        c,
        "challenge",
    ) || contains(c, "checkpoint")
}

/// The query of the URL carries the parameters of an OAuth authorisation
/// request.
pub fn looks_like_oauth_exchange(url: &ParsedUrl) -> (b: bool)
    ensures
        b == oauth_exchange(url@),
{
    let q = lower_or_empty(&url.query);
    let query = q.as_str();
    (contains(query, "client_id=") || contains(query, "appid=") || contains(query, "scope="))
        && (contains(query, "redirect_uri=") || contains(query, "response_type=") || contains(
        query,
        "code_challenge=",
    ))
}

/// A lower-case path of Google's background account-sync pages.
fn is_google_sync_path(path: &str) -> (b: bool)
    ensures
        b == google_sync_path(path@),
{
    contains(path, "rotatecookiespage") || contains(path, "checkcookie") || contains(
        path,
        "listaccounts",
    )
}

/// Whether a parsed URL opens in a separate sign-in window.
pub fn should_open_auth_window_for(url: &ParsedUrl) -> (b: bool)
    ensures
        b == auth_window_for(url@),
{
    let scheme = to_ascii_lower(url.scheme.as_str());
    if !str_eq(scheme.as_str(), "http") && !str_eq(scheme.as_str(), "https") {
        return false;
    }
    let host = lower_or_empty(&url.host);
    if host.as_str().is_empty() {
        return false;
    }
    if str_eq(host.as_str(), "accounts.google.com") {
        let path = to_ascii_lower(url.path.as_str());
        if is_google_sync_path(path.as_str()) {
            return false;
        }
    }
    let h = host.as_str();
    let auth_like = is_auth_host(h) || starts_with(h, "accounts.") || starts_with(h, "auth.")
        || starts_with(h, "login.") || contains(h, "oauth");
    if looks_like_oauth_exchange(url) {
        return true;
    }
    if !auth_like {
        return false;
    }
    if has_auth_markers(url) {
        return true;
    }
    let path = to_ascii_lower(url.path.as_str());
    let p = path.as_str();
    str_eq(p, "/signin") || str_eq(p, "/login") || str_eq(p, "/oauth") || str_eq(p, "/authorize")
}

/// Whether a URL, given what `url::Url::parse` made of it, opens in a
/// separate sign-in window.
pub fn should_open_auth_window_with(parsed: &Option<ParsedUrl>) -> (b: bool)
    ensures
        b == auth_window(opt_url_view(*parsed)),
{
    match parsed {
        Some(u) => should_open_auth_window_for(u),
        None => false,
    }
}

/// Whether a URL opens in a separate sign-in window: OAuth requests on
/// web URLs, and sign-in pages of sign-in hosts, but not Google's
/// background account-sync pages.
pub fn should_open_auth_window(raw_url: &str) -> (b: bool)
    ensures
        b == auth_window(url_parse(raw_url@)),
        b ==> (url_parse(raw_url@) matches Some(u) && (u.scheme == "http"@ || u.scheme == "https"@)
            && or_empty(u.host).len() > 0),
        background_sync(url_parse(raw_url@)) ==> !b,
{
    let parsed = parse_url(raw_url);
    let b = should_open_auth_window_with(&parsed);
    proof {
        if let Some(u) = parsed {
            crate::laws::law_auth_window_only_for_web_urls(u@);
        }
        crate::laws::law_background_sync_is_not_auth_window(opt_url_view(parsed));
    }
    b
}

/// Whether a URL, given what `url::Url::parse` made of it, is one of
/// Google's background account-sync pages.
pub fn is_background_google_account_sync_with(parsed: &Option<ParsedUrl>) -> (b: bool)
    ensures
        b == background_sync(opt_url_view(*parsed)),
{
    match parsed {
        Some(u) => {
            let host = lower_or_empty(&u.host);
            if !str_eq(host.as_str(), "accounts.google.com") {
                return false;
            }
            let path = to_ascii_lower(u.path.as_str());
            is_google_sync_path(path.as_str())
        },
        None => false,
    }
}

/// Whether a URL is one of Google's background account-sync pages.
pub fn is_background_google_account_sync_url(raw_url: &str) -> (b: bool)
    ensures
        b == background_sync(url_parse(raw_url@)),
{
    let parsed = parse_url(raw_url);
    is_background_google_account_sync_with(&parsed)
}

/// Whether a URL, given what `url::Url::parse` made of it, is the YouTube
/// home page.
pub fn should_warmup_youtube_account_sync_with(parsed: &Option<ParsedUrl>) -> (b: bool)
    ensures
        b == youtube_home(opt_url_view(*parsed)),
{
    match parsed {
        Some(u) => {
            let host = lower_or_empty(&u.host);
            let h = host.as_str();
            if !str_eq(h, "youtube.com") && !str_eq(h, "www.youtube.com") && !str_eq(
                h,
                "m.youtube.com",
            ) {
                return false;
            }
            let path = trim_end_char(u.path.as_str(), '/');
            path.as_str().is_empty()
        },
        None => false,
    }
}

/// Whether a URL is the YouTube home page, whose visit warms up the
/// account sync.
pub fn should_warmup_youtube_account_sync(raw_url: &str) -> (b: bool)
    ensures
        b == youtube_home(url_parse(raw_url@)),
{
    let parsed = parse_url(raw_url);
    should_warmup_youtube_account_sync_with(&parsed)
}

/// Whether a visit goes into the history, given what `url::Url::parse`
/// made of the URL.
pub fn should_track_recent_site_with(raw_url: &str, parsed: &Option<ParsedUrl>) -> (b: bool)
    ensures
        b == track_recent(raw_url@, opt_url_view(*parsed)),
{
    if !is_http_like_url(raw_url) {
        return false;
    }
    match parsed {
        Some(u) => {
            let host = lower_or_empty(&u.host);
            if host.as_str().is_empty() {
                return false;
            }
            !str_eq(host.as_str(), "accounts.google.com")
        },
        None => false,
    }
}

/// Whether a visit goes into the history: web pages with a host, except
/// Google's account pages.
pub fn should_track_recent_site(raw_url: &str) -> (b: bool)
    ensures
        b == track_recent(raw_url@, url_parse(raw_url@)),
        b ==> http_like(raw_url@),
{
    let parsed = parse_url(raw_url);
    should_track_recent_site_with(raw_url, &parsed)
}

} // verus!
