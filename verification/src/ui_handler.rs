//! Routing of `zenith://` requests to the browser's own pages.

use vstd::prelude::*;
use crate::text::str_eq;

verus! {

broadcast use vstd::string::group_string_axioms;

/// The content type of every page served under `zenith://assets`.
pub const HTML_CONTENT_TYPE: &'static str = "text/html; charset=utf-8";

/// What a `zenith://` request is answered with.
#[derive(Clone, Copy, Debug, PartialEq, Eq, Structural)]
pub enum ZenithRoute {
    /// The chrome's user interface.
    Ui,
    /// The new-tab page.
    Home,
    /// The settings page.
    Settings,
    /// The history page.
    History,
    /// The downloads page.
    Downloads,
    /// An empty 404 response.
    NotFound,
}


/// The page a request for `host` and `path` is answered with.
pub open spec fn route_spec(host: Seq<char>, path: Seq<char>) -> ZenithRoute {
    if host != "assets"@ {
        ZenithRoute::NotFound
    } else if path == "/ui"@ || path == "/ui/"@ {
        ZenithRoute::Ui
    } else if path == "/home"@ || path == "/home/"@ {
        ZenithRoute::Home
    } else if path == "/settings"@ || path == "/settings/"@ {
        ZenithRoute::Settings
    } else if path == "/history"@ || path == "/history/"@ {
        ZenithRoute::History
    } else if path == "/downloads"@ || path == "/downloads/"@ {
        ZenithRoute::Downloads
    } else {
        ZenithRoute::NotFound
    }
}

/// The page a `zenith://` request for `host` and `path` is answered with:
/// the pages live under the host `assets`, with or without a trailing
/// slash; anything else is not found.
pub fn route_zenith_request(host: &str, path: &str) -> (r: ZenithRoute)
    ensures
        r == route_spec(host@, path@),
{
    if !str_eq(host, "assets") {
        ZenithRoute::NotFound
    } else if str_eq(path, "/ui") || str_eq(path, "/ui/") {
        ZenithRoute::Ui
    } else if str_eq(path, "/home") || str_eq(path, "/home/") {
        ZenithRoute::Home
    } else if str_eq(path, "/settings") || str_eq(path, "/settings/") {
        ZenithRoute::Settings
    } else if str_eq(path, "/history") || str_eq(path, "/history/") {
        ZenithRoute::History
    } else if str_eq(path, "/downloads") || str_eq(path, "/downloads/") {
        ZenithRoute::Downloads
    } else {
        ZenithRoute::NotFound
    }
}

} // verus!
