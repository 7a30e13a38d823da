//! The parts of a parsed URL that the browser logic reads, and the one call
//! into the `url` crate that produces them.

use vstd::prelude::*;
use crate::text::{lower_spec, no_ws};

verus! {

/// A parsed URL, reduced to the components the browser inspects.
pub struct ParsedUrl {
    /// The scheme, as `url::Url::scheme` reports it.
    pub scheme: String,
    /// The host, as `url::Url::host_str` reports it.
    pub host: Option<String>,
    /// The path, as `url::Url::path` reports it.
    pub path: String,
    /// The query, as `url::Url::query` reports it.
    pub query: Option<String>,
}

/// The mathematical view of a [`ParsedUrl`].
pub ghost struct UrlParts {
    pub scheme: Seq<char>,
    pub host: Option<Seq<char>>,
    pub path: Seq<char>,
    pub query: Option<Seq<char>>,
}

pub open spec fn opt_str_view(o: Option<String>) -> Option<Seq<char>> {
    match o {
        Some(s) => Some(s@),
        None => None,
    }
}

impl View for ParsedUrl {
    type V = UrlParts;

    open spec fn view(&self) -> UrlParts {
        UrlParts {
            scheme: self.scheme@,
            host: opt_str_view(self.host),
            path: self.path@,
            query: opt_str_view(self.query),
        }
    }
}

/// The view of an optional parsed URL.
pub open spec fn opt_url_view(o: Option<ParsedUrl>) -> Option<UrlParts> {
    match o {
        Some(u) => Some(u@),
        None => None,
    }
}

/// The host of a parsed URL, where there is one, holds no whitespace.
pub open spec fn host_without_ws(parsed: Option<UrlParts>) -> bool {
    match parsed {
        Some(u) => match u.host {
            Some(h) => no_ws(h),
            None => true,
        },
        None => true,
    }
}

/// What `url::Url::parse` yields for the given text: `None` where it
/// returns an error, otherwise the scheme, host, path and query of the URL.
pub uninterp spec fn url_parse(input: Seq<char>) -> Option<UrlParts>;

/// Parses `raw` with `url::Url::parse` and keeps the scheme, host, path and
/// query of the result.  The contract claims that the result is a function
/// of the input text (named `url_parse`); that the scheme is in ASCII lower
/// case, as `Url::scheme` documents; and that the host holds no whitespace:
/// the crate's host parser turns a domain into ASCII under the URL deny list
/// (which refuses space and control characters), refuses space, tab, line
/// feed and carriage return in an opaque host and percent-encodes its
/// other control and non-ASCII characters, and writes IP addresses in
/// digits, dots, colons and brackets.  The WHATWG parsing rules that compute
/// the rest are not restated here.
#[verifier::external_body]
pub(crate) fn parse_url(raw: &str) -> (res: Option<ParsedUrl>)
    ensures
        opt_url_view(res) == url_parse(raw@),
        res matches Some(u) ==> lower_spec(u.scheme@) == u.scheme@,
        host_without_ws(opt_url_view(res)),
{
    match url::Url::parse(raw) {
        Ok(u) => Some(
            ParsedUrl {
                scheme: u.scheme().to_string(),
                host: u.host_str().map(String::from),
                path: u.path().to_string(),
                query: u.query().map(String::from),
            },
        ),
        Err(_) => None,
    }
}

} // verus!
