//! Profile locations and the records kept in the profile.

use vstd::prelude::*;
use crate::text::{concat3, owned, push_str};

verus! {

broadcast use vstd::string::group_string_axioms;

/// A visited page.
#[derive(Clone, Debug, PartialEq, Eq)]
pub struct RecentSite {
    pub url: String,
    pub title: String,
}

/// A bookmarked page.
#[derive(Clone, Debug, PartialEq, Eq)]
pub struct BookmarkSite {
    pub url: String,
    pub title: String,
}

/// A download and its status (`in_progress`, `completed` or `failed`).
#[derive(Clone, Debug, PartialEq, Eq)]
pub struct DownloadEntry {
    pub url: String,
    pub path: String,
    pub status: String,
}

/// A tab of a saved session.
#[derive(Clone, Debug, PartialEq, Eq)]
pub struct SessionTab {
    pub url: String,
    pub title: String,
    pub is_active: bool,
    pub position: i32,
}

/// `Path::join` on Unix: an absolute component replaces the base; a
/// relative one is appended after a `/`, which is left out where the base
/// is empty or already ends in one.
pub open spec fn join_path_spec(base: Seq<char>, component: Seq<char>) -> Seq<char> {
    if component.len() > 0 && component[0] == '/' {
        component
    } else if base.len() == 0 || base.last() == '/' {
        base + component
    } else {
        base + seq!['/'] + component
    }
}

/// Joins a component onto a Unix path.
pub fn join_path(base: &str, component: &str) -> (p: String)
    ensures
        p@ == join_path_spec(base@, component@),
{
    let c = crate::text::chars_of(component);
    if c.len() > 0 && c[0] == '/' {
        return owned(component);
    }
    let v = crate::text::chars_of(base);
    if v.len() == 0 || v[v.len() - 1] == '/' {
        let mut p = owned(base);
        push_str(&mut p, component);
        p
    } else {
        let p = concat3(base, "/", component);
        proof {
            reveal_strlit("/");
        }
        p
    }
}

/// The profile directory: `$HOME/.zenith/profile` where a home directory
/// is known, else `zenith-profile` in the temporary directory.
pub open spec fn profile_directory_spec(home: Option<Seq<char>>, temp_dir: Seq<char>) -> Seq<char> {
    match home {
        Some(h) => join_path_spec(join_path_spec(h, ".zenith"@), "profile"@),
        None => join_path_spec(temp_dir, "zenith-profile"@),
    }
}

/// The profile directory for the given home and temporary directories.
pub fn profile_directory(home: Option<&str>, temp_dir: &str) -> (p: String)
    ensures
        p@ == profile_directory_spec(
            match home {
                Some(h) => Some(h@),
                None => None,
            },
            temp_dir@,
        ),
{
    proof {
        reveal_strlit("/");
        reveal_strlit(".zenith");
        reveal_strlit("profile");
        reveal_strlit("zenith-profile");
    }
    match home {
        Some(h) => {
            let z = join_path(h, ".zenith");
            join_path(z.as_str(), "profile")
        },
        None => join_path(temp_dir, "zenith-profile"),
    }
}

/// The file of recent sites kept by earlier versions, in the profile directory.
pub fn recent_sites_path(profile_dir: &str) -> (p: String)
    ensures
        p@ == join_path_spec(profile_dir@, "recent-sites.json"@),
{
    proof {
        reveal_strlit("/");
        reveal_strlit("recent-sites.json");
    }
    join_path(profile_dir, "recent-sites.json")
}

/// The file of bookmarks kept by earlier versions, in the profile directory.
pub fn bookmarks_path(profile_dir: &str) -> (p: String)
    ensures
        p@ == join_path_spec(profile_dir@, "bookmarks.json"@),
{
    proof {
        reveal_strlit("/");
        reveal_strlit("bookmarks.json");
    }
    join_path(profile_dir, "bookmarks.json")
}

/// The database file in the profile directory.
pub fn database_path(profile_dir: &str) -> (p: String)
    ensures
        p@ == join_path_spec(profile_dir@, "zenith.db"@),
{
    proof {
        reveal_strlit("/");
        reveal_strlit("zenith.db");
    }
    join_path(profile_dir, "zenith.db")
}

} // verus!
