//! Where a project keeps its proxies and temporary files.
use vstd::prelude::*;
use crate::ids::{uuid_text, uuid_to_string};
use crate::textutil::{join_path, owned, path_join, push_str, stem_or, stem_or_else};

verus! {

/// The cache directory of a project, with its `proxies` and `tmp` parts.
#[derive(Debug)]
pub struct CacheManager {
    cache_dir: String,
}

impl View for CacheManager {
    type V = Seq<char>;

    /// The cache directory.
    closed spec fn view(&self) -> Seq<char> {
        self.cache_dir@
    }
}

/// The default cache directory of a project under the user cache directory
/// `cache_home`: `<cache_home>/vedit/<project id>`.
pub open spec fn project_cache_dir(cache_home: Seq<char>, project_id: u128) -> Seq<char> {
    path_join(path_join(cache_home, "vedit"@), uuid_text(project_id))
}

/// The user cache directory: `XDG_CACHE_HOME` when it is set, otherwise
/// `.cache` under `HOME`, or under `/tmp` when `HOME` is not set either.
pub open spec fn cache_home_of(xdg: Option<Seq<char>>, home: Option<Seq<char>>) -> Seq<char> {
    match xdg {
        Some(x) => x,
        None => path_join(
            match home {
                Some(h) => h,
                None => "/tmp"@,
            },
            ".cache"@,
        ),
    }
}

/// The directory of `cache_home_of` for the values of `XDG_CACHE_HOME` and
/// `HOME` (`None` when unset).
pub fn user_cache_home(xdg: Option<&str>, home: Option<&str>) -> (r: String)
    ensures
        r@ == cache_home_of(
            match xdg {
                Some(x) => Some(x@),
                None => None,
            },
            match home {
                Some(h) => Some(h@),
                None => None,
            },
        ),
{
    match xdg {
        Some(x) => owned(x),
        None => match home {
            Some(h) => join_path(h, ".cache"),
            None => join_path("/tmp", ".cache"),
        },
    }
}

impl CacheManager {
    /// A cache rooted at `cache_dir`.
    pub fn new(cache_dir: &str) -> (r: Self)
        ensures
            r@ == cache_dir@,
    {
        CacheManager { cache_dir: owned(cache_dir) }
    }

    /// The default cache of a project, under the user cache directory
    /// `cache_home` (the caller creates the directory).
    pub fn default_for_project(cache_home: &str, project_id: u128) -> (r: Self)
        ensures
            r@ == project_cache_dir(cache_home@, project_id),
    {
        let base = join_path(cache_home, "vedit");
        let id = uuid_to_string(project_id);
        CacheManager { cache_dir: join_path(base.as_str(), id.as_str()) }
    }

    /// The cache directory itself.
    pub fn dir(&self) -> (r: &str)
        ensures
            r@ == self@,
    {
        self.cache_dir.as_str()
    }

    /// `<cache>/proxies`.
    pub fn proxy_dir(&self) -> (r: String)
        ensures
            r@ == path_join(self@, "proxies"@),
    {
        join_path(self.cache_dir.as_str(), "proxies")
    }

    /// `<cache>/tmp`.
    pub fn temp_dir(&self) -> (r: String)
        ensures
            r@ == path_join(self@, "tmp"@),
    {
        join_path(self.cache_dir.as_str(), "tmp")
    }

    /// `<cache>/proxies/<stem>_proxy.mp4` for a source file, with `clip` as the
    /// stem of a path that has none.
    pub fn proxy_path(&self, source: &str) -> (r: String)
        ensures
            r@ == path_join(path_join(self@, "proxies"@), stem_or(source@, "clip"@) + "_proxy.mp4"@),
    {
        let mut name = stem_or_else(source, "clip");
        push_str(&mut name, "_proxy.mp4");
        join_path(self.proxy_dir().as_str(), name.as_str())
    }
}

} // verus!
