//! Path-based cache policy: which request paths have their compressed
//! responses cached. Exclusion prefixes take precedence over every inclusion
//! rule; inclusion is by exact path, path suffix, or path prefix, all literal
//! string comparisons.

use vstd::prelude::*;

use crate::strings::{any_eq, any_prefix_of, any_suffix_of};

verus! {

/// Compresses responses and caches the compressed bodies in memory for the
/// paths this policy selects: useful for large compiled JS/CSS files, font
/// packs, and other static assets. Cached entries are held for the process
/// lifetime, so the selected paths must stay a small, operator-curated set.
pub struct CachedCompression {
    pub cached_paths: Vec<String>,
    pub cached_path_prefixes: Vec<String>,
    pub cached_path_suffixes: Vec<String>,
    pub excluded_path_prefixes: Vec<String>,
    pub level: Option<crate::engine::Level>,
}

impl CachedCompression {
    /// Whether `path` starts with one of the configured exclusion prefixes.
    pub open spec fn spec_excluded(self, path: Seq<char>) -> bool {
        exists|i: int|
            0 <= i < self.excluded_path_prefixes@.len() && (#[trigger] self.excluded_path_prefixes@[
                i
            ]@).is_prefix_of(path)
    }

    /// Whether `path` matches one of the inclusion rules: an exact path, a
    /// path suffix, or a path prefix.
    pub open spec fn spec_included(self, path: Seq<char>) -> bool {
        ||| exists|i: int|
            0 <= i < self.cached_paths@.len() && (#[trigger] self.cached_paths@[i]@) == path
        ||| exists|i: int|
            0 <= i < self.cached_path_suffixes@.len() && (#[trigger] self.cached_path_suffixes@[
                i
            ]@).is_suffix_of(path)
        ||| exists|i: int|
            0 <= i < self.cached_path_prefixes@.len() && (#[trigger] self.cached_path_prefixes@[
                i
            ]@).is_prefix_of(path)
    }

    /// Whether compressed output for `path` should be cached: never when an
    /// exclusion prefix matches, else exactly when an inclusion rule does.
    pub open spec fn spec_should_cache(self, path: Seq<char>) -> bool {
        !self.spec_excluded(path) && self.spec_included(path)
    }

    /// The quality level the stage compresses with: the configured override,
    /// or the codec's default.
    pub open spec fn spec_level(self) -> crate::engine::Level {
        match self.level {
            Some(l) => l,
            None => crate::engine::Level::Default,
        }
    }

    /// Decides whether this path's compressed output should be cached.
    pub fn should_cache(&self, path: &str) -> (r: bool)
        ensures
            r == self.spec_should_cache(path@),
    {
        if any_prefix_of(&self.excluded_path_prefixes, path) {
            return false;
        }
        any_eq(&self.cached_paths, path) || any_suffix_of(&self.cached_path_suffixes, path)
            || any_prefix_of(&self.cached_path_prefixes, path)
    }

    /// A policy with no rules: no path is cached, no level override.
    pub fn new() -> (r: CachedCompression)
        ensures
            r.cached_paths@.len() == 0,
            r.cached_path_prefixes@.len() == 0,
            r.cached_path_suffixes@.len() == 0,
            r.excluded_path_prefixes@.len() == 0,
            r.level is None,
    {
        CachedCompression {
            cached_paths: Vec::new(),
            cached_path_prefixes: Vec::new(),
            cached_path_suffixes: Vec::new(),
            excluded_path_prefixes: Vec::new(),
            level: None,
        }
    }

    /// Caches only the specific paths provided.
    pub fn exact_path_fairing(cached_paths: Vec<String>) -> (r: CachedCompression)
        ensures
            r.cached_paths == cached_paths,
            r.cached_path_prefixes@.len() == 0,
            r.cached_path_suffixes@.len() == 0,
            r.excluded_path_prefixes@.len() == 0,
            r.level is None,
    {
        CachedCompression { cached_paths, ..Self::new() }
    }

    /// Caches all paths with the provided suffixes.
    pub fn path_suffix_fairing(cached_path_suffixes: Vec<String>) -> (r: CachedCompression)
        ensures
            r.cached_path_suffixes == cached_path_suffixes,
            r.cached_paths@.len() == 0,
            r.cached_path_prefixes@.len() == 0,
            r.excluded_path_prefixes@.len() == 0,
            r.level is None,
    {
        CachedCompression { cached_path_suffixes, ..Self::new() }
    }

    /// Caches all paths with the provided prefixes.
    pub fn path_prefix_fairing(cached_path_prefixes: Vec<String>) -> (r: CachedCompression)
        ensures
            r.cached_path_prefixes == cached_path_prefixes,
            r.cached_paths@.len() == 0,
            r.cached_path_suffixes@.len() == 0,
            r.excluded_path_prefixes@.len() == 0,
            r.level is None,
    {
        CachedCompression { cached_path_prefixes, ..Self::new() }
    }

    /// Caches compressed responses for all paths except those with the
    /// excluded prefixes: the one inclusion prefix is the empty string,
    /// which every path starts with.
    pub fn excluded_path_prefix_fairing(excluded_path_prefixes: Vec<String>) -> (r:
        CachedCompression)
        ensures
            r.excluded_path_prefixes == excluded_path_prefixes,
            r.cached_paths@.len() == 0,
            r.cached_path_suffixes@.len() == 0,
            r.cached_path_prefixes@.len() == 1,
            r.cached_path_prefixes@[0]@ == Seq::<char>::empty(),
            r.level is None,
    {
        let mut cached_path_prefixes: Vec<String> = Vec::new();
        cached_path_prefixes.push(String::new());
        CachedCompression { cached_path_prefixes, excluded_path_prefixes, ..Self::new() }
    }

    /// Copies borrowed path literals into owned strings.
    pub fn static_paths(paths: Vec<&str>) -> (r: Vec<String>)
        ensures
            r@.len() == paths@.len(),
            forall|i: int| 0 <= i < r@.len() ==> (#[trigger] r@[i]@) == paths@[i]@,
    {
        let mut r: Vec<String> = Vec::new();
        let mut j: usize = 0;
        while j < paths.len()
            invariant
                0 <= j <= paths@.len(),
                r@.len() == j,
                forall|i: int| 0 <= i < j ==> (#[trigger] r@[i]@) == paths@[i]@,
            decreases paths@.len() - j,
        {
            r.push(paths[j].to_owned());
            j += 1;
        }
        r
    }
}

/// Exclusion-precedence law: a path matching an exclusion prefix is never
/// cached, even when it also matches an inclusion rule.
pub proof fn lemma_exclusion_precedence(policy: CachedCompression, path: Seq<char>, i: int)
    requires
        0 <= i < policy.excluded_path_prefixes@.len(),
        (policy.excluded_path_prefixes@[i]@).is_prefix_of(path),
    ensures
        !policy.spec_should_cache(path),
{
}

} // verus!
