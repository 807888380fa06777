//! Path filtering and the scanner's configuration of search roots.
use vstd::prelude::*;

use crate::text::{chars_of, contains_seq, has_prefix, has_substring, occurs_at, starts_with_seq};

verus! {

/// The separator between path components.
pub const SEPARATOR: char = '/';

/// Some pattern of `patterns` occurs in `path` as a plain substring.
pub open spec fn excluded_by(path: Seq<char>, patterns: Seq<String>) -> bool {
    exists|i: int| 0 <= i < patterns.len() && has_substring(path, #[trigger] patterns[i]@)
}

/// `path` is the ignore entry `entry`, lies below it, or holds it as a substring.
pub open spec fn ignored_by_entry(path: Seq<char>, entry: Seq<char>) -> bool {
    ||| has_substring(path, entry)
    ||| path == entry
    ||| (has_prefix(path, entry) && path.len() > entry.len() && path[entry.len() as int]
        == SEPARATOR)
}

/// Some entry of `ignores` ignores `path`.
pub open spec fn ignored_by(path: Seq<char>, ignores: Seq<String>) -> bool {
    exists|i: int| 0 <= i < ignores.len() && ignored_by_entry(path, #[trigger] ignores[i]@)
}

/// A copy of a list of strings.
pub fn clone_strings(v: &Vec<String>) -> (r: Vec<String>)
    ensures
        r@ == v@,
{
    let mut r: Vec<String> = Vec::new();
    let mut i: usize = 0;
    while i < v.len()
        invariant
            i <= v@.len(),
            r@ == v@.subrange(0, i as int),
        decreases v@.len() - i,
    {
        r.push(v[i].clone());
        i = i + 1;
    }
    assert(r@ =~= v@);
    r
}

/// Whether `path` holds any of `patterns` as a substring. The match is on the
/// whole path text, not per component, so a pattern may match inside a name.
pub fn is_excluded(path: &str, patterns: &Vec<String>) -> (r: bool)
    ensures
        r == excluded_by(path@, patterns@),
{
    let p = chars_of(path);
    let mut i: usize = 0;
    while i < patterns.len()
        invariant
            p@ == path@,
            i <= patterns@.len(),
            forall|j: int| 0 <= j < i ==> !has_substring(path@, #[trigger] patterns@[j]@),
        decreases patterns@.len() - i,
    {
        let q = chars_of(patterns[i].as_str());
        if contains_seq(&p, &q) {
            return true;
        }
        i = i + 1;
    }
    false
}

/// Whether the ignore entry `entry` ignores `path`.
fn is_ignored_by_entry(path: &Vec<char>, entry: &Vec<char>) -> (r: bool)
    ensures
        r == ignored_by_entry(path@, entry@),
{
    if contains_seq(path, entry) {
        return true;
    }
    if starts_with_seq(path, entry) {
        if path.len() == entry.len() {
            assert(path@ =~= path@.subrange(0, entry@.len() as int));
            return true;
        }
        if path[entry.len()] == SEPARATOR {
            return true;
        }
    } else {
        proof {
            if path@ == entry@ {
                assert(path@.subrange(0, entry@.len() as int) =~= path@);
            }
        }
    }
    false
}

/// Searches configured roots for projects, skipping excluded and ignored paths.
pub struct RustProjectScanner {
    pub search_paths: Vec<String>,
    pub exclude_patterns: Vec<String>,
    pub ignore_paths: Vec<String>,
}

/// Why a scanner could not be set up.
pub enum ScanError {
    /// A configured search root does not exist; it holds that root.
    MissingSearchPath(String),
}

impl RustProjectScanner {
    /// A scanner with no ignore entries; see `new_with_ignores`.
    pub fn new(search_paths: &Vec<String>, root_exists: &Vec<bool>, exclude_patterns: &Vec<String>)
        -> (r: Result<Self, ScanError>)
        requires
            root_exists@.len() == search_paths@.len(),
        ensures
            (forall|i: int| 0 <= i < root_exists@.len() ==> #[trigger] root_exists@[i]) <==> r
                is Ok,
            r matches Ok(s) ==> s.search_paths@ == search_paths@ && s.exclude_patterns@
                == exclude_patterns@ && s.ignore_paths@.len() == 0,
            r matches Err(ScanError::MissingSearchPath(p)) ==> exists|i: int|
                0 <= i < root_exists@.len() && !root_exists@[i] && p@ == search_paths@[i]@ && (
                forall|j: int| 0 <= j < i ==> #[trigger] root_exists@[j]),
    {
        let none: Vec<String> = Vec::new();
        Self::new_with_ignores(search_paths, root_exists, exclude_patterns, &none)
    }

    /// A scanner over `search_paths`, where `root_exists[i]` tells whether
    /// `search_paths[i]` exists. Fails on the first root that does not.
    pub fn new_with_ignores(
        search_paths: &Vec<String>,
        root_exists: &Vec<bool>,
        exclude_patterns: &Vec<String>,
        ignore_paths: &Vec<String>,
    ) -> (r: Result<Self, ScanError>)
        requires
            root_exists@.len() == search_paths@.len(),
        ensures
            (forall|i: int| 0 <= i < root_exists@.len() ==> #[trigger] root_exists@[i]) <==> r
                is Ok,
            r matches Ok(s) ==> s.search_paths@ == search_paths@ && s.exclude_patterns@
                == exclude_patterns@ && s.ignore_paths@ == ignore_paths@,
            r matches Err(ScanError::MissingSearchPath(p)) ==> exists|i: int|
                0 <= i < root_exists@.len() && !root_exists@[i] && p@ == search_paths@[i]@ && (
                forall|j: int| 0 <= j < i ==> #[trigger] root_exists@[j]),
    {
        let mut i: usize = 0;
        while i < search_paths.len()
            invariant
                root_exists@.len() == search_paths@.len(),
                i <= search_paths@.len(),
                forall|j: int| 0 <= j < i ==> #[trigger] root_exists@[j],
            decreases search_paths@.len() - i,
        {
            if !root_exists[i] {
                return Err(ScanError::MissingSearchPath(search_paths[i].clone()));
            }
            i = i + 1;
        }
        Ok(RustProjectScanner {
            search_paths: clone_strings(search_paths),
            exclude_patterns: clone_strings(exclude_patterns),
            ignore_paths: clone_strings(ignore_paths),
        })
    }

    /// Whether some ignore entry ignores `path`.
    pub fn is_ignored_path(&self, path: &str) -> (r: bool)
        ensures
            r == ignored_by(path@, self.ignore_paths@),
    {
        let p = chars_of(path);
        let mut i: usize = 0;
        while i < self.ignore_paths.len()
            invariant
                p@ == path@,
                i <= self.ignore_paths@.len(),
                forall|j: int|
                    0 <= j < i ==> !ignored_by_entry(path@, #[trigger] self.ignore_paths@[j]@),
            decreases self.ignore_paths@.len() - i,
        {
            let e = chars_of(self.ignore_paths[i].as_str());
            if is_ignored_by_entry(&p, &e) {
                return true;
            }
            i = i + 1;
        }
        false
    }

    /// Whether the walk must not enter `path`: it is excluded or ignored.
    pub fn should_prune(&self, path: &str) -> (r: bool)
        ensures
            r == (excluded_by(path@, self.exclude_patterns@) || ignored_by(
                path@,
                self.ignore_paths@,
            )),
    {
        is_excluded(path, &self.exclude_patterns) || self.is_ignored_path(path)
    }

    /// The search roots that are not ignored, in their configured order.
    pub fn roots_to_scan(&self) -> (r: Vec<String>)
        ensures
            r@ == self.search_paths@.filter(|p: String| !ignored_by(p@, self.ignore_paths@)),
    {
        let ghost keep = |p: String| !ignored_by(p@, self.ignore_paths@);
        let mut r: Vec<String> = Vec::new();
        let mut i: usize = 0;
        while i < self.search_paths.len()
            invariant
                i <= self.search_paths@.len(),
                keep == (|p: String| !ignored_by(p@, self.ignore_paths@)),
                r@ == self.search_paths@.subrange(0, i as int).filter(keep),
            decreases self.search_paths@.len() - i,
        {
            proof {
                reveal(Seq::filter);
                assert(self.search_paths@.subrange(0, i + 1).drop_last()
                    =~= self.search_paths@.subrange(0, i as int));
            }
            if !self.is_ignored_path(self.search_paths[i].as_str()) {
                r.push(self.search_paths[i].clone());
            }
            i = i + 1;
        }
        assert(self.search_paths@.subrange(0, i as int) =~= self.search_paths@);
        r
    }
}

/// An ignore entry ignores itself and every path below it: a path equal to
/// the entry, or one that starts with the entry followed by a separator.
pub proof fn lemma_ignore_covers_descendants(path: Seq<char>, ignores: Seq<String>, i: int)
    requires
        0 <= i < ignores.len(),
        path == ignores[i]@ || (has_prefix(path, ignores[i]@) && path.len() > ignores[i]@.len()
            && path[ignores[i]@.len() as int] == SEPARATOR),
    ensures
        ignored_by(path, ignores),
{
    assert(ignored_by_entry(path, ignores[i]@));
}

/// A path that holds an exclude pattern anywhere, even inside a component
/// name, is excluded.
pub proof fn lemma_exclusion_anywhere(
    before: Seq<char>,
    after: Seq<char>,
    patterns: Seq<String>,
    i: int,
)
    requires
        0 <= i < patterns.len(),
    ensures
        excluded_by(before + patterns[i]@ + after, patterns),
{
    let s = before + patterns[i]@ + after;
    let q = patterns[i]@;
    assert(s.subrange(before.len() as int, (before.len() + q.len()) as int) =~= q);
    assert(occurs_at(s, q, before.len() as int));
}

} // verus!
