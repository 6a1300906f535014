//! Path handling, display labels and the search index over file names.

use vstd::prelude::*;
use crate::text::{
    contains_text, has_substring, join_path, join_path_of, last_segment, last_segment_of,
};
use std::fmt::Write;

verus! {

/// What `std::path::Path::parent` gives for a path: the path without its
/// final component, or `None` at a root or for an empty path.
pub uninterp spec fn parent_path(s: Seq<char>) -> Option<Seq<char>>;

/// What `std::path::Path::file_name` gives for a path: its final
/// component, or `None` when the path ends in `..` or has none.
pub uninterp spec fn path_file_name(s: Seq<char>) -> Option<Seq<char>>;

/// What chrono prints for the UTC instant `secs` seconds after the Unix
/// epoch with the strftime pattern `pattern`, or `None` when the instant
/// is out of chrono's range or the pattern cannot be printed.
pub uninterp spec fn utc_text(secs: i64, pattern: Seq<char>) -> Option<Seq<char>>;

pub open spec fn opt_view(o: Option<String>) -> Option<Seq<char>> {
    match o {
        Some(s) => Some(s@),
        None => None,
    }
}

/// Relies on `Path::parent` (the parent is a slice of a valid string, so the
/// lossy conversion keeps it as it is).
#[verifier::external_body]
fn parent_of(s: &str) -> (r: Option<String>)
    ensures
        opt_view(r) == parent_path(s@),
        s@.len() == 0 ==> r is None,
        s@ == seq!['/'] ==> r is None,
{
    std::path::Path::new(s).parent().map(|p| p.to_string_lossy().into_owned())
}

/// Relies on `Path::file_name`; a `&str` path always converts back to `str`.
#[verifier::external_body]
fn file_name_part(s: &str) -> (r: Option<String>)
    ensures
        opt_view(r) == path_file_name(s@),
{
    std::path::Path::new(s).file_name().and_then(|n| n.to_str()).map(|n| n.to_string())
}

/// Relies on chrono's `DateTime::<Utc>::from_timestamp` and `format`; a
/// pattern that chrono cannot print gives `None` rather than a panic.
#[verifier::external_body]
fn format_utc(secs: i64, pattern: &str) -> (r: Option<String>)
    ensures
        opt_view(r) == utc_text(secs, pattern@),
{
    let t = chrono::DateTime::<chrono::Utc>::from_timestamp(secs, 0)?;
    let mut out = String::new();
    match write!(out, "{}", t.format(pattern)) {
        Ok(()) => Some(out),
        Err(_) => None,
    }
}

/// Last component of a path written with `/` or `\` separators.
pub fn strip_directory(path: &str) -> (r: String)
    ensures
        r@ == last_segment(path@, true),
{
    last_segment_of(path, true)
}

/// Final component of a path, as the standard library splits it.
pub fn file_name(path: &str) -> (r: Option<String>)
    ensures
        opt_view(r) == path_file_name(path@),
{
    file_name_part(path)
}

/// The directory that holds `path_str`, or `None` at the top of the tree.
pub fn move_up_in_path(path_str: &String) -> (r: Option<String>)
    ensures
        opt_view(r) == parent_path(path_str@),
        path_str@.len() == 0 ==> r is None,
        path_str@ == seq!['/'] ==> r is None,
{
    parent_of(path_str.as_str())
}

/// Makes `current_directory` the selected directory.
pub fn update_current_directory(selected_directory: &String, current_directory: &mut String)
    ensures
        final(current_directory)@ == selected_directory@,
{
    *current_directory = selected_directory.clone();
}

/// Label of an entry's kind: `File` for a regular file, else `Folder`.
pub fn is_path_file(is_file: bool) -> (r: String)
    ensures
        r@ == (if is_file { "File"@ } else { "Folder"@ }),
{
    if is_file {
        String::from_str("File")
    } else {
        String::from_str("Folder")
    }
}

/// The strftime pattern of modification times: day/month/year hh:mm:ss.
pub open spec fn modified_pattern() -> Seq<char> {
    "%d/%m/%Y %T"@
}

/// Modification time `secs` seconds after the Unix epoch, printed in UTC
/// as day/month/year and time of day.
pub fn last_modified_time(secs: i64) -> (r: Option<String>)
    ensures
        opt_view(r) == utc_text(secs, modified_pattern()),
{
    format_utc(secs, "%d/%m/%Y %T")
}

/// The staging directory `cache` beside the executable at `exe_path`, or
/// `None` when the executable path has no parent.
pub fn get_cahce_fodler(exe_path: &String) -> (r: Option<String>)
    ensures
        match parent_path(exe_path@) {
            Some(p) => opt_view(r) == Some(join_path(p, "cache"@)),
            None => r is None,
        },
{
    match move_up_in_path(exe_path) {
        Some(dir) => Some(join_path_of(dir.as_str(), "cache")),
        None => None,
    }
}

/// One child of a directory, or one resolved search result, read from its
/// metadata: regular files and directories are told apart, nothing more.
#[derive(Clone, Debug)]
pub struct DirectoryEntry {
    pub name: String,
    pub path: String,
    pub is_directory: bool,
    /// Length in bytes; zero for a directory.
    pub size_bytes: u64,
    /// Modification time in seconds since the Unix epoch.
    pub modified_secs: i64,
}

/// What the state machine reads of an entry: its path and whether it is a
/// directory.
pub open spec fn entries_view(v: Seq<DirectoryEntry>) -> Seq<(Seq<char>, bool)> {
    v.map_values(|e: DirectoryEntry| (e.path@, e.is_directory))
}

/// One item met by the recursive walk of a directory tree.
#[derive(Clone, Debug)]
pub struct WalkedEntry {
    pub path: String,
    pub is_file: bool,
}

/// A file name together with the path it was found at.
#[derive(Clone, Debug)]
pub struct IndexEntry {
    pub name: String,
    pub path: String,
}

/// Mapping from file name to path, built once from a walk of a tree.
/// Names are distinct; a later file with a name already present replaces
/// that name's path in place, so entries keep the order in which their
/// names first appeared.
#[derive(Clone, Debug)]
pub struct SearchIndex {
    entries: Vec<IndexEntry>,
}

/// View of walk results as (path, is a regular file) pairs.
pub open spec fn walk_view(w: Seq<WalkedEntry>) -> Seq<(Seq<char>, bool)> {
    w.map_values(|e: WalkedEntry| (e.path@, e.is_file))
}

pub open spec fn names_distinct(s: Seq<(Seq<char>, Seq<char>)>) -> bool {
    forall|i: int, j: int|
        0 <= i < s.len() && 0 <= j < s.len() && i != j ==> #[trigger] s[i].0 != #[trigger] s[j].0
}

pub open spec fn has_name(s: Seq<(Seq<char>, Seq<char>)>, n: Seq<char>) -> bool {
    exists|k: int| 0 <= k < s.len() && #[trigger] s[k].0 == n
}

/// `s` with `n` mapped to `p`: the entry of that name is replaced where it
/// is, or a new entry is added at the end.
pub open spec fn index_insert(
    s: Seq<(Seq<char>, Seq<char>)>,
    n: Seq<char>,
    p: Seq<char>,
) -> Seq<(Seq<char>, Seq<char>)> {
    if has_name(s, n) {
        let k = choose|k: int| 0 <= k < s.len() && #[trigger] s[k].0 == n;
        s.update(k, (n, p))
    } else {
        s.push((n, p))
    }
}

/// The index that a walk yields: every regular file, in walk order, is
/// inserted under its last path component.
pub open spec fn index_of_walk(w: Seq<(Seq<char>, bool)>) -> Seq<(Seq<char>, Seq<char>)>
    decreases w.len(),
{
    if w.len() == 0 {
        seq![]
    } else {
        let prev = index_of_walk(w.drop_last());
        if w.last().1 {
            index_insert(prev, last_segment(w.last().0, true), w.last().0)
        } else {
            prev
        }
    }
}

/// Names of `s`, in index order, that contain `q`.
pub open spec fn matching_names(s: Seq<(Seq<char>, Seq<char>)>, q: Seq<char>) -> Seq<Seq<char>>
    decreases s.len(),
{
    if s.len() == 0 {
        seq![]
    } else {
        let prev = matching_names(s.drop_last(), q);
        if has_substring(s.last().0, q) {
            prev.push(s.last().0)
        } else {
            prev
        }
    }
}

pub open spec fn strings_view(v: Seq<String>) -> Seq<Seq<char>> {
    v.map_values(|s: String| s@)
}

impl View for SearchIndex {
    type V = Seq<(Seq<char>, Seq<char>)>;

    closed spec fn view(&self) -> Seq<(Seq<char>, Seq<char>)> {
        self.entries@.map_values(|e: IndexEntry| (e.name@, e.path@))
    }
}

impl SearchIndex {
    pub open spec fn wf(&self) -> bool {
        names_distinct(self@)
    }

    /// An index with no names.
    pub fn new() -> (r: SearchIndex)
        ensures
            r.wf(),
            r@ == Seq::<(Seq<char>, Seq<char>)>::empty(),
    {
        let r = SearchIndex { entries: Vec::new() };
        assert(r@ =~= Seq::<(Seq<char>, Seq<char>)>::empty());
        r
    }

    /// Number of names held.
    pub fn len(&self) -> (r: usize)
        ensures
            r == self@.len(),
    {
        self.entries.len()
    }

    /// Position of `name`, if present.
    fn find(&self, name: &String) -> (r: Option<usize>)
        requires
            self.wf(),
        ensures
            r is None <==> !has_name(self@, name@),
            r matches Some(k) ==> k < self@.len() && self@[k as int].0 == name@,
    {
        let mut k: usize = 0;
        while k < self.entries.len()
            invariant
                k <= self.entries@.len(),
                forall|j: int| 0 <= j < k ==> #[trigger] self@[j].0 != name@,
            decreases self.entries@.len() - k,
        {
            if self.entries[k].name == *name {
                assert(self@[k as int].0 == name@);
                return Some(k);
            }
            k = k + 1;
        }
        assert(!has_name(self@, name@)) by {
            if has_name(self@, name@) {
                let j = choose|j: int| 0 <= j < self@.len() && #[trigger] self@[j].0 == name@;
                assert(self@[j].0 == name@);
            }
        }
        None
    }

    /// Maps `name` to `path`, replacing the path of an existing entry of
    /// that name where it stands.
    pub fn insert(&mut self, name: String, path: String)
        requires
            old(self).wf(),
        ensures
            final(self).wf(),
            final(self)@ == index_insert(old(self)@, name@, path@),
    {
        let ghost old_v = self@;
        match self.find(&name) {
            Some(k) => {
                proof {
                    let c = choose|c: int| 0 <= c < old_v.len() && #[trigger] old_v[c].0 == name@;
                    assert(old_v[c].0 == old_v[k as int].0);
                }
                self.entries.set(k, IndexEntry { name, path });
                assert(self@ =~= index_insert(old_v, name@, path@));
            },
            None => {
                self.entries.push(IndexEntry { name, path });
                assert(self@ =~= index_insert(old_v, name@, path@));
            },
        }
    }

    /// Path recorded for `name`, if the index holds that name.
    pub fn path_of(&self, name: &String) -> (r: Option<String>)
        requires
            self.wf(),
        ensures
            r is None <==> !has_name(self@, name@),
            r matches Some(p) ==> exists|k: int|
                0 <= k < self@.len() && #[trigger] self@[k] == (name@, p@),
    {
        match self.find(name) {
            Some(k) => {
                let p = self.entries[k].path.clone();
                assert(self@[k as int] == (name@, p@));
                Some(p)
            },
            None => None,
        }
    }

    /// Names containing `query`, in index order.
    pub fn search(&self, query: &str) -> (r: Vec<String>)
        ensures
            strings_view(r@) == matching_names(self@, query@),
    {
        let mut r: Vec<String> = Vec::new();
        let mut i: usize = 0;
        while i < self.entries.len()
            invariant
                i <= self.entries@.len(),
                strings_view(r@) == matching_names(self@.subrange(0, i as int), query@),
            decreases self.entries@.len() - i,
        {
            let ghost pre = self@.subrange(0, i as int + 1);
            assert(pre.drop_last() =~= self@.subrange(0, i as int));
            let name = &self.entries[i].name;
            if contains_text(name.as_str(), query) {
                r.push(name.clone());
                assert(strings_view(r@) =~= matching_names(pre, query@));
            }
            i = i + 1;
        }
        assert(self@.subrange(0, i as int) =~= self@);
        r
    }
}

/// Names of an index, in index order.
pub open spec fn index_names(s: Seq<(Seq<char>, Seq<char>)>) -> Seq<Seq<char>> {
    s.map_values(|e: (Seq<char>, Seq<char>)| e.0)
}

proof fn lemma_matching_members(s: Seq<(Seq<char>, Seq<char>)>, q: Seq<char>)
    ensures
        forall|n: Seq<char>|
            #[trigger] matching_names(s, q).contains(n) <==> (has_name(s, n) && has_substring(
                n,
                q,
            )),
    decreases s.len(),
{
    if s.len() > 0 {
        let t = s.drop_last();
        lemma_matching_members(t, q);
        assert forall|n: Seq<char>|
            #[trigger] matching_names(s, q).contains(n) <==> (has_name(s, n) && has_substring(
                n,
                q,
            )) by {
            let m = matching_names(t, q);
            let last = s.last().0;
            assert(matching_names(s, q) == if has_substring(last, q) {
                m.push(last)
            } else {
                m
            });
            if matching_names(s, q).contains(n) {
                if m.contains(n) {
                    let k = choose|k: int| 0 <= k < t.len() && #[trigger] t[k].0 == n;
                    assert(s[k].0 == n);
                } else {
                    assert(has_substring(last, q));
                    let j = choose|j: int| 0 <= j < m.push(last).len() && m.push(last)[j] == n;
                    if j < m.len() {
                        assert(m[j] == n);
                    }
                    assert(n == last);
                    assert(s[s.len() - 1].0 == n);
                }
            }
            if has_name(s, n) && has_substring(n, q) {
                let k = choose|k: int| 0 <= k < s.len() && #[trigger] s[k].0 == n;
                if k < t.len() {
                    assert(t[k].0 == n);
                    assert(has_name(t, n));
                    assert(m.contains(n));
                    let j = choose|j: int| 0 <= j < m.len() && m[j] == n;
                    if has_substring(last, q) {
                        assert(m.push(last)[j] == n);
                    }
                } else {
                    assert(n == last);
                    assert(m.push(last)[m.len() as int] == n);
                }
            }
        }
    }
}

proof fn lemma_empty_query(s: Seq<(Seq<char>, Seq<char>)>)
    ensures
        matching_names(s, Seq::<char>::empty()) == index_names(s),
    decreases s.len(),
{
    if s.len() > 0 {
        lemma_empty_query(s.drop_last());
        let e = Seq::<char>::empty();
        assert(s.last().0.subrange(0, 0 + e.len() as int) =~= e);
        assert(has_substring(s.last().0, e));
        assert(index_names(s) =~= index_names(s.drop_last()).push(s.last().0));
    }
}

/// A query for the empty text returns every indexed name, in index order;
/// any query returns exactly the indexed names that contain it. Since a
/// query's result is `matching_names` of the index and the query, asking
/// again on the same index gives the same names.
pub proof fn lemma_query_results(index: &SearchIndex, q: Seq<char>)
    ensures
        matching_names(index@, Seq::<char>::empty()) == index_names(index@),
        forall|n: Seq<char>|
            #[trigger] matching_names(index@, q).contains(n) <==> (has_name(index@, n)
                && has_substring(n, q)),
{
    lemma_empty_query(index@);
    lemma_matching_members(index@, q);
}

/// Builds the index from the results of a walk: every regular file is
/// recorded under its last path component, and directories are skipped.
pub fn fill_hashmap(entries: &Vec<WalkedEntry>) -> (r: SearchIndex)
    ensures
        r.wf(),
        r@ == index_of_walk(walk_view(entries@)),
{
    let mut index = SearchIndex::new();
    let mut i: usize = 0;
    while i < entries.len()
        invariant
            i <= entries@.len(),
            index.wf(),
            index@ == index_of_walk(walk_view(entries@.subrange(0, i as int))),
        decreases entries@.len() - i,
    {
        let ghost pre = walk_view(entries@.subrange(0, i as int + 1));
        assert(pre.drop_last() =~= walk_view(entries@.subrange(0, i as int)));
        let e = &entries[i];
        if e.is_file {
            let name = strip_directory(e.path.as_str());
            index.insert(name, e.path.clone());
        }
        i = i + 1;
    }
    assert(entries@.subrange(0, i as int) =~= entries@);
    index
}

/// Names in the index that contain `file_name`, in index order.
pub fn search_hash_map(file_name: String, files_hash_map: &SearchIndex) -> (r: Vec<String>)
    ensures
        strings_view(r@) == matching_names(files_hash_map@, file_name@),
{
    files_hash_map.search(file_name.as_str())
}

} // verus!
