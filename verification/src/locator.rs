//! A bounded search for a name pattern in a directory tree that was read
//! beforehand: upwards through the ancestors of a directory, or downwards
//! through its subdirectories.

use crate::pattern::{accepts, glob_accepts, glob_valid, separator_free};
use vstd::prelude::*;

verus! {

/// The way a search leaves its starting directory.
#[derive(Clone, Copy, Debug, PartialEq, Eq, Structural)]
pub enum SearchDirection {
    /// From a directory to its parent, and on towards the root.
    Parent,
    /// From a directory into its subdirectories.
    Child,
}

/// What an entry of a directory is.
#[derive(Debug)]
pub enum EntryKind {
    File,
    /// A subdirectory with what was read of it; one that could not be read
    /// has no entries.
    Directory(DirListing),
    /// Anything else, and a subdirectory that is not to be entered.
    Other,
}

/// One entry of a directory.
#[derive(Debug)]
pub struct DirEntry {
    /// The entry's file name.
    pub name: String,
    /// The entry's path, the directory included.
    pub path: String,
    pub kind: EntryKind,
}

/// A directory as it was read: its path and its entries in the order in which
/// the file system gave them.
#[derive(Debug)]
pub struct DirListing {
    pub path: String,
    pub entries: Vec<DirEntry>,
}

/// The part of the file system that a search can reach: the directory where
/// it starts and that directory's ancestors, the parent first.
#[derive(Debug)]
pub struct SearchScope {
    pub start: DirListing,
    pub ancestors: Vec<DirListing>,
}

/// An entry that a search found, by the directory that lists it and its place
/// in that directory.
pub type Hit = (DirListing, int);

/// The listing of an entry that is a subdirectory.
pub open spec fn subdir(entry: DirEntry) -> Option<DirListing> {
    match entry.kind {
        EntryKind::Directory(sub) => Some(sub),
        _ => None,
    }
}

/// The first entry at or after `from` whose name the pattern accepts.
pub open spec fn first_match(entries: Seq<DirEntry>, p: Seq<char>, from: int) -> Option<int>
    decreases entries.len() - from,
{
    if from < 0 || from >= entries.len() {
        None
    } else if glob_accepts(p, entries[from].name@) {
        Some(from)
    } else {
        first_match(entries, p, from + 1)
    }
}

/// What a downward search finds: an entry of `dir` itself if one matches, the
/// first in listing order; else, with levels left, what the search finds in
/// the first subdirectory in which it finds anything, each searched with one
/// level fewer.
pub open spec fn descend(dir: DirListing, p: Seq<char>, levels: nat) -> Option<Hit>
    decreases levels, 0nat, 0nat,
{
    match first_match(dir.entries@, p, 0) {
        Some(i) => Some((dir, i)),
        None => if levels == 0 {
            None
        } else {
            descend_children(dir.entries@, p, (levels - 1) as nat, 0)
        },
    }
}

/// What a downward search finds in the subdirectories among `entries` at or
/// after `from`, taken in listing order.
pub open spec fn descend_children(entries: Seq<DirEntry>, p: Seq<char>, levels: nat, from: int)
    -> Option<Hit>
    decreases levels, 1nat, entries.len() - from,
{
    if from < 0 || from >= entries.len() {
        None
    } else {
        match subdir(entries[from]) {
            Some(sub) => match descend(sub, p, levels) {
                Some(hit) => Some(hit),
                None => descend_children(entries, p, levels, from + 1),
            },
            None => descend_children(entries, p, levels, from + 1),
        }
    }
}

/// What an upward search finds among the ancestors at or after `from`: the
/// first matching entry of the nearest ancestor that has one, no more than
/// `levels` ancestors being looked at in all.
pub open spec fn ascend_from(ancestors: Seq<DirListing>, p: Seq<char>, levels: nat, from: int)
    -> Option<Hit>
    decreases ancestors.len() - from,
{
    if from < 0 || from >= ancestors.len() || from >= levels {
        None
    } else {
        match first_match(ancestors[from].entries@, p, 0) {
            Some(i) => Some((ancestors[from], i)),
            None => ascend_from(ancestors, p, levels, from + 1),
        }
    }
}

/// What an upward search finds: a matching entry of the starting directory,
/// else of the nearest of its first `levels` ancestors that has one.
pub open spec fn ascend(scope: SearchScope, p: Seq<char>, levels: nat) -> Option<Hit> {
    match first_match(scope.start.entries@, p, 0) {
        Some(i) => Some((scope.start, i)),
        None => ascend_from(scope.ancestors@, p, levels, 0),
    }
}

/// What a search in the given direction finds.
pub open spec fn locate(scope: SearchScope, p: Seq<char>, levels: nat, direction: SearchDirection)
    -> Option<Hit> {
    match direction {
        SearchDirection::Parent => ascend(scope, p, levels),
        SearchDirection::Child => descend(scope.start, p, levels),
    }
}

/// Whether `d` is `root` or lies below it, no more than `levels` directories
/// down.
pub open spec fn within(root: DirListing, d: DirListing, levels: nat) -> bool
    decreases levels,
{
    d == root || (levels > 0 && exists|i: int|
        0 <= i < root.entries@.len() && (#[trigger] subdir(root.entries@[i])) is Some && within(
            subdir(root.entries@[i])->0,
            d,
            (levels - 1) as nat,
        ))
}

/// Whether no entry name that a downward search from `dir` may look at holds
/// a path separator.
pub open spec fn plain_names(dir: DirListing, levels: nat) -> bool
    decreases levels,
{
    forall|i: int|
        0 <= i < dir.entries@.len() ==> {
            &&& separator_free((#[trigger] dir.entries@[i]).name@)
            &&& levels > 0 && subdir(dir.entries@[i]) is Some ==> plain_names(
                subdir(dir.entries@[i])->0,
                (levels - 1) as nat,
            )
        }
}

/// Whether no entry name that an upward search in `scope` may look at holds a
/// path separator.
pub open spec fn plain_chain(scope: SearchScope, levels: nat) -> bool {
    &&& plain_names(scope.start, 0)
    &&& forall|k: int|
        0 <= k < scope.ancestors@.len() && k < levels ==> plain_names(
            #[trigger] scope.ancestors@[k],
            0,
        )
}

/// Whether the names that a search in `scope` may look at are free of path
/// separators.
pub open spec fn plain_scope(scope: SearchScope, levels: nat, direction: SearchDirection)
    -> bool {
    match direction {
        SearchDirection::Parent => plain_chain(scope, levels),
        SearchDirection::Child => plain_names(scope.start, levels),
    }
}

/// Whether `d` is a directory that a search in `scope` may look at.
pub open spec fn in_reach(
    scope: SearchScope,
    d: DirListing,
    levels: nat,
    direction: SearchDirection,
) -> bool {
    match direction {
        SearchDirection::Parent => d == scope.start || exists|k: int|
            0 <= k < scope.ancestors@.len() && k < levels && #[trigger] scope.ancestors@[k] == d,
        SearchDirection::Child => within(scope.start, d, levels),
    }
}

/// Whether no name of `entries` from `from` on holds a path separator.
pub open spec fn plain_entries(entries: Seq<DirEntry>, from: int) -> bool {
    forall|i: int| from <= i < entries.len() ==> separator_free(#[trigger] entries[i].name@)
}

/// The first entry of `entries` at or after `from` that the pattern accepts.
pub fn find_entry(entries: &Vec<DirEntry>, p: &str, from: usize) -> (r: Option<usize>)
    ensures
        separator_free(p@) && plain_entries(entries@, from as int) ==> (match r {
            Some(i) => first_match(entries@, p@, from as int) == Some(i as int),
            None => first_match(entries@, p@, from as int) is None,
        }),
        r matches Some(i) ==> from <= i < entries@.len(),
{
    let mut i: usize = from;
    while i < entries.len()
        invariant
            from <= i,
            separator_free(p@) && plain_entries(entries@, from as int) ==> first_match(
                entries@,
                p@,
                from as int,
            ) == first_match(entries@, p@, i as int),
        decreases entries@.len() - i,
    {
        if accepts(p, entries[i].name.as_str()) {
            return Some(i);
        }
        i = i + 1;
    }
    None
}

/// Searches `dir` and, while levels are left, its subdirectories.
pub fn search_down<'a>(dir: &'a DirListing, p: &str, levels: usize) -> (r: Option<
    (&'a DirListing, usize),
>)
    ensures
        separator_free(p@) && plain_names(*dir, levels as nat) ==> (match r {
            Some((d, i)) => descend(*dir, p@, levels as nat) == Some((*d, i as int)),
            None => descend(*dir, p@, levels as nat) is None,
        }),
        r matches Some((d, i)) ==> within(*dir, *d, levels as nat) && i < d.entries@.len(),
    decreases levels,
{
    match find_entry(&dir.entries, p, 0) {
        Some(i) => {
            return Some((dir, i));
        },
        None => {},
    }
    if levels == 0 {
        return None;
    }
    let mut k: usize = 0;
    while k < dir.entries.len()
        invariant
            levels > 0,
            separator_free(p@) && plain_names(*dir, levels as nat) ==> descend(
                *dir,
                p@,
                levels as nat,
            )
                == descend_children(
                dir.entries@,
                p@,
                (levels - 1) as nat,
                k as int,
            ),
        decreases dir.entries@.len() - k,
    {
        match &dir.entries[k].kind {
            EntryKind::Directory(sub) => {
                match search_down(sub, p, levels - 1) {
                    Some((d, i)) => {
                        return Some((d, i));
                    },
                    None => {},
                }
            },
            _ => {},
        }
        k = k + 1;
    }
    None
}

/// Searches the starting directory of `scope` and then no more than `levels`
/// of its ancestors, the nearest first, looking only at what each lists
/// itself.
pub fn search_up<'a>(scope: &'a SearchScope, p: &str, levels: usize) -> (r: Option<
    (&'a DirListing, usize),
>)
    ensures
        separator_free(p@) && plain_chain(*scope, levels as nat) ==> (match r {
            Some((d, i)) => ascend(*scope, p@, levels as nat) == Some((*d, i as int)),
            None => ascend(*scope, p@, levels as nat) is None,
        }),
        r matches Some((d, i)) ==> in_reach(*scope, *d, levels as nat, SearchDirection::Parent)
            && i < d.entries@.len(),
{
    match find_entry(&scope.start.entries, p, 0) {
        Some(i) => {
            return Some((&scope.start, i));
        },
        None => {},
    }
    let mut k: usize = 0;
    while k < scope.ancestors.len() && k < levels
        invariant
            separator_free(p@) && plain_chain(*scope, levels as nat) ==> ascend(
                *scope,
                p@,
                levels as nat,
            )
                == ascend_from(
                scope.ancestors@,
                p@,
                levels as nat,
                k as int,
            ),
        decreases scope.ancestors@.len() - k,
    {
        match find_entry(&scope.ancestors[k].entries, p, 0) {
            Some(i) => {
                return Some((&scope.ancestors[k], i));
            },
            None => {},
        }
        k = k + 1;
    }
    None
}

/// Whether some directory that a search in `scope` may look at lists an
/// entry that the pattern accepts.
pub open spec fn match_in_reach(
    scope: SearchScope,
    p: Seq<char>,
    levels: nat,
    direction: SearchDirection,
) -> bool {
    exists|d: DirListing, i: int|
        in_reach(scope, d, levels, direction) && 0 <= i < d.entries@.len() && glob_accepts(
            p,
            #[trigger] d.entries@[i].name@,
        )
}

/// Searches `scope` in the given direction for an entry that the pattern
/// accepts.
pub fn search<'a>(
    scope: &'a SearchScope,
    p: &str,
    levels: usize,
    direction: SearchDirection,
) -> (r: Option<(&'a DirListing, usize)>)
    ensures
        separator_free(p@) && plain_scope(*scope, levels as nat, direction) ==> (match r {
            Some((d, i)) => locate(*scope, p@, levels as nat, direction) == Some((*d, i as int)),
            None => locate(*scope, p@, levels as nat, direction) is None,
        }),
        separator_free(p@) && plain_scope(*scope, levels as nat, direction) ==> (r is Some
            <==> match_in_reach(
            *scope,
            p@,
            levels as nat,
            direction,
        )),
        r matches Some((d, i)) ==> in_reach(*scope, *d, levels as nat, direction) && i
            < d.entries@.len(),
{
    proof {
        lemma_locate_finds_what_is_in_reach(*scope, p@, levels as nat, direction);
    }
    match direction {
        SearchDirection::Parent => search_up(scope, p, levels),
        SearchDirection::Child => search_down(&scope.start, p, levels),
    }
}

/// The path of the entry that a search finds.
pub open spec fn found_path(
    scope: SearchScope,
    pattern: Seq<char>,
    levels: nat,
    direction: SearchDirection,
) -> Option<Seq<char>> {
    match locate(scope, pattern, levels, direction) {
        Some((d, i)) => Some(d.entries@[i].path@),
        None => None,
    }
}

/// Looks for an entry whose name matches `file_pattern`, starting in
/// `scope.start`: with `Child`, in that directory and its subdirectories down
/// to `levels` below it; with `Parent`, in that directory and up to `levels`
/// of its ancestors. Returns the path of the entry found. A text that is no
/// valid pattern finds nothing.
pub fn recursively_check_for_file(
    scope: &SearchScope,
    file_pattern: &str,
    levels: usize,
    direction: SearchDirection,
) -> (r: Option<String>)
    ensures
        separator_free(file_pattern@) && plain_scope(*scope, levels as nat, direction) ==> (match r {
            Some(path) => found_path(*scope, file_pattern@, levels as nat, direction) == Some(
                path@,
            ),
            None => found_path(*scope, file_pattern@, levels as nat, direction) is None,
        }),
        separator_free(file_pattern@) && plain_scope(*scope, levels as nat, direction) ==> (r
            is Some <==> match_in_reach(*scope, file_pattern@, levels as nat, direction)),
        separator_free(file_pattern@) && plain_scope(*scope, levels as nat, direction)
            && !glob_valid(file_pattern@) ==> r is None,
        r matches Some(path) ==> exists|d: DirListing, i: int|
            in_reach(*scope, d, levels as nat, direction) && 0 <= i < d.entries@.len()
                && #[trigger] d.entries@[i].path@ == path@,
{
    match search(scope, file_pattern, levels, direction) {
        Some((d, i)) => {
            let path = d.entries[i].path.clone();
            assert(d.entries@[i as int].path@ == path@);
            Some(path)
        },
        None => None,
    }
}

/// Where `first_match` finds an entry, the pattern accepts it and none before
/// it from `from` on; where it finds none, the pattern accepts none from
/// `from` on.
pub proof fn lemma_first_match(entries: Seq<DirEntry>, p: Seq<char>, from: int)
    requires
        0 <= from,
    ensures
        match first_match(entries, p, from) {
            Some(i) => from <= i < entries.len() && glob_accepts(p, entries[i].name@) && forall|
                j: int,
            |
                from <= j < i ==> !glob_accepts(p, #[trigger] entries[j].name@),
            None => forall|j: int|
                from <= j < entries.len() ==> !glob_accepts(p, #[trigger] entries[j].name@),
        },
    decreases entries.len() - from,
{
    if from < entries.len() && !glob_accepts(p, entries[from].name@) {
        lemma_first_match(entries, p, from + 1);
    }
}

/// Whether some directory no more than `levels` below `dir`, or `dir` itself,
/// lists an entry that the pattern accepts.
pub open spec fn match_within(dir: DirListing, p: Seq<char>, levels: nat) -> bool {
    exists|d: DirListing, i: int|
        within(dir, d, levels) && 0 <= i < d.entries@.len() && glob_accepts(
            p,
            #[trigger] d.entries@[i].name@,
        )
}

/// A downward search finds an entry exactly when one that the pattern accepts
/// lies within `levels` directories below the start; a match that lies only
/// deeper is not found. What it finds is such an entry.
pub proof fn lemma_descend_finds_within_depth(dir: DirListing, p: Seq<char>, levels: nat)
    ensures
        descend(dir, p, levels) is Some <==> match_within(dir, p, levels),
        descend(dir, p, levels) matches Some((d, i)) ==> within(dir, d, levels) && 0 <= i
            < d.entries@.len() && glob_accepts(p, d.entries@[i].name@),
    decreases levels, 0nat, 0nat,
{
    lemma_first_match(dir.entries@, p, 0);
    match first_match(dir.entries@, p, 0) {
        Some(i) => {
            assert(within(dir, dir, levels));
            assert(glob_accepts(p, dir.entries@[i].name@));
        },
        None => {
            if levels == 0 {
                assert forall|d: DirListing, i: int|
                    within(dir, d, levels) && 0 <= i < d.entries@.len() implies !glob_accepts(
                    p,
                    #[trigger] d.entries@[i].name@,
                ) by {
                    assert(d == dir);
                }
            } else {
                let below = (levels - 1) as nat;
                lemma_descend_children(dir.entries@, p, below, 0);
                match descend_children(dir.entries@, p, below, 0) {
                    Some((d, i)) => {
                        let k = choose|k: int|
                            0 <= k < dir.entries@.len() && subdir(dir.entries@[k]) is Some
                                && within(subdir(dir.entries@[k])->0, d, below);
                        assert(subdir(dir.entries@[k]) is Some);
                        assert(within(dir, d, levels));
                        assert(glob_accepts(p, d.entries@[i].name@));
                    },
                    None => {
                        assert forall|d: DirListing, i: int|
                            within(dir, d, levels) && 0 <= i
                                < d.entries@.len() implies !glob_accepts(
                            p,
                            #[trigger] d.entries@[i].name@,
                        ) by {
                            if d != dir {
                                let k = choose|k: int|
                                    0 <= k < dir.entries@.len() && (#[trigger] subdir(
                                        dir.entries@[k],
                                    )) is Some && within(subdir(dir.entries@[k])->0, d, below);
                                assert(!match_within(subdir(dir.entries@[k])->0, p, below));
                            }
                        }
                    },
                }
            }
        },
    }
}

/// The same for the subdirectories among `entries` from `from` on: something
/// is found exactly when one of them holds a match within `levels`
/// directories, and what is found is such a match.
pub proof fn lemma_descend_children(entries: Seq<DirEntry>, p: Seq<char>, levels: nat, from: int)
    requires
        0 <= from,
    ensures
        descend_children(entries, p, levels, from) is None ==> forall|k: int|
            from <= k < entries.len() && (#[trigger] subdir(entries[k])) is Some ==> !match_within(
                subdir(entries[k])->0,
                p,
                levels,
            ),
        descend_children(entries, p, levels, from) matches Some((d, i)) ==> 0 <= i
            < d.entries@.len() && glob_accepts(p, d.entries@[i].name@) && exists|k: int|
            from <= k < entries.len() && (#[trigger] subdir(entries[k])) is Some && within(
                subdir(entries[k])->0,
                d,
                levels,
            ),
    decreases levels, 1nat, entries.len() - from,
{
    if from < entries.len() {
        match subdir(entries[from]) {
            Some(sub) => {
                lemma_descend_finds_within_depth(sub, p, levels);
                match descend(sub, p, levels) {
                    Some((d, i)) => {
                        assert(subdir(entries[from]) is Some && within(
                            subdir(entries[from])->0,
                            d,
                            levels,
                        ));
                    },
                    None => {
                        lemma_descend_children(entries, p, levels, from + 1);
                    },
                }
            },
            None => {
                lemma_descend_children(entries, p, levels, from + 1);
            },
        }
    }
}

/// Whether the start of `scope` or one of its first `levels` ancestors lists
/// an entry that the pattern accepts.
pub open spec fn match_on_chain(scope: SearchScope, p: Seq<char>, levels: nat) -> bool {
    exists|d: DirListing, i: int|
        in_reach(scope, d, levels, SearchDirection::Parent) && 0 <= i < d.entries@.len()
            && glob_accepts(p, #[trigger] d.entries@[i].name@)
}

/// What `ascend_from` finds is a matching entry of one of the ancestors that
/// it may look at; it finds nothing exactly when none of them lists a match.
pub proof fn lemma_ascend_from(ancestors: Seq<DirListing>, p: Seq<char>, levels: nat, from: int)
    requires
        0 <= from,
    ensures
        match ascend_from(ancestors, p, levels, from) {
            Some((d, i)) => 0 <= i < d.entries@.len() && glob_accepts(p, d.entries@[i].name@)
                && exists|k: int|
                from <= k < ancestors.len() && k < levels && #[trigger] ancestors[k] == d,
            None => forall|k: int, i: int|
                from <= k < ancestors.len() && k < levels && 0 <= i < ancestors[k].entries@.len()
                    ==> !glob_accepts(p, #[trigger] ancestors[k].entries@[i].name@),
        },
    decreases ancestors.len() - from,
{
    if from < ancestors.len() && from < levels {
        lemma_first_match(ancestors[from].entries@, p, 0);
        match first_match(ancestors[from].entries@, p, 0) {
            Some(i) => {
                assert(ancestors[from] == ancestors[from]);
            },
            None => {
                lemma_ascend_from(ancestors, p, levels, from + 1);
            },
        }
    }
}

/// An upward search finds an entry exactly when the starting directory or one
/// of its first `levels` ancestors lists one that the pattern accepts, and
/// what it finds is such an entry. Subdirectories have no part in it: a match
/// that lies only in a sibling or a child is not found, however many levels
/// are allowed.
pub proof fn lemma_ascend_looks_at_chain_only(scope: SearchScope, p: Seq<char>, levels: nat)
    ensures
        ascend(scope, p, levels) is Some <==> match_on_chain(scope, p, levels),
        ascend(scope, p, levels) matches Some((d, i)) ==> in_reach(
            scope,
            d,
            levels,
            SearchDirection::Parent,
        ) && 0 <= i < d.entries@.len() && glob_accepts(p, d.entries@[i].name@),
{
    lemma_first_match(scope.start.entries@, p, 0);
    lemma_ascend_from(scope.ancestors@, p, levels, 0);
    match ascend(scope, p, levels) {
        Some((d, i)) => {
            assert(in_reach(scope, d, levels, SearchDirection::Parent));
            assert(glob_accepts(p, d.entries@[i].name@));
        },
        None => {
            assert forall|d: DirListing, i: int|
                in_reach(scope, d, levels, SearchDirection::Parent) && 0 <= i
                    < d.entries@.len() implies !glob_accepts(p, #[trigger] d.entries@[i].name@) by {
                if d != scope.start {
                    let k = choose|k: int|
                        0 <= k < scope.ancestors@.len() && k < levels
                            && #[trigger] scope.ancestors@[k] == d;
                    assert(!glob_accepts(p, scope.ancestors@[k].entries@[i].name@));
                }
            }
        },
    }
}

/// In either direction a search finds an entry exactly when one that the
/// pattern accepts is listed by a directory that the search may look at, and
/// what it finds is such an entry.
pub proof fn lemma_locate_finds_what_is_in_reach(
    scope: SearchScope,
    p: Seq<char>,
    levels: nat,
    direction: SearchDirection,
)
    ensures
        locate(scope, p, levels, direction) is Some <==> match_in_reach(
            scope,
            p,
            levels,
            direction,
        ),
        locate(scope, p, levels, direction) matches Some((d, i)) ==> in_reach(
            scope,
            d,
            levels,
            direction,
        ) && 0 <= i < d.entries@.len() && glob_accepts(p, d.entries@[i].name@),
{
    match direction {
        SearchDirection::Parent => {
            lemma_ascend_looks_at_chain_only(scope, p, levels);
        },
        SearchDirection::Child => {
            lemma_descend_finds_within_depth(scope.start, p, levels);
        },
    }
}

} // verus!
