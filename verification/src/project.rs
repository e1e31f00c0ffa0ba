//! The project below a starting directory: its project file, its name, and
//! the libraries that its build leaves behind.

use crate::locator::{
    descend, plain_names, search_down, subdir, within, DirEntry, DirListing, EntryKind, Hit,
};
use crate::pattern::separator_free;
use crate::paths::{
    absolute_or_raw, is_absolute_offer, is_offer, relative_or_raw, OfferedPath,
};
use crate::text::{ends_with, has_suffix, joined, strip_suffix, texts, without_suffix};
use vstd::prelude::*;

verus! {

/// How many directories below its start a search for a project file or for a
/// library goes.
pub const SEARCH_DEPTH: usize = 3;

/// A project, as its project file describes it.
#[derive(Clone, Debug)]
pub struct ProjectInfo {
    /// The project file's name, extension included.
    pub full_project_name: String,
    /// The project file's name without its extension.
    pub project_name: String,
    /// The directory that holds the project file.
    pub csproj_dir: String,
}

/// A library that was found for a project: its file name, its path as the
/// listing gave it, and the path of the project's directory, from which it
/// was searched for.
#[derive(Clone, Debug)]
pub struct Located {
    pub name: String,
    pub path: String,
    pub dir: String,
}

/// Whether `info` describes the project file that is entry `i` of `d`.
pub open spec fn describes(info: ProjectInfo, d: DirListing, i: int) -> bool {
    &&& info.full_project_name@ == d.entries@[i].name@
    &&& info.project_name@ == without_suffix(d.entries@[i].name@, ".csproj"@)
    &&& info.csproj_dir@ == d.path@
}

/// Whether `found` is entry `i` of `d`.
pub open spec fn points_at(found: Located, d: DirListing, i: int) -> bool {
    &&& found.name@ == d.entries@[i].name@
    &&& found.path@ == d.entries@[i].path@
}

/// The path of the directory that holds the project file below `start`.
pub open spec fn project_dir(start: DirListing) -> Seq<char> {
    match project_hit(start) {
        Some((d, _)) => d.path@,
        None => Seq::empty(),
    }
}

/// The project file below `start`: the first entry named `*.csproj` that a
/// downward search of `SEARCH_DEPTH` levels finds.
pub open spec fn project_hit(start: DirListing) -> Option<Hit> {
    descend(start, "*.csproj"@, SEARCH_DEPTH as nat)
}

/// The library `name` below `dir`: the first entry that matches `name.dll`,
/// read as a pattern, in a downward search of `SEARCH_DEPTH` levels.
pub open spec fn dll_hit(dir: DirListing, name: Seq<char>) -> Option<Hit> {
    descend(dir, name + ".dll"@, SEARCH_DEPTH as nat)
}

/// The library `name` of the project below `start`, searched for from the
/// project's directory, or the reason why there is none.
pub open spec fn dll_in_project(start: DirListing, name: Seq<char>) -> Result<Hit, Seq<char>> {
    match project_hit(start) {
        None => Err("Could not find csproj file"@),
        Some((d, _)) => match dll_hit(d, name) {
            Some(hit) => Ok(hit),
            None => Err("Could not find dll for project. Expected to find "@ + name + ".dll"@),
        },
    }
}

/// The library that carries the project's own name, or the reason why there
/// is none.
pub open spec fn main_dll(start: DirListing) -> Result<Hit, Seq<char>> {
    match project_hit(start) {
        None => Err("No csproj file found"@),
        Some((d, i)) => dll_in_project(start, without_suffix(d.entries@[i].name@, ".csproj"@)),
    }
}

/// A tree whose names are free of separators down to `m` levels is so down to
/// any `n` no greater.
pub proof fn lemma_plain_fewer(dir: DirListing, m: nat, n: nat)
    requires
        plain_names(dir, m),
        n <= m,
    ensures
        plain_names(dir, n),
    decreases n,
{
    if n > 0 {
        assert forall|i: int|
            0 <= i < dir.entries@.len() && subdir(#[trigger] dir.entries@[i]) is Some implies plain_names(
            subdir(dir.entries@[i])->0,
            (n - 1) as nat,
        ) by {
            lemma_plain_fewer(subdir(dir.entries@[i])->0, (m - 1) as nat, (n - 1) as nat);
        }
    }
}

/// In a tree whose names are free of separators down to `a + b` levels, a
/// directory no more than `a` levels down has such names down to `b` levels.
pub proof fn lemma_plain_below(root: DirListing, d: DirListing, a: nat, b: nat)
    requires
        plain_names(root, a + b),
        within(root, d, a),
    ensures
        plain_names(d, b),
    decreases a,
{
    if d == root {
        lemma_plain_fewer(root, a + b, b);
    } else {
        let i = choose|i: int|
            0 <= i < root.entries@.len() && (#[trigger] subdir(root.entries@[i])) is Some && within(
                subdir(root.entries@[i])->0,
                d,
                (a - 1) as nat,
            );
        assert(plain_names(subdir(root.entries@[i])->0, (a + b - 1) as nat));
        lemma_plain_below(subdir(root.entries@[i])->0, d, (a - 1) as nat, b);
    }
}

/// Finds the project file below `start`.
pub fn find_project<'a>(start: &'a DirListing) -> (r: Option<(&'a DirListing, usize)>)
    ensures
        plain_names(*start, SEARCH_DEPTH as nat) ==> (match r {
            Some((d, i)) => project_hit(*start) == Some((*d, i as int)),
            None => project_hit(*start) is None,
        }),
        r matches Some((d, i)) ==> within(*start, *d, SEARCH_DEPTH as nat) && i < d.entries@.len(),
{
    proof {
        reveal_strlit("*.csproj");
    }
    search_down(start, "*.csproj", SEARCH_DEPTH)
}

/// What holds of the path of the project file below `start`: where no name
/// that the search looks at holds a path separator, it is the path of the
/// entry that `project_hit` names; in any case it is the path of an entry no
/// more than `SEARCH_DEPTH` directories below the start.
pub open spec fn is_csproj_path(start: DirListing, r: Option<String>) -> bool {
    &&& plain_names(start, SEARCH_DEPTH as nat) ==> (match r {
        Some(path) => project_hit(start) matches Some((d, i)) && path@ == d.entries@[i].path@,
        None => project_hit(start) is None,
    })
    &&& r matches Some(path) ==> exists|d: DirListing, i: int|
        within(start, d, SEARCH_DEPTH as nat) && 0 <= i < d.entries@.len()
            && #[trigger] d.entries@[i].path@ == path@
}

/// The path of the project file below `start`.
pub fn get_csproj_path(start: &DirListing) -> (r: Option<String>)
    ensures
        is_csproj_path(*start, r),
{
    match find_project(start) {
        Some((d, i)) => {
            let path = d.entries[i].path.clone();
            assert(d.entries@[i as int].path@ == path@);
            Some(path)
        },
        None => None,
    }
}

/// What holds of the description of the project below `start`: where no
/// name that the search looks at holds a path separator, it describes the
/// entry that `project_hit` names, and fails where there is none; in any case
/// it describes an entry no more than `SEARCH_DEPTH` directories below the
/// start, and fails in fixed words.
pub open spec fn is_project_info(start: DirListing, r: Result<ProjectInfo, String>) -> bool {
    &&& plain_names(start, SEARCH_DEPTH as nat) ==> (match r {
        Ok(info) => project_hit(start) matches Some((d, i)) && describes(info, d, i),
        Err(_) => project_hit(start) is None,
    })
    &&& r matches Ok(info) ==> exists|d: DirListing, i: int|
        #![trigger d.entries@[i]]
        within(start, d, SEARCH_DEPTH as nat) && 0 <= i < d.entries@.len() && describes(
            info,
            d,
            i,
        )
    &&& r matches Err(e) ==> e@ == "No csproj file found"@
}

/// Describes the project below `start`: the name of its project file, that
/// name without the extension `.csproj`, and the directory that holds the
/// file.
pub fn get_project_info(start: &DirListing) -> (r: Result<ProjectInfo, String>)
    ensures
        is_project_info(*start, r),
{
    match find_project(start) {
        Some((d, i)) => {
            let entry = &d.entries[i];
            let info = ProjectInfo {
                full_project_name: entry.name.clone(),
                project_name: strip_suffix(entry.name.as_str(), ".csproj"),
                csproj_dir: d.path.clone(),
            };
            assert(describes(info, *d, i as int));
            Ok(info)
        },
        None => Err("No csproj file found".to_owned()),
    }
}

/// What holds of the name of the project below `start`: where no name that
/// the search looks at holds a path separator, it is the name of the entry
/// that `project_hit` names, without the extension; in any case it is such a
/// name of an entry no more than `SEARCH_DEPTH` directories below the start.
pub open spec fn is_project_name(start: DirListing, r: Result<String, String>) -> bool {
    &&& plain_names(start, SEARCH_DEPTH as nat) ==> (match r {
        Ok(name) => project_hit(start) matches Some((d, i)) && name@ == without_suffix(
            d.entries@[i].name@,
            ".csproj"@,
        ),
        Err(_) => project_hit(start) is None,
    })
    &&& r matches Ok(name) ==> exists|d: DirListing, i: int|
        within(start, d, SEARCH_DEPTH as nat) && 0 <= i < d.entries@.len() && name@
            == without_suffix(#[trigger] d.entries@[i].name@, ".csproj"@)
    &&& r matches Err(e) ==> e@ == "No csproj file found"@
}

/// The name of the project below `start`: its project file's name without
/// the extension.
pub fn get_project_name(start: &DirListing) -> (r: Result<String, String>)
    ensures
        is_project_name(*start, r),
{
    match find_project(start) {
        Some((d, i)) => Ok(strip_suffix(d.entries[i].name.as_str(), ".csproj")),
        None => Err("No csproj file found".to_owned()),
    }
}

/// Searches the project's directory for the library `name`.
pub fn find_dll<'a>(dir: &'a DirListing, name: &str) -> (r: Result<(&'a DirListing, usize), String>)
    ensures
        separator_free(name@) && plain_names(*dir, SEARCH_DEPTH as nat) ==> (match r {
            Ok((d, i)) => dll_hit(*dir, name@) == Some((*d, i as int)),
            Err(_) => dll_hit(*dir, name@) is None,
        }),
        r matches Ok((d, i)) ==> within(*dir, *d, SEARCH_DEPTH as nat) && i < d.entries@.len(),
        r matches Err(e) ==> e@ == "Could not find dll for project. Expected to find "@ + name@
            + ".dll"@,
{
    proof {
        reveal_strlit(".dll");
    }
    let dll_name = joined(name, ".dll");
    match search_down(dir, dll_name.as_str(), SEARCH_DEPTH) {
        Some(hit) => Ok(hit),
        None => {
            let e = joined("Could not find dll for project. Expected to find ", dll_name.as_str());
            assert(e@ =~= "Could not find dll for project. Expected to find "@ + name@ + ".dll"@);
            Err(e)
        },
    }
}

/// Finds the library `name` of the project below `start`: the entry and its
/// path as the listing gave it.
pub fn locate_project_dll(name: &str, start: &DirListing) -> (r: Result<Located, String>)
    ensures
        separator_free(name@) && plain_names(*start, 2 * SEARCH_DEPTH as nat) ==> (match r {
            Ok(found) => {
                &&& dll_in_project(*start, name@) matches Ok((d, i)) && points_at(found, d, i)
                &&& found.dir@ == project_dir(*start)
            },
            Err(e) => dll_in_project(*start, name@) == Err::<Hit, Seq<char>>(e@),
        }),
        r matches Err(e) ==> e@ == "Could not find csproj file"@ || e@
            == "Could not find dll for project. Expected to find "@ + name@ + ".dll"@,
{
    let (dir, _) = match find_project(start) {
        Some(hit) => hit,
        None => {
            proof {
                if plain_names(*start, 2 * SEARCH_DEPTH as nat) {
                    lemma_plain_fewer(*start, 2 * SEARCH_DEPTH as nat, SEARCH_DEPTH as nat);
                }
            }
            return Err("Could not find csproj file".to_owned());
        },
    };
    proof {
        if plain_names(*start, 2 * SEARCH_DEPTH as nat) {
            lemma_plain_fewer(*start, 2 * SEARCH_DEPTH as nat, SEARCH_DEPTH as nat);
            lemma_plain_below(*start, *dir, SEARCH_DEPTH as nat, SEARCH_DEPTH as nat);
        }
    }
    match find_dll(dir, name) {
        Ok((d, i)) => {
            let found = Located {
                name: d.entries[i].name.clone(),
                path: d.entries[i].path.clone(),
                dir: dir.path.clone(),
            };
            assert(points_at(found, *d, i as int));
            Ok(found)
        },
        Err(e) => Err(e),
    }
}

/// The path to hand out for a library that was found: absolute where
/// `absolute` is set, else relative to the project's directory; the path as
/// the listing gave it where it cannot be converted.
pub fn offered_path(absolute: bool, found: Located) -> (offer: OfferedPath)
    ensures
        is_offer(offer, absolute, found.path@, found.dir@),
{
    if absolute {
        absolute_or_raw(found.path)
    } else {
        relative_or_raw(found.path, found.dir.as_str())
    }
}

/// The path of the library `name` of the project below `start`: absolute
/// where `absolute` is set, else relative to the project's directory; the
/// path as the listing gave it where it cannot be converted. What the
/// conversions gave comes back beside the path. `name` is given without the
/// extension `.dll`.
pub fn get_project_dll_path(absolute: bool, name: String, start: &DirListing) -> (r: Result<
    OfferedPath,
    String,
>)
    ensures
        separator_free(name@) && plain_names(*start, 2 * SEARCH_DEPTH as nat) ==> (match r {
            Ok(offer) => dll_in_project(*start, name@) matches Ok((d, i)) && is_offer(
                offer,
                absolute,
                d.entries@[i].path@,
                project_dir(*start),
            ),
            Err(e) => dll_in_project(*start, name@) == Err::<Hit, Seq<char>>(e@),
        }),
        r matches Ok(offer) ==> is_offer(
            offer,
            absolute,
            crate::paths::raw_of(offer.forms),
            crate::paths::base_of(offer.forms),
        ),
        r matches Err(e) ==> e@ == "Could not find csproj file"@ || e@
            == "Could not find dll for project. Expected to find "@ + name@ + ".dll"@,
{
    match locate_project_dll(name.as_str(), start) {
        Ok(found) => Ok(offered_path(absolute, found)),
        Err(e) => Err(e),
    }
}

/// A text without separators keeps none when a suffix is taken off.
pub proof fn lemma_without_suffix_plain(s: Seq<char>, suffix: Seq<char>)
    requires
        separator_free(s),
    ensures
        separator_free(without_suffix(s, suffix)),
{
    if has_suffix(s, suffix) {
        let t = s.subrange(0, s.len() - suffix.len());
        assert forall|i: int| 0 <= i < t.len() implies t[i] != '/' && t[i] != '\\' by {
            assert(t[i] == s[i]);
        }
    }
}

/// Finds the library that carries the project's own name.
pub fn locate_main_dll(start: &DirListing) -> (r: Result<Located, String>)
    ensures
        plain_names(*start, 2 * SEARCH_DEPTH as nat) ==> (match r {
            Ok(found) => {
                &&& main_dll(*start) matches Ok((d, i)) && points_at(found, d, i)
                &&& found.dir@ == project_dir(*start)
            },
            Err(e) => main_dll(*start) == Err::<Hit, Seq<char>>(e@),
        }),
{
    proof {
        if plain_names(*start, 2 * SEARCH_DEPTH as nat) {
            lemma_plain_fewer(*start, 2 * SEARCH_DEPTH as nat, SEARCH_DEPTH as nat);
        }
    }
    match find_project(start) {
        Some((d, i)) => {
            let name = strip_suffix(d.entries[i].name.as_str(), ".csproj");
            proof {
                if plain_names(*start, 2 * SEARCH_DEPTH as nat) {
                    lemma_plain_below(*start, *d, SEARCH_DEPTH as nat, SEARCH_DEPTH as nat);
                    lemma_plain_fewer(*d, SEARCH_DEPTH as nat, 0);
                    assert(separator_free(d.entries@[i as int].name@));
                    lemma_without_suffix_plain(d.entries@[i as int].name@, ".csproj"@);
                }
            }
            locate_project_dll(name.as_str(), start)
        },
        None => Err("No csproj file found".to_owned()),
    }
}

/// The path of the library that carries the project's own name, absolute or
/// relative to the project's directory as `get_project_dll_path` gives it.
pub fn get_main_dll_path(absolute: bool, start: &DirListing) -> (r: Result<OfferedPath, String>)
    ensures
        plain_names(*start, 2 * SEARCH_DEPTH as nat) ==> (match r {
            Ok(offer) => main_dll(*start) matches Ok((d, i)) && is_offer(
                offer,
                absolute,
                d.entries@[i].path@,
                project_dir(*start),
            ),
            Err(e) => main_dll(*start) == Err::<Hit, Seq<char>>(e@),
        }),
        r matches Ok(offer) ==> is_offer(
            offer,
            absolute,
            crate::paths::raw_of(offer.forms),
            crate::paths::base_of(offer.forms),
        ),
{
    match locate_main_dll(start) {
        Ok(found) => Ok(offered_path(absolute, found)),
        Err(e) => Err(e),
    }
}

/// The paths of the libraries in `dir` and below it, `levels` directories
/// being read in depth: none where `levels` is 0.
pub open spec fn dlls_in(dir: DirListing, levels: nat) -> Seq<Seq<char>>
    decreases levels, 1nat, 0nat,
{
    if levels == 0 {
        Seq::empty()
    } else {
        dlls_from(dir.entries@, levels, 0)
    }
}

/// The paths of the libraries among `entries` from `from` on, in listing
/// order: a file named `*.dll` gives its path, a subdirectory what it holds
/// with one level fewer.
pub open spec fn dlls_from(entries: Seq<DirEntry>, levels: nat, from: int) -> Seq<Seq<char>>
    decreases levels, 0nat, entries.len() - from,
{
    if levels == 0 || from < 0 || from >= entries.len() {
        Seq::empty()
    } else {
        let rest = dlls_from(entries, levels, from + 1);
        match entries[from].kind {
            EntryKind::File => if has_suffix(entries[from].name@, ".dll"@) {
                seq![entries[from].path@] + rest
            } else {
                rest
            },
            EntryKind::Directory(sub) => dlls_in(sub, (levels - 1) as nat) + rest,
            EntryKind::Other => rest,
        }
    }
}

/// Appends to `out` the paths of the libraries in `dir` and below it, as the
/// listing gave them.
pub fn collect_dll_paths(dir: &DirListing, levels: usize, out: &mut Vec<String>)
    ensures
        texts(final(out)@) == texts(old(out)@) + dlls_in(
            *dir,
            levels as nat,
        ),
    decreases levels,
{
    let ghost before = texts(out@);
    if levels == 0 {
        assert(texts(out@) =~= before + dlls_in(*dir, levels as nat));
        return ;
    }
    let mut k: usize = 0;
    while k < dir.entries.len()
        invariant
            levels > 0,
            k <= dir.entries@.len(),
            texts(out@) + dlls_from(dir.entries@, levels as nat, k as int)
                == before + dlls_in(*dir, levels as nat),
        decreases dir.entries@.len() - k,
    {
        let ghost held = texts(out@);
        let ghost rest = dlls_from(dir.entries@, levels as nat, k + 1);
        let entry = &dir.entries[k];
        match &entry.kind {
            EntryKind::File => {
                if ends_with(entry.name.as_str(), ".dll") {
                    out.push(entry.path.clone());
                    assert(texts(out@) =~= held + seq![entry.path@]);
                    assert((held + seq![entry.path@]) + rest =~= held + (seq![entry.path@] + rest));
                }
            },
            EntryKind::Directory(sub) => {
                collect_dll_paths(sub, levels - 1, out);
                assert((held + dlls_in(*sub, (levels - 1) as nat)) + rest =~= held + (dlls_in(
                    *sub,
                    (levels - 1) as nat,
                ) + rest));
            },
            EntryKind::Other => {},
        }
        k = k + 1;
    }
    assert(texts(out@) + Seq::<Seq<char>>::empty() =~= texts(
        out@,
    ));
}

/// Whether `offers` are the absolute forms of the paths `raws`, one for
/// each and in their order.
pub open spec fn are_absolute_offers(offers: Seq<OfferedPath>, raws: Seq<Seq<char>>) -> bool {
    &&& offers.len() == raws.len()
    &&& forall|k: int| 0 <= k < offers.len() ==> is_absolute_offer(#[trigger] offers[k], raws[k])
}

/// What holds of the libraries listed for the project below `start`: they
/// are the absolute forms of the libraries that `dlls_in` names for a
/// directory no more than `SEARCH_DEPTH` levels down, which is the project's
/// directory where no name that the search looks at holds a path separator;
/// without a project there is none, in fixed words.
pub open spec fn is_dll_list(start: DirListing, r: Result<Vec<OfferedPath>, String>) -> bool {
    &&& plain_names(start, SEARCH_DEPTH as nat) ==> (match r {
        Ok(offers) => project_hit(start) matches Some((d, _)) && are_absolute_offers(
            offers@,
            dlls_in(d, SEARCH_DEPTH as nat),
        ),
        Err(_) => project_hit(start) is None,
    })
    &&& r matches Ok(offers) ==> exists|d: DirListing| #[trigger]
        within(start, d, SEARCH_DEPTH as nat) && are_absolute_offers(
            offers@,
            dlls_in(d, SEARCH_DEPTH as nat),
        )
    &&& r matches Err(e) ==> e@ == "No csproj file found"@
}

/// The absolute paths of all libraries of the project below `start`: those in
/// the project's directory and down to two directories below it, in listing
/// order. A path that cannot be made absolute stays as the listing gave it.
/// What the conversion gave comes back beside each path.
pub fn get_all_project_dll_paths(start: &DirListing) -> (r: Result<Vec<OfferedPath>, String>)
    ensures
        is_dll_list(*start, r),
{
    let (dir, _) = match find_project(start) {
        Some(hit) => hit,
        None => {
            return Err("No csproj file found".to_owned());
        },
    };
    let mut raw: Vec<String> = Vec::new();
    collect_dll_paths(dir, SEARCH_DEPTH, &mut raw);
    assert(texts(raw@) =~= dlls_in(*dir, SEARCH_DEPTH as nat));
    let mut offers: Vec<OfferedPath> = Vec::new();
    let mut k: usize = 0;
    while k < raw.len()
        invariant
            k <= raw@.len(),
            offers@.len() == k,
            forall|j: int| 0 <= j < k ==> is_absolute_offer(#[trigger] offers@[j], raw@[j]@),
        decreases raw@.len() - k,
    {
        offers.push(absolute_or_raw(raw[k].clone()));
        k = k + 1;
    }
    assert(are_absolute_offers(offers@, dlls_in(*dir, SEARCH_DEPTH as nat))) by {
        assert forall|j: int| 0 <= j < offers@.len() implies is_absolute_offer(
            #[trigger] offers@[j],
            dlls_in(*dir, SEARCH_DEPTH as nat)[j],
        ) by {
            assert(texts(raw@)[j] == raw@[j]@);
        }
    }
    Ok(offers)
}

/// The absolute path of the directory `node_modules` below `start`, or its
/// path as the listing gave it where it cannot be made absolute.
pub fn find_node_modules_path(start: &DirListing) -> (r: Option<OfferedPath>)
    ensures
        plain_names(*start, SEARCH_DEPTH as nat) ==> (match r {
            Some(offer) => descend(*start, "node_modules"@, SEARCH_DEPTH as nat) matches Some(
                (d, i),
            ) && is_absolute_offer(offer, d.entries@[i].path@),
            None => descend(*start, "node_modules"@, SEARCH_DEPTH as nat) is None,
        }),
        r matches Some(offer) ==> exists|d: DirListing, i: int|
            within(*start, d, SEARCH_DEPTH as nat) && 0 <= i < d.entries@.len()
                && is_absolute_offer(offer, #[trigger] d.entries@[i].path@),
{
    proof {
        reveal_strlit("node_modules");
    }
    match search_down(start, "node_modules", SEARCH_DEPTH) {
        Some((d, i)) => {
            let offer = absolute_or_raw(d.entries[i].path.clone());
            assert(is_absolute_offer(offer, d.entries@[i as int].path@));
            Some(offer)
        },
        None => None,
    }
}

} // verus!
