//! The export of an add-in: its libraries go into a directory of their own
//! below the destination, its manifest beside that directory. Every failure
//! on the way ends up in the ledger; only one that leaves nothing to do ends
//! the export early.

use crate::error_list::{record, Entry, ErrorList, LedgerView};
use crate::fallback::{build_due, build_project, BuildOutcome, ChainStep};
use crate::locator::{plain_names, DirListing};
use crate::manifest::{
    handle_addin_file, manifest_due, ManifestFile, ManifestProgress, ManifestStep,
};
use crate::paths::{absolute_or_raw, is_absolute_offer, raw_of, OfferedPath};
use crate::pattern::separator_free;
use crate::locator::Hit;
use crate::project::{
    dll_in_project, get_project_name, locate_main_dll, locate_project_dll, main_dll, project_hit,
    SEARCH_DEPTH,
};
use crate::text::{joined, texts, without_suffix};
use vstd::prelude::*;
use vstd::string::*;

verus! {

/// A library to copy: its file name and its path, in the absolute form where
/// that could be had, with what the conversion gave beside it.
#[derive(Debug)]
pub struct Artifact {
    pub name: String,
    pub path: OfferedPath,
}

impl Clone for Artifact {
    fn clone(&self) -> (copy: Self)
        ensures
            copy == *self,
    {
        Artifact { name: self.name.clone(), path: self.path.clone() }
    }
}

/// Whether the path of `artifact` is the absolute form of the path that it
/// was made from, chosen as `chosen` says.
pub open spec fn well_offered(artifact: Artifact) -> bool {
    is_absolute_offer(artifact.path, raw_of(artifact.path.forms))
}

/// What an export is going to copy.
#[derive(Debug)]
pub struct ExportPlan {
    /// The project's name: the name of the directory that the libraries go
    /// into, and of the manifest.
    pub project_name: String,
    /// The libraries to copy, the project's own first.
    pub artifacts: Vec<Artifact>,
    /// What planning has recorded.
    pub ledger: ErrorList,
}

/// A ledger with one more error.
pub open spec fn with_error(l: LedgerView, text: Seq<char>) -> LedgerView {
    record(l, Entry::Error(text))
}

/// A ledger with one more warning.
pub open spec fn with_warning(l: LedgerView, text: Seq<char>) -> LedgerView {
    record(l, Entry::Warning(text))
}

/// The ledger without entries.
pub open spec fn empty_ledger() -> LedgerView {
    LedgerView { errors: Seq::empty(), warnings: Seq::empty() }
}

/// The words for an extra library that was not found.
pub open spec fn missing_extra(name: Seq<char>, why: Seq<char>) -> Seq<char> {
    "Warning: could not find DLL for "@ + name + ": "@ + why
}

/// The warnings that planning records for the extra libraries up to `upto`:
/// one for each that is not found, in the order of the names.
pub open spec fn extra_warnings(start: DirListing, extras: Seq<String>, upto: int) -> Seq<
    Seq<char>,
>
    decreases upto,
{
    if upto <= 0 {
        Seq::empty()
    } else {
        let before = extra_warnings(start, extras, upto - 1);
        match dll_in_project(start, extras[upto - 1]@) {
            Ok(_) => before,
            Err(why) => before.push(missing_extra(extras[upto - 1]@, why)),
        }
    }
}

/// The names of the extra libraries up to `upto` that are found, in the
/// order of the names.
pub open spec fn extras_found(start: DirListing, extras: Seq<String>, upto: int) -> Seq<Seq<char>>
    decreases upto,
{
    if upto <= 0 {
        Seq::empty()
    } else {
        let before = extras_found(start, extras, upto - 1);
        match dll_in_project(start, extras[upto - 1]@) {
            Ok((d, i)) => before.push(d.entries@[i].name@),
            Err(_) => before,
        }
    }
}

/// The paths, as the listing gave them, of the extra libraries up to `upto`
/// that are found, in the order of the names.
pub open spec fn extras_found_at(start: DirListing, extras: Seq<String>, upto: int) -> Seq<
    Seq<char>,
>
    decreases upto,
{
    if upto <= 0 {
        Seq::empty()
    } else {
        let before = extras_found_at(start, extras, upto - 1);
        match dll_in_project(start, extras[upto - 1]@) {
            Ok((d, i)) => before.push(d.entries@[i].path@),
            Err(_) => before,
        }
    }
}

/// The file names of planned libraries.
pub open spec fn artifact_names(artifacts: Seq<Artifact>) -> Seq<Seq<char>> {
    Seq::new(artifacts.len(), |i: int| artifacts[i].name@)
}

/// The paths, as the listing gave them, that the planned libraries' paths
/// were made from.
pub open spec fn artifact_raws(artifacts: Seq<Artifact>) -> Seq<Seq<char>> {
    Seq::new(artifacts.len(), |i: int| raw_of(artifacts[i].path.forms))
}

/// Whether each of the libraries is well offered.
pub open spec fn all_well_offered(artifacts: Seq<Artifact>) -> bool {
    forall|k: int| 0 <= k < artifacts.len() ==> well_offered(#[trigger] artifacts[k])
}

/// Whether none of the names holds a path separator.
pub open spec fn plain_extras(extras: Seq<String>) -> bool {
    forall|i: int| 0 <= i < extras.len() ==> separator_free(#[trigger] extras[i]@)
}

/// Whether no name that planning looks at holds a path separator: none in
/// the listing down to where libraries are searched, and none of the extra
/// libraries' names.
pub open spec fn plain_for_plan(start: DirListing, extras: Seq<String>) -> bool {
    plain_names(start, 2 * SEARCH_DEPTH as nat) && plain_extras(extras)
}

/// What holds of a plan for the project below `start` with the extra
/// libraries `extras`. Where no name in the listing holds a path separator,
/// it is fixed whether there is a plan, with which error there is none, and
/// which project and which library of its own the plan is for. Where none of
/// the extra names holds one either, it is fixed which libraries are planned
/// and which path of the listing each path was made from. Of every plan the
/// counts at the end hold, and each library's path is the absolute form that
/// was made for it, or the path it was made from where none could be made.
pub open spec fn planned(start: DirListing, extras: Seq<String>, r: Result<ExportPlan, ErrorList>)
    -> bool {
    &&& plain_names(start, 2 * SEARCH_DEPTH as nat) ==> (match r {
        Ok(plan) => {
            &&& project_hit(start) matches Some((d, i)) && plan.project_name@ == without_suffix(
                d.entries@[i].name@,
                ".csproj"@,
            )
            &&& main_dll(start) matches Ok((d, i)) && plan.artifacts@.len() >= 1
                && plan.artifacts@[0].name@ == d.entries@[i].name@ && is_absolute_offer(
                plan.artifacts@[0].path,
                d.entries@[i].path@,
            )
        },
        Err(ledger) => {
            &&& ledger@.warnings.len() == 0
            &&& if project_hit(start) is None {
                ledger@.errors
                    == seq![
                    "Error getting project info. Ensure you have a .csproj file in the current directory."@,
                ]
            } else {
                main_dll(start) matches Err(why) && ledger@.errors
                    == seq!["Error getting project DLL path: "@ + why]
            }
        },
    })
    &&& plain_for_plan(start, extras) ==> (r matches Ok(plan) ==> {
        &&& main_dll(start) matches Ok((d, i)) && artifact_names(plan.artifacts@)
            == seq![d.entries@[i].name@] + extras_found(start, extras, extras.len() as int)
        &&& main_dll(start) matches Ok((d, i)) && artifact_raws(plan.artifacts@)
            == seq![d.entries@[i].path@] + extras_found_at(start, extras, extras.len() as int)
        &&& plan.ledger@.warnings == extra_warnings(start, extras, extras.len() as int)
    })
    &&& r matches Ok(plan) ==> plan.artifacts@.len() >= 1 && plan.ledger@.errors.len() == 0
        && all_well_offered(plan.artifacts@)
    &&& r matches Err(ledger) ==> ledger@.errors.len() == 1 && ledger@.warnings.len() == 0
}

/// What the search for one extra library gave.
#[derive(Debug)]
pub struct ExtraSearch {
    /// The library's name, without extension.
    pub name: String,
    /// The library found, or why there is none.
    pub found: Result<Artifact, String>,
}

/// The libraries of a plan: the project's own first, then the extra ones
/// that were found among the first `upto`, in their order.
pub open spec fn drawn_artifacts(main: Artifact, extras: Seq<ExtraSearch>, upto: int) -> Seq<
    Artifact,
>
    decreases upto,
{
    if upto <= 0 {
        seq![main]
    } else {
        let before = drawn_artifacts(main, extras, upto - 1);
        match extras[upto - 1].found {
            Ok(found) => before.push(found),
            Err(_) => before,
        }
    }
}

/// The warnings of a plan: one for each extra library among the first `upto`
/// that was not found, in their order.
pub open spec fn drawn_warnings(extras: Seq<ExtraSearch>, upto: int) -> Seq<Seq<char>>
    decreases upto,
{
    if upto <= 0 {
        Seq::empty()
    } else {
        let before = drawn_warnings(extras, upto - 1);
        match extras[upto - 1].found {
            Ok(_) => before,
            Err(why) => before.push(missing_extra(extras[upto - 1].name@, why@)),
        }
    }
}

/// The project's own library is the first that is drawn.
pub proof fn lemma_own_library_first(own: Artifact, extras: Seq<ExtraSearch>, upto: int)
    ensures
        drawn_artifacts(own, extras, upto).len() >= 1,
        drawn_artifacts(own, extras, upto)[0] == own,
    decreases upto,
{
    if upto > 0 {
        lemma_own_library_first(own, extras, upto - 1);
    }
}

/// Whether `r` is the plan for what the searches gave.
pub open spec fn drawn_up(
    project: Result<String, String>,
    main: Result<Artifact, String>,
    extras: Seq<ExtraSearch>,
    r: Result<ExportPlan, ErrorList>,
) -> bool {
    match project {
        Err(_) => r matches Err(ledger) && ledger@ == with_error(
            empty_ledger(),
            "Error getting project info. Ensure you have a .csproj file in the current directory."@,
        ),
        Ok(name) => match main {
            Err(why) => r matches Err(ledger) && ledger@ == with_error(
                empty_ledger(),
                "Error getting project DLL path: "@ + why@,
            ),
            Ok(own) => {
                let all = drawn_artifacts(own, extras, extras.len() as int);
                &&& r matches Ok(plan)
                &&& r->Ok_0.project_name@ == name@
                &&& r->Ok_0.artifacts@ == all
                &&& r->Ok_0.ledger@.errors.len() == 0
                &&& r->Ok_0.ledger@.warnings == drawn_warnings(extras, extras.len() as int)
            },
        },
    }
}

/// Draws up the plan of an export from what the searches gave: the
/// project's name, the project's own library, and each extra library.
///
/// Without a project nothing can be exported: the plan fails with that one
/// error and no warning. The project's own library is needed: where it was
/// not found, the plan fails with that one error and nothing is copied. An
/// extra library that was not found is left out with a warning, and the plan
/// goes on.
pub fn draw_up_plan(
    project: Result<String, String>,
    main: Result<Artifact, String>,
    extras: &Vec<ExtraSearch>,
) -> (r: Result<ExportPlan, ErrorList>)
    ensures
        drawn_up(project, main, extras@, r),
        r matches Ok(plan) ==> plan.artifacts@.len() >= 1,
{
    let project_name = match project {
        Ok(name) => name,
        Err(_) => {
            return Err(
                ErrorList::new_with_error(
                    "Error getting project info. Ensure you have a .csproj file in the current directory.",
                ),
            );
        },
    };
    let own = match main {
        Ok(own) => own,
        Err(why) => {
            return Err(
                ErrorList::new_with_error(
                    joined("Error getting project DLL path: ", why.as_str()).as_str(),
                ),
            );
        },
    };
    let mut artifacts: Vec<Artifact> = Vec::new();
    artifacts.push(own.clone());
    assert(artifacts@ =~= drawn_artifacts(own, extras@, 0));
    let mut ledger = ErrorList::new();
    let mut k: usize = 0;
    while k < extras.len()
        invariant
            k <= extras@.len(),
            artifacts@.len() >= 1,
            ledger@.errors.len() == 0,
            artifacts@ == drawn_artifacts(own, extras@, k as int),
            ledger@.warnings == drawn_warnings(extras@, k as int),
        decreases extras@.len() - k,
    {
        match &extras[k].found {
            Ok(found) => {
                artifacts.push(found.clone());
                assert(artifacts@ =~= drawn_artifacts(own, extras@, k + 1));
            },
            Err(why) => {
                let mut words = joined("Warning: could not find DLL for ", extras[k].name.as_str());
                words.append(": ");
                words.append(why.as_str());
                assert(words@ =~= missing_extra(extras@[k as int].name@, why@));
                ledger.add_warning(words.as_str());
            },
        }
        k = k + 1;
    }
    Ok(ExportPlan { project_name, artifacts, ledger })
}

/// Whether `found` is what a search for the library `name` of the project
/// below `start` gave, where no name that the search looks at holds a path
/// separator: the library's file name and the path that was made absolute
/// where there is one, else the reason.
pub open spec fn is_extra_search(start: DirListing, name: Seq<char>, search: ExtraSearch) -> bool {
    &&& search.name@ == name
    &&& match search.found {
        Ok(found) => dll_in_project(start, name) matches Ok((d, i)) && found.name@
            == d.entries@[i].name@ && raw_of(found.path.forms) == d.entries@[i].path@,
        Err(why) => dll_in_project(start, name) == Err::<Hit, Seq<char>>(why@),
    }
}

/// Whether every library that the searches found is well offered.
pub open spec fn found_well_offered(searches: Seq<ExtraSearch>) -> bool {
    forall|j: int|
        0 <= j < searches.len() && (#[trigger] searches[j]).found is Ok ==> well_offered(
            searches[j].found->Ok_0,
        )
}

/// What is drawn from well offered libraries is well offered.
proof fn lemma_drawn_well_offered(own: Artifact, searches: Seq<ExtraSearch>, upto: int)
    requires
        0 <= upto <= searches.len(),
        well_offered(own),
        found_well_offered(searches),
    ensures
        all_well_offered(drawn_artifacts(own, searches, upto)),
    decreases upto,
{
    if upto > 0 {
        lemma_drawn_well_offered(own, searches, upto - 1);
        assert(searches[upto - 1].found is Ok ==> well_offered(searches[upto - 1].found->Ok_0));
    }
}

/// What was drawn from searches that went as `is_extra_search` says is what
/// `extras_found` and `extra_warnings` name.
proof fn lemma_drawn_is_planned(
    start: DirListing,
    own: Artifact,
    names: Seq<String>,
    searches: Seq<ExtraSearch>,
    upto: int,
)
    requires
        0 <= upto <= searches.len(),
        searches.len() <= names.len(),
        forall|j: int| 0 <= j < upto ==> is_extra_search(start, names[j]@, #[trigger] searches[j]),
    ensures
        artifact_names(drawn_artifacts(own, searches, upto)) == seq![own.name@] + extras_found(
            start,
            names,
            upto,
        ),
        artifact_raws(drawn_artifacts(own, searches, upto)) == seq![raw_of(own.path.forms)]
            + extras_found_at(start, names, upto),
        drawn_warnings(searches, upto) == extra_warnings(start, names, upto),
    decreases upto,
{
    if upto > 0 {
        lemma_drawn_is_planned(start, own, names, searches, upto - 1);
        assert(is_extra_search(start, names[upto - 1]@, searches[upto - 1]));
        let before = drawn_artifacts(own, searches, upto - 1);
        match searches[upto - 1].found {
            Ok(found) => {
                assert(artifact_names(before.push(found)) =~= artifact_names(before).push(
                    found.name@,
                ));
                assert(artifact_names(before).push(found.name@) =~= seq![own.name@]
                    + extras_found(start, names, upto));
                assert(artifact_raws(before.push(found)) =~= artifact_raws(before).push(
                    raw_of(found.path.forms),
                ));
                assert(artifact_raws(before).push(raw_of(found.path.forms)) =~= seq![
                    raw_of(own.path.forms),
                ] + extras_found_at(start, names, upto));
            },
            Err(_) => {},
        }
    } else {
        assert(artifact_names(drawn_artifacts(own, searches, upto)) =~= seq![own.name@]
            + extras_found(start, names, upto));
        assert(artifact_raws(drawn_artifacts(own, searches, upto)) =~= seq![
            raw_of(own.path.forms),
        ] + extras_found_at(start, names, upto));
    }
}

/// Plans the export of the project below `start` with the extra libraries
/// `extra_dlls`, given by name without extension: searches for the project,
/// for its own library and for each extra library, and draws up the plan as
/// `draw_up_plan` does it. The libraries found are planned under their file
/// names, with their absolute paths where those can be had.
pub fn plan_export(start: &DirListing, extra_dlls: &Vec<String>) -> (r: Result<
    ExportPlan,
    ErrorList,
>)
    ensures
        planned(*start, extra_dlls@, r),
{
    proof {
        if plain_names(*start, 2 * SEARCH_DEPTH as nat) {
            crate::project::lemma_plain_fewer(
                *start,
                2 * SEARCH_DEPTH as nat,
                SEARCH_DEPTH as nat,
            );
        }
    }
    let project = get_project_name(start);
    let main = match locate_main_dll(start) {
        Ok(found) => Ok(Artifact { name: found.name, path: absolute_or_raw(found.path) }),
        Err(why) => Err(why),
    };
    let mut searches: Vec<ExtraSearch> = Vec::new();
    let mut k: usize = 0;
    while k < extra_dlls.len()
        invariant
            k <= extra_dlls@.len(),
            searches@.len() == k,
            found_well_offered(searches@),
            plain_for_plan(*start, extra_dlls@) ==> forall|j: int|
                0 <= j < k ==> is_extra_search(*start, extra_dlls@[j]@, #[trigger] searches@[j]),
        decreases extra_dlls@.len() - k,
    {
        let found = match locate_project_dll(extra_dlls[k].as_str(), start) {
            Ok(found) => Ok(Artifact { name: found.name, path: absolute_or_raw(found.path) }),
            Err(why) => Err(why),
        };
        let search = ExtraSearch { name: extra_dlls[k].clone(), found };
        assert(search.found is Ok ==> well_offered(search.found->Ok_0));
        assert(plain_for_plan(*start, extra_dlls@) ==> is_extra_search(
            *start,
            extra_dlls@[k as int]@,
            search,
        ));
        searches.push(search);
        k = k + 1;
    }
    proof {
        if main is Ok {
            lemma_own_library_first(main->Ok_0, searches@, searches@.len() as int);
            lemma_drawn_well_offered(main->Ok_0, searches@, searches@.len() as int);
            if plain_for_plan(*start, extra_dlls@) {
                lemma_drawn_is_planned(
                    *start,
                    main->Ok_0,
                    extra_dlls@,
                    searches@,
                    searches@.len() as int,
                );
            }
        }
    }
    let r = draw_up_plan(project, main, &searches);
    proof {
        if r is Ok {
            let all = drawn_artifacts(main->Ok_0, searches@, searches@.len() as int);
            assert(r->Ok_0.artifacts@[0] == all[0]);
        }
    }
    r
}

/// What came of copying one library.
#[derive(Debug)]
pub enum CopyOutcome {
    /// There is no file at the library's path.
    Missing,
    Copied,
    /// The copy failed; with the system's reason.
    Failed(String),
}

/// What has been observed so far during an export.
#[derive(Debug)]
pub struct ExportProgress {
    pub manifest: ManifestProgress,
    /// What the build tools tried so far made of the project.
    pub builds: Vec<BuildOutcome>,
    /// What came of creating the add-in's directory.
    pub directory: Option<Result<(), String>>,
    /// What came of copying the planned libraries, in the plan's order.
    pub copies: Vec<CopyOutcome>,
    /// What came of copying the manifest.
    pub manifest_copy: Option<Result<(), String>>,
}

impl ExportProgress {
    /// The progress of an export that has not begun.
    pub fn new() -> (progress: Self)
        ensures
            progress.manifest.contents is None,
            progress.manifest.preferences is None,
            progress.manifest.answers is None,
            progress.manifest.written is None,
            progress.builds@.len() == 0,
            progress.directory is None,
            progress.copies@.len() == 0,
            progress.manifest_copy is None,
    {
        ExportProgress {
            manifest: ManifestProgress::new(),
            builds: Vec::new(),
            directory: None,
            copies: Vec::new(),
            manifest_copy: None,
        }
    }
}

/// What an export does next.
#[derive(Debug)]
pub enum ExportStep {
    /// Take this step for the manifest.
    Manifest(ManifestStep),
    /// Take this step of the build.
    Build(ChainStep),
    /// Create the directory `name` below the destination, with any
    /// directory that is missing above it; one that is there already is
    /// fine.
    CreateDirectory { name: String },
    /// Copy library `index` of the plan, the file at `path`, into the
    /// directory `into` below the destination, under `file_name`.
    CopyArtifact { index: usize, path: String, file_name: String, into: String },
    /// Copy the manifest `file` into the destination, under `file_name`.
    CopyManifest { file: ManifestFile, file_name: String },
    /// The export has ended; the ledger tells how.
    Done(ErrorList),
}

/// What an export step amounts to.
pub enum ExportStepView {
    Manifest(ManifestStep),
    Build(ChainStep),
    CreateDirectory { name: Seq<char> },
    CopyArtifact { index: int, path: Seq<char>, file_name: Seq<char>, into: Seq<char> },
    CopyManifest { file: ManifestFile, file_name: Seq<char> },
    Done(LedgerView),
}

impl View for ExportStep {
    type V = ExportStepView;

    open spec fn view(&self) -> ExportStepView {
        match *self {
            ExportStep::Manifest(m) => ExportStepView::Manifest(m),
            ExportStep::Build(b) => ExportStepView::Build(b),
            ExportStep::CreateDirectory { name } => ExportStepView::CreateDirectory { name: name@ },
            ExportStep::CopyArtifact { index, path, file_name, into } => ExportStepView::CopyArtifact {
                index: index as int,
                path: path@,
                file_name: file_name@,
                into: into@,
            },
            ExportStep::CopyManifest { file, file_name } => ExportStepView::CopyManifest {
                file,
                file_name: file_name@,
            },
            ExportStep::Done(ledger) => ExportStepView::Done(ledger@),
        }
    }
}

/// The ledger after one library was seen to: a warning where it is missing
/// or was copied, an error where the copy failed.
pub open spec fn after_copy(l: LedgerView, artifact: Artifact, outcome: CopyOutcome) -> LedgerView {
    match outcome {
        CopyOutcome::Missing => with_warning(
            l,
            "Warning: DLL not found at path: "@ + artifact.path.path@,
        ),
        CopyOutcome::Copied => with_warning(l, "Successfully copied DLL: "@ + artifact.name@),
        CopyOutcome::Failed(why) => with_error(
            l,
            "Error copying DLL "@ + artifact.name@ + ": "@ + why@,
        ),
    }
}

/// The ledger after the first `upto` libraries were seen to.
pub open spec fn after_copies(
    l: LedgerView,
    artifacts: Seq<Artifact>,
    copies: Seq<CopyOutcome>,
    upto: int,
) -> LedgerView
    decreases upto,
{
    if upto <= 0 {
        l
    } else {
        after_copy(
            after_copies(l, artifacts, copies, upto - 1),
            artifacts[upto - 1],
            copies[upto - 1],
        )
    }
}

/// The ledger after the build: an error where it failed.
pub open spec fn after_build(l: LedgerView, built: Result<String, String>) -> LedgerView {
    match built {
        Ok(_) => l,
        Err(why) => with_error(l, "Error building project: "@ + why@),
    }
}

/// The ledger at the end of an export that came as far as the manifest's
/// copy: an error where that failed and a warning where it succeeded, and
/// the closing warning.
pub open spec fn after_manifest_copy(l: LedgerView, copied: Result<(), String>) -> LedgerView {
    with_warning(
        match copied {
            Ok(_) => with_warning(l, "Successfully copied .addin file"@),
            Err(why) => with_error(l, "Error copying .addin file: "@ + why@),
        },
        "Addin exported successfully"@,
    )
}

/// What an export does next, given the plan, the step that is due for the
/// manifest, the step that is due for the build, and what was observed.
pub open spec fn export_next(
    plan: ExportPlan,
    manifest: ManifestStep,
    build: ChainStep,
    progress: ExportProgress,
) -> ExportStepView {
    match manifest {
        ManifestStep::Done(Err(why)) => ExportStepView::Done(
            with_error(plan.ledger@, "Error creating addin file: "@ + why@),
        ),
        ManifestStep::Done(Ok(file)) => match build {
            ChainStep::Run { .. } => ExportStepView::Build(build),
            ChainStep::Done(built) => {
                let built_ledger = after_build(plan.ledger@, built);
                match progress.directory {
                    None => ExportStepView::CreateDirectory { name: plan.project_name@ },
                    Some(Err(why)) => ExportStepView::Done(
                        with_error(built_ledger, "Error creating addin directory: "@ + why@),
                    ),
                    Some(Ok(_)) => {
                        let seen = progress.copies@.len() as int;
                        if seen < plan.artifacts@.len() {
                            ExportStepView::CopyArtifact {
                                index: seen,
                                path: plan.artifacts@[seen].path.path@,
                                file_name: plan.artifacts@[seen].name@,
                                into: plan.project_name@,
                            }
                        } else {
                            match progress.manifest_copy {
                                None => ExportStepView::CopyManifest {
                                    file,
                                    file_name: plan.project_name@ + ".addin"@,
                                },
                                Some(copied) => ExportStepView::Done(
                                    after_manifest_copy(
                                        after_copies(
                                            built_ledger,
                                            plan.artifacts@,
                                            progress.copies@,
                                            plan.artifacts@.len() as int,
                                        ),
                                        copied,
                                    ),
                                ),
                            }
                        }
                    },
                }
            },
        },
        _ => ExportStepView::Manifest(manifest),
    }
}

/// A copy of `plan`'s ledger.
fn ledger_of(plan: &ExportPlan) -> (ledger: ErrorList)
    ensures
        ledger@ == plan.ledger@,
{
    let mut ledger = ErrorList::new();
    ledger.extend(&plan.ledger);
    assert(ledger@.errors =~= plan.ledger@.errors);
    assert(ledger@.warnings =~= plan.ledger@.warnings);
    ledger
}

/// Records in `ledger` what came of seeing to `artifact`.
fn record_copy(ledger: &mut ErrorList, artifact: &Artifact, outcome: &CopyOutcome)
    ensures
        final(ledger)@ == after_copy(old(ledger)@, *artifact, *outcome),
{
    match outcome {
        CopyOutcome::Missing => {
            ledger.add_warning(
                joined("Warning: DLL not found at path: ", artifact.path.path.as_str()).as_str(),
            );
        },
        CopyOutcome::Copied => {
            ledger.add_warning(
                joined("Successfully copied DLL: ", artifact.name.as_str()).as_str(),
            );
        },
        CopyOutcome::Failed(why) => {
            let mut words = joined("Error copying DLL ", artifact.name.as_str());
            words.append(": ");
            words.append(why.as_str());
            ledger.add_error(words.as_str());
        },
    }
}

/// The next step of an export, given its plan, the step that is due for
/// the manifest, the step that is due for the build, and what was observed.
///
/// The manifest comes first; where it cannot be had, the export ends with
/// that error. The build comes next; a failed build is an error in the
/// ledger and does not end the export, so that libraries left by an earlier
/// build still get copied. Then the add-in's directory is created; where
/// that fails, the export ends with that error. Then the planned libraries
/// are seen to in the plan's order: one that is missing gives a warning, one
/// that was copied gives a warning, one whose copy failed gives an error,
/// and each time the export goes on. Last the manifest is copied, which
/// gives an error or a warning, and the export ends with a closing warning.
/// What planning recorded stays at the head of the ledger.
pub fn next_export_step(
    plan: &ExportPlan,
    manifest: ManifestStep,
    build: ChainStep,
    progress: &ExportProgress,
) -> (r: ExportStep)
    ensures
        r@ == export_next(*plan, manifest, build, *progress),
{
    let file = match manifest {
        ManifestStep::Done(Err(why)) => {
            let mut ledger = ledger_of(plan);
            ledger.add_error(joined("Error creating addin file: ", why.as_str()).as_str());
            return ExportStep::Done(ledger);
        },
        ManifestStep::Done(Ok(file)) => file,
        other => {
            return ExportStep::Manifest(other);
        },
    };
    let built = match build {
        ChainStep::Done(built) => built,
        other => {
            return ExportStep::Build(other);
        },
    };
    let mut ledger = ledger_of(plan);
    match &built {
        Ok(_) => {},
        Err(why) => {
            ledger.add_error(joined("Error building project: ", why.as_str()).as_str());
        },
    }
    match &progress.directory {
        None => {
            return ExportStep::CreateDirectory { name: plan.project_name.clone() };
        },
        Some(Err(why)) => {
            ledger.add_error(joined("Error creating addin directory: ", why.as_str()).as_str());
            return ExportStep::Done(ledger);
        },
        Some(Ok(_)) => {},
    }
    let seen = progress.copies.len();
    if seen < plan.artifacts.len() {
        return ExportStep::CopyArtifact {
            index: seen,
            path: plan.artifacts[seen].path.path.clone(),
            file_name: plan.artifacts[seen].name.clone(),
            into: plan.project_name.clone(),
        };
    }
    let copied = match &progress.manifest_copy {
        None => {
            return ExportStep::CopyManifest {
                file,
                file_name: joined(plan.project_name.as_str(), ".addin"),
            };
        },
        Some(copied) => copied,
    };
    let ghost built_ledger = ledger@;
    let mut k: usize = 0;
    while k < plan.artifacts.len()
        invariant
            k <= plan.artifacts@.len(),
            plan.artifacts@.len() <= progress.copies@.len(),
            ledger@ == after_copies(built_ledger, plan.artifacts@, progress.copies@, k as int),
        decreases plan.artifacts@.len() - k,
    {
        record_copy(&mut ledger, &plan.artifacts[k], &progress.copies[k]);
        k = k + 1;
    }
    match copied {
        Ok(_) => {
            ledger.add_warning("Successfully copied .addin file");
        },
        Err(why) => {
            ledger.add_error(joined("Error copying .addin file: ", why.as_str()).as_str());
        },
    }
    ledger.add_warning("Addin exported successfully");
    ExportStep::Done(ledger)
}

/// What holds of the step that an export of the project below `start`
/// takes next: without a plan it has ended with the ledger of the failed
/// plan; else it is the step that `export_next` names for a plan, a step for
/// the manifest and a step for the build as `planned`, `manifest_due` and
/// `build_due` state them.
pub open spec fn export_due(
    start: DirListing,
    extras: Seq<String>,
    progress: ExportProgress,
    step: ExportStepView,
) -> bool {
    ||| exists|ledger: ErrorList|
        #[trigger] planned(start, extras, Err(ledger)) && step == ExportStepView::Done(ledger@)
    ||| exists|plan: ExportPlan, manifest: ManifestStep, build: ChainStep|
        {
            &&& planned(start, extras, Ok(plan))
            &&& manifest_due(start, progress.manifest, manifest)
            &&& build_due(start, progress.builds@, build)
            &&& step == #[trigger] export_next(plan, manifest, build, progress)
        }
}

/// Without a project file the export ends at once, whatever was observed:
/// with the one error that says so and without a warning. No step is handed
/// out, so nothing is created and nothing is copied.
pub proof fn lemma_no_project_ends_at_once(
    start: DirListing,
    extras: Seq<String>,
    progress: ExportProgress,
    step: ExportStepView,
)
    requires
        plain_names(start, 2 * SEARCH_DEPTH as nat),
        project_hit(start) is None,
        export_due(start, extras, progress, step),
    ensures
        step matches ExportStepView::Done(l) && l.errors
            == seq![
            "Error getting project info. Ensure you have a .csproj file in the current directory."@,
        ] && l.warnings.len() == 0,
{
}

/// The next step of exporting the project below `start` with the extra
/// libraries `extra_dlls`, given what was observed so far. The export is
/// planned, and the plan's first step that was not yet taken is handed out;
/// it has ended where this returns `Done`, with the ledger.
pub fn execute(start: &DirListing, extra_dlls: &Vec<String>, progress: &ExportProgress) -> (r:
    ExportStep)
    ensures
        export_due(*start, extra_dlls@, *progress, r@),
{
    let plan = match plan_export(start, extra_dlls) {
        Ok(plan) => plan,
        Err(ledger) => {
            assert(planned(*start, extra_dlls@, Err(ledger)));
            return ExportStep::Done(ledger);
        },
    };
    let manifest = handle_addin_file(start, &progress.manifest);
    let build = build_project(start, &progress.builds);
    let r = next_export_step(&plan, manifest, build, progress);
    assert(r@ == export_next(plan, manifest, build, *progress));
    r
}

/// Whether `head` stands at the beginning of `all`.
pub open spec fn begins_with(all: Seq<Seq<char>>, head: Seq<Seq<char>>) -> bool {
    head.len() <= all.len() && all.subrange(0, head.len() as int) == head
}

/// A sequence begins with itself.
pub proof fn lemma_begins_with_self(all: Seq<Seq<char>>)
    ensures
        begins_with(all, all),
{
    assert(all.subrange(0, all.len() as int) =~= all);
}

/// What a sequence begins with, it still begins with when an entry is
/// added at its end.
pub proof fn lemma_begins_with_push(all: Seq<Seq<char>>, head: Seq<Seq<char>>, entry: Seq<char>)
    requires
        begins_with(all, head),
    ensures
        begins_with(all.push(entry), head),
{
    assert(all.push(entry).subrange(0, head.len() as int) =~= all.subrange(0, head.len() as int));
}

/// Beginning with is transitive.
pub proof fn lemma_begins_with_trans(c: Seq<Seq<char>>, b: Seq<Seq<char>>, a: Seq<Seq<char>>)
    requires
        begins_with(c, b),
        begins_with(b, a),
    ensures
        begins_with(c, a),
{
    assert(c.subrange(0, a.len() as int) =~= c.subrange(0, b.len() as int).subrange(
        0,
        a.len() as int,
    ));
}

/// Seeing to libraries only adds to the ledger.
pub proof fn lemma_copies_keep_ledger(
    l: LedgerView,
    artifacts: Seq<Artifact>,
    copies: Seq<CopyOutcome>,
    upto: int,
)
    ensures
        begins_with(after_copies(l, artifacts, copies, upto).errors, l.errors),
        begins_with(after_copies(l, artifacts, copies, upto).warnings, l.warnings),
    decreases upto,
{
    if upto > 0 {
        lemma_copies_keep_ledger(l, artifacts, copies, upto - 1);
        let before = after_copies(l, artifacts, copies, upto - 1);
        match copies[upto - 1] {
            CopyOutcome::Missing => {
                lemma_begins_with_push(
                    before.warnings,
                    l.warnings,
                    "Warning: DLL not found at path: "@ + artifacts[upto - 1].path.path@,
                );
            },
            CopyOutcome::Copied => {
                lemma_begins_with_push(
                    before.warnings,
                    l.warnings,
                    "Successfully copied DLL: "@ + artifacts[upto - 1].name@,
                );
            },
            CopyOutcome::Failed(why) => {
                lemma_begins_with_push(
                    before.errors,
                    l.errors,
                    "Error copying DLL "@ + artifacts[upto - 1].name@ + ": "@ + why@,
                );
            },
        }
    } else {
        lemma_begins_with_self(l.errors);
        lemma_begins_with_self(l.warnings);
    }
}

/// However an export ends, what planning recorded stands at the head of its
/// ledger, unchanged and in its order: no later step takes an entry away.
pub proof fn lemma_export_keeps_plan_ledger(
    plan: ExportPlan,
    manifest: ManifestStep,
    build: ChainStep,
    progress: ExportProgress,
)
    ensures
        export_next(plan, manifest, build, progress) matches ExportStepView::Done(l)
            ==> begins_with(l.errors, plan.ledger@.errors) && begins_with(
            l.warnings,
            plan.ledger@.warnings,
        ),
{
    let p = plan.ledger@;
    lemma_begins_with_self(p.errors);
    lemma_begins_with_self(p.warnings);
    match manifest {
        ManifestStep::Done(Err(why)) => {
            lemma_begins_with_push(p.errors, p.errors, "Error creating addin file: "@ + why@);
        },
        ManifestStep::Done(Ok(_)) => {
            if let ChainStep::Done(built) = build {
                let b = after_build(p, built);
                if let Err(why) = built {
                    lemma_begins_with_push(p.errors, p.errors, "Error building project: "@ + why@);
                }
                match progress.directory {
                    Some(Err(why)) => {
                        lemma_begins_with_push(
                            b.errors,
                            p.errors,
                            "Error creating addin directory: "@ + why@,
                        );
                    },
                    Some(Ok(_)) => {
                        let n = plan.artifacts@.len() as int;
                        let c = after_copies(b, plan.artifacts@, progress.copies@, n);
                        lemma_copies_keep_ledger(b, plan.artifacts@, progress.copies@, n);
                        lemma_begins_with_trans(c.errors, b.errors, p.errors);
                        lemma_begins_with_trans(c.warnings, b.warnings, p.warnings);
                        if let Some(copied) = progress.manifest_copy {
                            match copied {
                                Ok(_) => {
                                    lemma_begins_with_push(
                                        c.warnings,
                                        p.warnings,
                                        "Successfully copied .addin file"@,
                                    );
                                    lemma_begins_with_push(
                                        c.warnings.push("Successfully copied .addin file"@),
                                        p.warnings,
                                        "Addin exported successfully"@,
                                    );
                                },
                                Err(why) => {
                                    lemma_begins_with_push(
                                        c.errors,
                                        p.errors,
                                        "Error copying .addin file: "@ + why@,
                                    );
                                    lemma_begins_with_push(
                                        c.warnings,
                                        p.warnings,
                                        "Addin exported successfully"@,
                                    );
                                },
                            }
                        }
                    },
                    None => {},
                }
            }
        },
        _ => {},
    }
}

/// Libraries that are all copied add one warning each and no error.
pub proof fn lemma_copies_all_made(
    l: LedgerView,
    artifacts: Seq<Artifact>,
    copies: Seq<CopyOutcome>,
    upto: int,
)
    requires
        0 <= upto <= copies.len(),
        forall|j: int| 0 <= j < upto ==> copies[j] is Copied,
    ensures
        after_copies(l, artifacts, copies, upto).errors == l.errors,
        after_copies(l, artifacts, copies, upto).warnings.len() == l.warnings.len() + upto,
    decreases upto,
{
    if upto > 0 {
        lemma_copies_all_made(l, artifacts, copies, upto - 1);
    }
}

/// Where the build has failed and yet every planned library is there and is
/// copied, and the manifest with it, the export runs to its end: its ledger
/// holds the build's failure as its only new error, and a warning for each
/// copy, for the manifest's copy and for the end.
pub proof fn lemma_failed_build_still_exports(
    plan: ExportPlan,
    file: ManifestFile,
    why: String,
    progress: ExportProgress,
)
    requires
        progress.directory matches Some(Ok(_)),
        progress.copies@.len() >= plan.artifacts@.len(),
        forall|j: int| 0 <= j < plan.artifacts@.len() ==> progress.copies@[j] is Copied,
        progress.manifest_copy matches Some(Ok(_)),
    ensures
        export_next(plan, ManifestStep::Done(Ok(file)), ChainStep::Done(Err(why)), progress)
            matches ExportStepView::Done(l) && l.errors == plan.ledger@.errors.push(
            "Error building project: "@ + why@,
        ) && l.warnings.len() == plan.ledger@.warnings.len() + plan.artifacts@.len() + 2,
{
    lemma_copies_all_made(
        after_build(plan.ledger@, Err(why)),
        plan.artifacts@,
        progress.copies@,
        plan.artifacts@.len() as int,
    );
}

/// A failed build does not end the export: with the manifest in place, the
/// add-in's directory is created next.
pub proof fn lemma_failed_build_goes_on(
    plan: ExportPlan,
    file: ManifestFile,
    why: String,
    progress: ExportProgress,
)
    requires
        progress.directory is None,
    ensures
        export_next(plan, ManifestStep::Done(Ok(file)), ChainStep::Done(Err(why)), progress)
            == (ExportStepView::CreateDirectory { name: plan.project_name@ }),
{
}

/// The lines that show a ledger: each error behind `Error: `, then each
/// warning behind `Warning: `, in the ledger's order.
pub open spec fn report(l: LedgerView) -> Seq<Seq<char>> {
    Seq::new(
        l.errors.len() + l.warnings.len(),
        |i: int|
            if i < l.errors.len() {
                "Error: "@ + l.errors[i]
            } else {
                "Warning: "@ + l.warnings[i - l.errors.len()]
            },
    )
}

/// The lines to show for `ledger`: all of its entries, none left out.
pub fn report_lines(ledger: &ErrorList) -> (lines: Vec<String>)
    ensures
        texts(lines@) == report(ledger@),
{
    let errors = ledger.view_errors();
    let warnings = ledger.view_warnings();
    let mut lines: Vec<String> = Vec::new();
    let mut i: usize = 0;
    while i < errors.len()
        invariant
            i <= errors@.len(),
            texts(errors@) == ledger@.errors,
            lines@.len() == i,
            forall|k: int| 0 <= k < i ==> (#[trigger] lines@[k])@ == "Error: "@ + ledger@.errors[k],
        decreases errors@.len() - i,
    {
        assert(texts(errors@)[i as int] == errors@[i as int]@);
        lines.push(joined("Error: ", errors[i].as_str()));
        i = i + 1;
    }
    let mut j: usize = 0;
    while j < warnings.len()
        invariant
            j <= warnings@.len(),
            texts(errors@) == ledger@.errors,
            texts(warnings@) == ledger@.warnings,
            lines@.len() == errors@.len() + j,
            forall|k: int|
                0 <= k < errors@.len() ==> (#[trigger] lines@[k])@ == "Error: "@
                    + ledger@.errors[k],
            forall|k: int|
                0 <= k < j ==> (#[trigger] lines@[errors@.len() + k])@ == "Warning: "@
                    + ledger@.warnings[k],
        decreases warnings@.len() - j,
    {
        assert(texts(warnings@)[j as int] == warnings@[j as int]@);
        lines.push(joined("Warning: ", warnings[j].as_str()));
        j = j + 1;
    }
    assert(texts(errors@).len() == errors@.len());
    assert(texts(warnings@).len() == warnings@.len());
    assert forall|k: int| 0 <= k < lines@.len() implies texts(lines@)[k] == report(ledger@)[k] by {
        if k >= errors@.len() {
            assert(lines@[errors@.len() + (k - errors@.len())]@ == "Warning: "@
                + ledger@.warnings[k - errors@.len()]);
        }
    }
    assert(texts(lines@) =~= report(ledger@));
    lines
}

/// The directory that Revit loads add-ins from, where it is there: `exists`
/// tells whether `directory` was found on disk.
pub fn get_revit_addins_path(directory: String, exists: bool) -> (r: Result<String, String>)
    ensures
        match r {
            Ok(path) => exists && path@ == directory@,
            Err(e) => !exists && e@ == "Expected to find addin folder in "@ + directory@,
        },
{
    if exists {
        Ok(directory)
    } else {
        Err(joined("Expected to find addin folder in ", directory.as_str()))
    }
}

} // verus!
