//! Locating, building and deploying a Revit add-in project.
//!
//! The library decides; it touches neither the file system nor any program.
//! What it needs of the file system it takes as a listing that was read
//! beforehand, and what is to be done outside it hands out as steps, each to
//! be answered with what was observed.

pub mod dotnet;
pub mod error_list;
pub mod export;
pub mod fallback;
pub mod launch;
pub mod locator;
pub mod manifest;
pub mod msbuild;
pub mod paths;
pub mod pattern;
pub mod project;
pub mod state;
pub mod text;
pub mod web_app;
pub mod yarn;

pub use crate::error_list::ErrorList;
pub use crate::fallback::build_project;
pub use crate::manifest::AddinFileInfo;
pub use crate::project::get_project_name;

use crate::error_list::LedgerView;
use crate::export::{
    after_copies, artifact_names, empty_ledger, execute, export_due, export_next, extras_found,
    lemma_no_project_ends_at_once, planned, ExportPlan, ExportProgress, ExportStep,
    ExportStepView,
};
use crate::fallback::{
    build_due, chain_from, diagnostic, lemma_last_failure_reported, Backend, BuildOutcome,
    ChainStep, ChainStepView,
};
use crate::locator::{plain_names, DirListing};
use crate::manifest::{
    create_addin_file, is_stale, manifest_due, manifest_next, manifest_text, needs_regeneration,
    ManifestContents, ManifestFile, ManifestRead, ManifestStep,
};
use crate::paths::OfferedPath;
use crate::project::{
    get_all_project_dll_paths, is_csproj_path, is_dll_list, is_project_info, is_project_name,
    lemma_plain_fewer, main_dll, project_hit, ProjectInfo, SEARCH_DEPTH,
};
use crate::text::joined;
use vstd::prelude::*;

verus! {

/// Why the manifest of a project could not be read.
#[derive(Debug)]
pub enum GetAddinFileInfoError {
    /// There is no project file, so no manifest can be looked for.
    FileNotFound,
    AddinFileError(crate::manifest::GetAddinFileInfoError),
}

/// Why the manifest of a project could not be written.
#[derive(Debug)]
pub enum CreateAddinFileError {
    /// There is no project file, so no manifest can be placed.
    FileNotFound,
    /// Writing failed; with the system's reason.
    AddinFileError(String),
}

/// Whether `r` is what reading a manifest amounts to: what the file holds
/// where it could be parsed, else the failure, each kind as itself and with
/// the reason that came with it.
pub open spec fn is_read_result(
    read: ManifestRead,
    r: Result<AddinFileInfo, GetAddinFileInfoError>,
) -> bool {
    match read {
        ManifestRead::Missing => r matches Err(
            GetAddinFileInfoError::AddinFileError(
                crate::manifest::GetAddinFileInfoError::FileNotFound,
            ),
        ),
        ManifestRead::Unopened(why) => r matches Err(
            GetAddinFileInfoError::AddinFileError(
                crate::manifest::GetAddinFileInfoError::FailedToOpenFile(e),
            ),
        ) && e@ == why@,
        ManifestRead::Unread(why) => r matches Err(
            GetAddinFileInfoError::AddinFileError(
                crate::manifest::GetAddinFileInfoError::FailedToReadFile(e),
            ),
        ) && e@ == why@,
        ManifestRead::Malformed(why) => r matches Err(
            GetAddinFileInfoError::AddinFileError(
                crate::manifest::GetAddinFileInfoError::FailedToParseXml(e),
            ),
        ) && e@ == why@,
        ManifestRead::Parsed(info) => r matches Ok(got) && got@ == info@,
    }
}

/// What a manifest holds, read from the file itself, or why it could not be
/// had.
pub fn get_addin_file_info_from_file(read: ManifestRead) -> (r: Result<
    AddinFileInfo,
    GetAddinFileInfoError,
>)
    ensures
        is_read_result(read, r),
{
    match crate::manifest::get_addin_file_info(read) {
        Ok(info) => Ok(info),
        Err(e) => Err(GetAddinFileInfoError::AddinFileError(e)),
    }
}

/// What is due next to read a project's manifest.
#[derive(Debug)]
pub enum AddinInfoStep {
    /// Read the manifest `file`.
    Read { file: ManifestFile },
    Done(Result<AddinFileInfo, GetAddinFileInfoError>),
}

/// Reads the manifest of the project below `start`, one step at a time.
/// `read` is what came of reading the file, absent while it was not read.
///
/// Without a project file the manifest counts as not found. The file is
/// looked for in the starting directory itself, under the project's name
/// with the extension `.addin`.
pub fn get_addin_file_info(start: &DirListing, read: Option<ManifestRead>) -> (r: AddinInfoStep)
    ensures
        exists|name: Result<String, String>| #[trigger]
            is_project_name(*start, name) && (match name {
                Err(_) => r matches AddinInfoStep::Done(Err(GetAddinFileInfoError::FileNotFound)),
                Ok(n) => match read {
                    None => r matches AddinInfoStep::Read { file } && file.dir@ == start.path@
                        && file.file_name@ == n@ + ".addin"@,
                    Some(read) => r matches AddinInfoStep::Done(got) && is_read_result(read, got),
                },
            }),
{
    let name = get_project_name(start);
    let r = match &name {
        Err(_) => AddinInfoStep::Done(Err(GetAddinFileInfoError::FileNotFound)),
        Ok(n) => match read {
            None => AddinInfoStep::Read {
                file: ManifestFile { dir: start.path.clone(), file_name: joined(n.as_str(), ".addin") },
            },
            Some(read) => AddinInfoStep::Done(get_addin_file_info_from_file(read)),
        },
    };
    assert(is_project_name(*start, name));
    r
}

/// What is due next to write a project's manifest.
#[derive(Debug)]
pub enum CreateAddinStep {
    /// Read the manifest `file`, to see whether it may be written.
    Read { file: ManifestFile },
    /// Write `text` to the manifest `file`.
    Write { file: ManifestFile, text: String },
    Done(Result<ManifestFile, CreateAddinFileError>),
}

/// Whether `file` is where the manifest of the project named `name` lies
/// when it is kept in the starting directory itself.
pub open spec fn is_manifest_in(file: ManifestFile, start: DirListing, name: Seq<char>) -> bool {
    file.dir@ == start.path@ && file.file_name@ == name + ".addin"@
}

/// Whether `r` is what is due to write the manifest `addin_info` for the
/// project named `name`.
pub open spec fn create_next(
    start: DirListing,
    name: Seq<char>,
    addin_info: AddinFileInfo,
    contents: Option<ManifestContents>,
    written: Option<Result<(), String>>,
    r: CreateAddinStep,
) -> bool {
    match contents {
        None => r matches CreateAddinStep::Read { file } && is_manifest_in(file, start, name),
        Some(ManifestContents::Unreadable(why)) => r matches CreateAddinStep::Done(
            Err(CreateAddinFileError::AddinFileError(e)),
        ) && e@ == why@,
        Some(found) => if !is_stale(found) {
            r matches CreateAddinStep::Done(Ok(file)) && is_manifest_in(file, start, name)
        } else {
            match written {
                None => r matches CreateAddinStep::Write { file, text } && is_manifest_in(
                    file,
                    start,
                    name,
                ) && text@ == manifest_text(addin_info@),
                Some(Ok(_)) => r matches CreateAddinStep::Done(Ok(file)) && is_manifest_in(
                    file,
                    start,
                    name,
                ),
                Some(Err(why)) => r matches CreateAddinStep::Done(
                    Err(CreateAddinFileError::AddinFileError(e)),
                ) && e@ == why@,
            }
        },
    }
}

/// Writes the manifest `addin_info` for the project below `start`, one step
/// at a time. `contents` is what reading the manifest gave, absent while it
/// was not read; `written` is what came of writing it, absent while it was
/// not written, a failure with the system's reason.
///
/// Without a project file no manifest can be placed. The manifest lies in the
/// starting directory itself, under the project's name with the extension
/// `.addin`. It is read first. A manifest that is there and is no template
/// stays as it is: nothing is written, and its place is handed back. One that
/// cannot be read is not written over either, and is a failure. A missing
/// manifest and a template are written with the manifest's text; once
/// written, the file's place is handed back.
pub fn create_addin_file_for_project(
    start: &DirListing,
    addin_info: AddinFileInfo,
    contents: &Option<ManifestContents>,
    written: &Option<Result<(), String>>,
) -> (r: CreateAddinStep)
    ensures
        exists|name: Result<String, String>| #[trigger]
            is_project_name(*start, name) && (match name {
                Err(_) => r matches CreateAddinStep::Done(Err(CreateAddinFileError::FileNotFound)),
                Ok(n) => create_next(*start, n@, addin_info, *contents, *written, r),
            }),
{
    let name = get_project_name(start);
    let r = match &name {
        Err(_) => CreateAddinStep::Done(Err(CreateAddinFileError::FileNotFound)),
        Ok(n) => {
            let file = ManifestFile {
                dir: start.path.clone(),
                file_name: joined(n.as_str(), ".addin"),
            };
            match contents {
                None => CreateAddinStep::Read { file },
                Some(ManifestContents::Unreadable(why)) => CreateAddinStep::Done(
                    Err(CreateAddinFileError::AddinFileError(why.clone())),
                ),
                Some(found) => {
                    if !needs_regeneration(found) {
                        CreateAddinStep::Done(Ok(file))
                    } else {
                        match written {
                            None => CreateAddinStep::Write {
                                file,
                                text: create_addin_file(&addin_info),
                            },
                            Some(Ok(_)) => CreateAddinStep::Done(Ok(file)),
                            Some(Err(why)) => CreateAddinStep::Done(
                                Err(CreateAddinFileError::AddinFileError(why.clone())),
                            ),
                        }
                    }
                },
            }
        },
    };
    assert(is_project_name(*start, name));
    r
}

/// A manifest that is there and is no template is never written over: no
/// `Write` is handed out for it, whatever else was observed.
pub proof fn lemma_manifest_in_place_is_kept(
    start: DirListing,
    name: Seq<char>,
    addin_info: AddinFileInfo,
    contents: ManifestContents,
    written: Option<Result<(), String>>,
    r: CreateAddinStep,
)
    requires
        contents matches ManifestContents::Text(text) && !crate::manifest::is_template(text@),
        create_next(start, name, addin_info, Some(contents), written, r),
    ensures
        r matches CreateAddinStep::Done(Ok(file)) && is_manifest_in(file, start, name),
{
}

/// The absolute paths of all libraries of the project below `start`, each
/// with what the conversion gave beside it.
pub fn get_project_dlls(start: &DirListing) -> (r: Result<Vec<OfferedPath>, String>)
    ensures
        is_dll_list(*start, r),
{
    get_all_project_dll_paths(start)
}

/// What holds of the step that building and then exporting takes next. The
/// project is built first: while that build goes on, its step is due. Once
/// it has ended the export's step is due, however the build ended: a failed
/// build ends nothing, and the export, which builds again, records the
/// failure.
pub open spec fn export_addin_due(
    start: DirListing,
    extras: Seq<String>,
    first_build: Seq<BuildOutcome>,
    progress: ExportProgress,
    step: ExportStepView,
) -> bool {
    exists|build: ChainStep| #[trigger]
        build_due(start, first_build, build) && (match build {
            ChainStep::Run { .. } => step == ExportStepView::Build(build),
            ChainStep::Done(_) => export_due(start, extras, progress, step),
        })
}

/// Builds the project below `start` and then exports it with the extra
/// libraries `extra_dlls`, one step at a time. `first_build` holds what the
/// build tools made of the project in the build that comes first, `progress`
/// what was observed of the export. All has ended where this returns `Done`,
/// with the ledger.
pub fn export_addin(
    start: &DirListing,
    extra_dlls: &Vec<String>,
    first_build: &Vec<BuildOutcome>,
    progress: &ExportProgress,
) -> (r: ExportStep)
    ensures
        export_addin_due(*start, extra_dlls@, first_build@, *progress, r@),
{
    let build = build_project(start, first_build);
    let ghost witness = build;
    match build {
        ChainStep::Done(_) => {
            let r = execute(start, extra_dlls, progress);
            assert(build_due(*start, first_build@, witness));
            r
        },
        other => {
            assert(build_due(*start, first_build@, other));
            ExportStep::Build(other)
        },
    }
}

/// Without a project file, building and exporting ends at once, whatever
/// was observed: with the one error that says so and without a warning. No
/// step is handed out, so no tool is run, nothing is asked, and nothing is
/// created or copied.
pub proof fn lemma_export_addin_without_project(
    start: DirListing,
    extras: Seq<String>,
    first_build: Seq<BuildOutcome>,
    progress: ExportProgress,
    step: ExportStepView,
)
    requires
        plain_names(start, 2 * SEARCH_DEPTH as nat),
        project_hit(start) is None,
        export_addin_due(start, extras, first_build, progress, step),
    ensures
        step matches ExportStepView::Done(l) && l.errors
            == seq![
            "Error getting project info. Ensure you have a .csproj file in the current directory."@,
        ] && l.warnings.len() == 0,
{
    lemma_plain_fewer(start, 2 * SEARCH_DEPTH as nat, SEARCH_DEPTH as nat);
    let build = choose|build: ChainStep| #[trigger]
        build_due(start, first_build, build) && (match build {
            ChainStep::Run { .. } => step == ExportStepView::Build(build),
            ChainStep::Done(_) => export_due(start, extras, progress, step),
        });
    let path = choose|path: Option<String>| #[trigger]
        is_csproj_path(start, path) && build@ == (match path {
            None => ChainStepView::Done(Err("No csproj file found"@)),
            Some(p) => chain_from(p@, seq![Backend::MsBuild, Backend::Dotnet], first_build, 0),
        });
    assert(path is None);
    assert(build is Done);
    lemma_no_project_ends_at_once(start, extras, progress, step);
}

/// Where every build tool is absent or fails, and yet the project's own
/// library is there from an earlier build and its manifest is in place,
/// building and exporting runs to its end: the library and the manifest are
/// copied, and the ledger holds the build's failure as its only error and a
/// warning for the library's copy, for the manifest's copy and for the end.
/// This is stated for an export without extra libraries.
pub proof fn lemma_export_addin_with_failed_tools(
    start: DirListing,
    extras: Seq<String>,
    first_build: Seq<BuildOutcome>,
    progress: ExportProgress,
    step: ExportStepView,
)
    requires
        plain_names(start, 2 * SEARCH_DEPTH as nat),
        extras.len() == 0,
        main_dll(start) is Ok,
        first_build.len() >= 2 && first_build[0] is Failure && first_build[1] is Failure,
        progress.builds@.len() >= 2 && progress.builds@[0] is Failure && progress.builds@[1]
            is Failure,
        progress.manifest.contents matches Some(ManifestContents::Text(text))
            && !crate::manifest::is_template(text@),
        progress.directory matches Some(Ok(_)),
        progress.copies@.len() >= 1 && progress.copies@[0] is Copied,
        progress.manifest_copy matches Some(Ok(_)),
        export_addin_due(start, extras, first_build, progress, step),
    ensures
        step matches ExportStepView::Done(l) && l.errors == seq![
            "Error building project: "@ + diagnostic(
                Backend::Dotnet,
                progress.builds@[1]->kind,
            ),
        ] && l.warnings == seq![
            "Successfully copied DLL: "@ + main_dll_name(start),
            "Successfully copied .addin file"@,
            "Addin exported successfully"@,
        ],
{
    lemma_plain_fewer(start, 2 * SEARCH_DEPTH as nat, SEARCH_DEPTH as nat);
    let adapters = seq![Backend::MsBuild, Backend::Dotnet];
    let first = choose|build: ChainStep| #[trigger]
        build_due(start, first_build, build) && (match build {
            ChainStep::Run { .. } => step == ExportStepView::Build(build),
            ChainStep::Done(_) => export_due(start, extras, progress, step),
        });
    let first_path = choose|path: Option<String>| #[trigger]
        is_csproj_path(start, path) && first@ == (match path {
            None => ChainStepView::Done(Err("No csproj file found"@)),
            Some(p) => chain_from(p@, adapters, first_build, 0),
        });
    if first_path is Some {
        lemma_last_failure_reported(first_path->0@, adapters, first_build);
    }
    assert(first is Done);
    assert(export_due(start, extras, progress, step));
    assert forall|ledger: ErrorList| !#[trigger] planned(start, extras, Err(ledger)) by {}
    let (plan, manifest, build) = choose|plan: ExportPlan, manifest: ManifestStep, build: ChainStep|
        {
            &&& planned(start, extras, Ok(plan))
            &&& manifest_due(start, progress.manifest, manifest)
            &&& build_due(start, progress.builds@, build)
            &&& step == #[trigger] export_next(plan, manifest, build, progress)
        };
    // The plan holds the project's own library and nothing else.
    assert(extras_found(start, extras, 0) =~= Seq::<Seq<char>>::empty());
    assert(artifact_names(plan.artifacts@).len() == 1);
    assert(plan.artifacts@.len() == 1);
    assert(plan.artifacts@[0].name@ == main_dll_name(start));
    assert(plan.ledger@.warnings =~= Seq::<Seq<char>>::empty());
    assert(plan.ledger@.errors =~= Seq::<Seq<char>>::empty());
    // The manifest is kept.
    let found = choose|found: Result<ProjectInfo, String>| #[trigger]
        is_project_info(start, found) && (match found {
            Ok(project) => manifest_next(project, progress.manifest, manifest),
            Err(why) => manifest matches ManifestStep::Done(Err(e)) && e@ == why@,
        });
    assert(found is Ok);
    assert(manifest matches ManifestStep::Done(Ok(_)));
    // The export's own build fails with the words of the last tool.
    let path = choose|path: Option<String>| #[trigger]
        is_csproj_path(start, path) && build@ == (match path {
            None => ChainStepView::Done(Err("No csproj file found"@)),
            Some(p) => chain_from(p@, adapters, progress.builds@, 0),
        });
    assert(path is Some);
    lemma_last_failure_reported(path->0@, adapters, progress.builds@);
    assert(build matches ChainStep::Done(Err(_)));
    reveal_with_fuel(after_copies, 2);
    let l = step->Done_0;
    assert(l.errors =~= seq![
        "Error building project: "@ + diagnostic(Backend::Dotnet, progress.builds@[1]->kind),
    ]);
    assert(l.warnings =~= seq![
        "Successfully copied DLL: "@ + main_dll_name(start),
        "Successfully copied .addin file"@,
        "Addin exported successfully"@,
    ]);
}

/// The file name of the project's own library.
pub open spec fn main_dll_name(start: DirListing) -> Seq<char> {
    match main_dll(start) {
        Ok((d, i)) => d.entries@[i].name@,
        Err(_) => Seq::empty(),
    }
}

/// What building once and then exporting to several destinations does
/// next.
#[derive(Debug)]
pub enum MultiExportStep {
    /// Take this step of the build that comes first.
    Build(ChainStep),
    /// Take this step of the export to the destination with this index.
    At { destination: usize, step: ExportStep },
    /// All exports have ended; the ledger holds what each recorded.
    Done(ErrorList),
}

/// The ledgers of several exports as one: the errors of each after those of
/// the one before it, and the warnings likewise.
pub open spec fn merged(ledgers: Seq<LedgerView>) -> LedgerView
    decreases ledgers.len(),
{
    if ledgers.len() == 0 {
        empty_ledger()
    } else {
        let before = merged(ledgers.drop_last());
        LedgerView {
            errors: before.errors + ledgers.last().errors,
            warnings: before.warnings + ledgers.last().warnings,
        }
    }
}

/// Whether `ledgers` are the ledgers with which the exports to the first
/// destinations have ended, one for each.
pub open spec fn ended_with(
    start: DirListing,
    extras: Seq<String>,
    progress: Seq<ExportProgress>,
    ledgers: Seq<LedgerView>,
) -> bool {
    &&& ledgers.len() <= progress.len()
    &&& forall|j: int|
        0 <= j < ledgers.len() ==> export_due(
            start,
            extras,
            #[trigger] progress[j],
            ExportStepView::Done(ledgers[j]),
        )
}

/// What holds of the step that the exports to several destinations take
/// next: the exports run one after the other in the order of the
/// destinations; the first that has not ended has its step due; where all
/// have ended, all is done with their ledgers as one.
pub open spec fn exports_due(
    start: DirListing,
    extras: Seq<String>,
    progress: Seq<ExportProgress>,
    r: MultiExportStep,
) -> bool {
    match r {
        MultiExportStep::Build(_) => false,
        MultiExportStep::At { destination, step } => destination < progress.len() && step@
            !is Done && export_due(start, extras, progress[destination as int], step@)
            && exists|ledgers: Seq<LedgerView>|
            ledgers.len() == destination && #[trigger] ended_with(
                start,
                extras,
                progress,
                ledgers,
            ),
        MultiExportStep::Done(total) => exists|ledgers: Seq<LedgerView>|
            ledgers.len() == progress.len() && #[trigger] ended_with(
                start,
                extras,
                progress,
                ledgers,
            ) && total@ == merged(ledgers),
    }
}

/// What holds of the step that building once and exporting to several
/// destinations takes next. The project is built first: while that build
/// goes on, its step is due. Once it has ended the exports' step is due,
/// however the build ended: a failed build ends nothing, and each export,
/// which builds again, records the failure.
pub open spec fn export_addin_multiple_due(
    start: DirListing,
    extras: Seq<String>,
    first_build: Seq<BuildOutcome>,
    progress: Seq<ExportProgress>,
    r: MultiExportStep,
) -> bool {
    exists|build: ChainStep| #[trigger]
        build_due(start, first_build, build) && (match build {
            ChainStep::Run { .. } => r == MultiExportStep::Build(build),
            ChainStep::Done(_) => exports_due(start, extras, progress, r),
        })
}

/// Builds the project below `start` once and then exports it to several
/// destinations, one step at a time. `first_build` holds what the build tools
/// made of the project in the build that comes first. `progress` holds, for
/// each destination in order, what was observed of the export to it; that of
/// an export that has not begun is empty.
pub fn export_addin_multiple(
    start: &DirListing,
    extra_dlls: &Vec<String>,
    first_build: &Vec<BuildOutcome>,
    progress: &Vec<ExportProgress>,
) -> (r: MultiExportStep)
    ensures
        export_addin_multiple_due(*start, extra_dlls@, first_build@, progress@, r),
{
    let build = build_project(start, first_build);
    let ghost witness = build;
    match build {
        ChainStep::Done(_) => {},
        other => {
            assert(build_due(*start, first_build@, other));
            return MultiExportStep::Build(other);
        },
    }
    let mut total = ErrorList::new();
    let ghost mut ledgers: Seq<LedgerView> = Seq::empty();
    assert(total@ == merged(ledgers));
    let mut k: usize = 0;
    while k < progress.len()
        invariant
            k <= progress@.len(),
            ledgers.len() == k,
            build_due(*start, first_build@, witness),
            witness is Done,
            ended_with(*start, extra_dlls@, progress@, ledgers),
            total@ == merged(ledgers),
        decreases progress@.len() - k,
    {
        match execute(start, extra_dlls, &progress[k]) {
            ExportStep::Done(ledger) => {
                total.extend(&ledger);
                proof {
                    let before = ledgers;
                    ledgers = ledgers.push(ledger@);
                    assert(ledgers.drop_last() =~= before);
                    assert forall|j: int| 0 <= j < ledgers.len() implies export_due(
                        *start,
                        extra_dlls@,
                        #[trigger] progress@[j],
                        ExportStepView::Done(ledgers[j]),
                    ) by {
                        if j < k {
                            assert(ledgers[j] == before[j]);
                        }
                    }
                }
            },
            step => {
                return MultiExportStep::At { destination: k, step };
            },
        }
        k = k + 1;
    }
    MultiExportStep::Done(total)
}

} // verus!
