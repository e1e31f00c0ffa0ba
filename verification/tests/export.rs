use rev::error_list::ErrorList;
use rev::export::{
    draw_up_plan, execute, get_revit_addins_path, next_export_step, plan_export, report_lines,
    Artifact, CopyOutcome, ExportPlan, ExportProgress, ExportStep, ExtraSearch,
};
use rev::paths::{choose_path, PathForms};
use rev::fallback::{Backend, BuildOutcome, ChainStep, FailureKind};
use rev::locator::{DirEntry, DirListing, EntryKind};
use rev::manifest::{ManifestContents, ManifestFile, ManifestProgress, ManifestStep};
use rev::state::State;

fn file(dir: &str, name: &str) -> DirEntry {
    DirEntry { name: name.to_string(), path: format!("{}/{}", dir, name), kind: EntryKind::File }
}

fn dir(parent: &str, name: &str, entries: Vec<DirEntry>) -> DirEntry {
    let path = format!("{}/{}", parent, name);
    DirEntry {
        name: name.to_string(),
        path: path.clone(),
        kind: EntryKind::Directory(DirListing { path, entries }),
    }
}

/// A project with its own library built earlier, and one more library.
fn prebuilt() -> DirListing {
    let bin = dir(
        "work/bin",
        "Debug",
        vec![file("work/bin/Debug", "Tool.dll"), file("work/bin/Debug", "Extra.dll")],
    );
    DirListing {
        path: "work".to_string(),
        entries: vec![file("work", "Tool.csproj"), dir("work", "bin", vec![bin])],
    }
}

fn no_project() -> DirListing {
    DirListing { path: "work".to_string(), entries: vec![file("work", "notes.txt")] }
}

fn state() -> State {
    State { revit_version: "2024".to_string(), email_address: String::new() }
}

fn good_manifest() -> String {
    "<RevitAddIns><AddIn Type=\"Application\"><Name>Tool</Name></AddIn></RevitAddIns>".to_string()
}

fn tools_absent() -> Vec<BuildOutcome> {
    vec![
        BuildOutcome::Failure { kind: FailureKind::ToolNotFound },
        BuildOutcome::Failure { kind: FailureKind::ToolNotFound },
    ]
}

fn plan() -> ExportPlan {
    let mut ledger = ErrorList::new();
    ledger.add_warning("planned with care");
    ExportPlan {
        project_name: "Tool".to_string(),
        artifacts: vec![located("Tool.dll"), located("Extra.dll")],
        ledger,
    }
}

fn manifest_ok() -> ManifestStep {
    ManifestStep::Done(Ok(ManifestFile { dir: "work".to_string(), file_name: "Tool.addin".to_string() }))
}

fn built_ok() -> ChainStep {
    ChainStep::Done(Ok("built".to_string()))
}

#[test]
fn plan_without_project_is_one_error_and_no_warning() {
    let ledger = plan_export(&no_project(), &vec!["Extra".to_string()]).unwrap_err();
    assert_eq!(
        ledger.view_errors(),
        vec!["Error getting project info. Ensure you have a .csproj file in the current directory."]
    );
    assert!(ledger.view_warnings().is_empty());
}

#[test]
fn plan_without_primary_library_is_one_error() {
    let bare = DirListing { path: "work".to_string(), entries: vec![file("work", "Tool.csproj")] };
    let ledger = plan_export(&bare, &vec![]).unwrap_err();
    assert_eq!(
        ledger.view_errors(),
        vec!["Error getting project DLL path: Could not find dll for project. Expected to find Tool.dll"]
    );
    assert!(ledger.view_warnings().is_empty());
}

#[test]
fn plan_holds_the_primary_library_first_and_the_extras_found() {
    let extras = vec!["Missing".to_string(), "Extra".to_string(), "Gone".to_string()];
    let plan = plan_export(&prebuilt(), &extras).unwrap();
    assert_eq!(plan.project_name, "Tool");
    let names: Vec<&str> = plan.artifacts.iter().map(|a| a.name.as_str()).collect();
    assert_eq!(names, vec!["Tool.dll", "Extra.dll"]);
    assert!(std::path::Path::new(&plan.artifacts[0].path.path).is_absolute());
    assert!(plan.artifacts[0].path.path.ends_with("work/bin/Debug/Tool.dll"));
    assert!(plan.artifacts[1].path.path.ends_with("work/bin/Debug/Extra.dll"));
    assert!(matches!(
        &plan.artifacts[0].path.forms,
        PathForms::Absolute { raw, .. } if raw == "work/bin/Debug/Tool.dll"
    ));
    assert!(matches!(
        &plan.artifacts[1].path.forms,
        PathForms::Absolute { raw, .. } if raw == "work/bin/Debug/Extra.dll"
    ));
    assert!(!plan.ledger.has_errors());
    assert_eq!(
        plan.ledger.view_warnings(),
        vec![
            "Warning: could not find DLL for Missing: Could not find dll for project. Expected to find Missing.dll",
            "Warning: could not find DLL for Gone: Could not find dll for project. Expected to find Gone.dll",
        ]
    );
}

#[test]
fn export_without_project_ends_at_once_with_a_single_error() {
    match execute(&no_project(), &vec![], &ExportProgress::new()) {
        ExportStep::Done(ledger) => {
            assert_eq!(ledger.view_errors().len(), 1);
            assert_eq!(
                ledger.view_errors()[0],
                "Error getting project info. Ensure you have a .csproj file in the current directory."
            );
            assert!(!ledger.has_warnings());
        }
        other => panic!("{:?}", other),
    }
}

/// Drives an export to its end, answering each step from the script, and
/// hands back the steps taken and the ledger.
fn run(start: &DirListing, builds: Vec<BuildOutcome>, copies: Vec<CopyOutcome>) -> (Vec<String>, ErrorList) {
    let mut builds = builds.into_iter();
    let mut copies = copies.into_iter();
    let mut progress = ExportProgress::new();
    let mut taken = Vec::new();
    for _ in 0..50 {
        match execute(start, &vec![], &progress) {
            ExportStep::Manifest(ManifestStep::Read { file }) => {
                taken.push(format!("read {}/{}", file.dir, file.file_name));
                progress.manifest.contents = Some(ManifestContents::Text(good_manifest()));
            }
            ExportStep::Manifest(other) => panic!("{:?}", other),
            ExportStep::Build(ChainStep::Run { backend, .. }) => {
                taken.push(format!("run {:?}", backend));
                progress.builds.push(builds.next().unwrap());
            }
            ExportStep::Build(other) => panic!("{:?}", other),
            ExportStep::CreateDirectory { name } => {
                taken.push(format!("mkdir {}", name));
                progress.directory = Some(Ok(()));
            }
            ExportStep::CopyArtifact { index, file_name, into, .. } => {
                taken.push(format!("copy {} {} into {}", index, file_name, into));
                progress.copies.push(copies.next().unwrap());
            }
            ExportStep::CopyManifest { file, file_name } => {
                taken.push(format!("copy manifest {}/{} as {}", file.dir, file.file_name, file_name));
                progress.manifest_copy = Some(Ok(()));
            }
            ExportStep::Done(ledger) => return (taken, ledger),
        }
    }
    panic!("the export did not end");
}

#[test]
fn export_with_absent_build_tools_still_copies_what_was_built_before() {
    let (taken, ledger) = run(&prebuilt(), tools_absent(), vec![CopyOutcome::Copied]);
    assert_eq!(
        taken,
        vec![
            "read work/Tool.addin",
            "run MsBuild",
            "run Dotnet",
            "mkdir Tool",
            "copy 0 Tool.dll into Tool",
            "copy manifest work/Tool.addin as Tool.addin",
        ]
    );
    assert!(ledger.has_errors());
    assert_eq!(
        ledger.view_errors(),
        vec!["Error building project: Could not find Dotnet installation on system"]
    );
    assert_eq!(
        ledger.view_warnings(),
        vec![
            "Successfully copied DLL: Tool.dll",
            "Successfully copied .addin file",
            "Addin exported successfully",
        ]
    );
}

#[test]
fn export_after_a_good_build_has_no_error() {
    let (taken, ledger) = run(
        &prebuilt(),
        vec![BuildOutcome::Success { captured_output: "ok".to_string() }],
        vec![CopyOutcome::Copied],
    );
    assert_eq!(taken[1], "run MsBuild");
    assert_eq!(taken[2], "mkdir Tool");
    assert!(!ledger.has_errors());
    assert_eq!(ledger.view_warnings().len(), 3);
}

#[test]
fn manifest_steps_come_before_anything_else() {
    let step = next_export_step(
        &plan(),
        ManifestStep::Ask { questions: Vec::new() },
        built_ok(),
        &ExportProgress::new(),
    );
    assert!(matches!(step, ExportStep::Manifest(ManifestStep::Ask { .. })));
}

#[test]
fn failed_manifest_ends_the_export_and_keeps_the_plan_ledger() {
    match next_export_step(
        &plan(),
        ManifestStep::Done(Err("disk full".to_string())),
        built_ok(),
        &ExportProgress::new(),
    ) {
        ExportStep::Done(ledger) => {
            assert_eq!(ledger.view_errors(), vec!["Error creating addin file: disk full"]);
            assert_eq!(ledger.view_warnings(), vec!["planned with care"]);
        }
        other => panic!("{:?}", other),
    }
}

#[test]
fn build_step_is_handed_on() {
    let run = ChainStep::Run {
        backend: Backend::Dotnet,
        project_path: "work/Tool.csproj".to_string(),
        notice: None,
    };
    match next_export_step(&plan(), manifest_ok(), run, &ExportProgress::new()) {
        ExportStep::Build(ChainStep::Run { backend, project_path, .. }) => {
            assert_eq!(backend, Backend::Dotnet);
            assert_eq!(project_path, "work/Tool.csproj");
        }
        other => panic!("{:?}", other),
    }
}

#[test]
fn failed_build_does_not_end_the_export() {
    let step = next_export_step(
        &plan(),
        manifest_ok(),
        ChainStep::Done(Err("no tool".to_string())),
        &ExportProgress::new(),
    );
    match step {
        ExportStep::CreateDirectory { name } => assert_eq!(name, "Tool"),
        other => panic!("{:?}", other),
    }
}

#[test]
fn failed_directory_ends_the_export() {
    let mut progress = ExportProgress::new();
    progress.directory = Some(Err("read-only".to_string()));
    match next_export_step(&plan(), manifest_ok(), ChainStep::Done(Err("no tool".to_string())), &progress) {
        ExportStep::Done(ledger) => {
            assert_eq!(
                ledger.view_errors(),
                vec!["Error building project: no tool", "Error creating addin directory: read-only"]
            );
            assert_eq!(ledger.view_warnings(), vec!["planned with care"]);
        }
        other => panic!("{:?}", other),
    }
}

#[test]
fn libraries_are_copied_in_the_order_of_the_plan() {
    let mut progress = ExportProgress::new();
    progress.directory = Some(Ok(()));
    match next_export_step(&plan(), manifest_ok(), built_ok(), &progress) {
        ExportStep::CopyArtifact { index, path, file_name, into } => {
            assert_eq!(index, 0);
            assert_eq!(path, "/abs/Tool.dll");
            assert_eq!(file_name, "Tool.dll");
            assert_eq!(into, "Tool");
        }
        other => panic!("{:?}", other),
    }
    progress.copies.push(CopyOutcome::Failed("locked".to_string()));
    match next_export_step(&plan(), manifest_ok(), built_ok(), &progress) {
        ExportStep::CopyArtifact { index, path, file_name, .. } => {
            assert_eq!(index, 1);
            assert_eq!(path, "/abs/Extra.dll");
            assert_eq!(file_name, "Extra.dll");
        }
        other => panic!("{:?}", other),
    }
    progress.copies.push(CopyOutcome::Missing);
    match next_export_step(&plan(), manifest_ok(), built_ok(), &progress) {
        ExportStep::CopyManifest { file, file_name } => {
            assert_eq!(file.dir, "work");
            assert_eq!(file.file_name, "Tool.addin");
            assert_eq!(file_name, "Tool.addin");
        }
        other => panic!("{:?}", other),
    }
}

#[test]
fn every_copy_outcome_is_recorded_in_order() {
    let mut progress = ExportProgress::new();
    progress.directory = Some(Ok(()));
    progress.copies = vec![CopyOutcome::Failed("locked".to_string()), CopyOutcome::Missing];
    progress.manifest_copy = Some(Err("denied".to_string()));
    match next_export_step(&plan(), manifest_ok(), ChainStep::Done(Err("no tool".to_string())), &progress) {
        ExportStep::Done(ledger) => {
            assert_eq!(
                ledger.view_errors(),
                vec![
                    "Error building project: no tool",
                    "Error copying DLL Tool.dll: locked",
                    "Error copying .addin file: denied",
                ]
            );
            assert_eq!(
                ledger.view_warnings(),
                vec![
                    "planned with care",
                    "Warning: DLL not found at path: /abs/Extra.dll",
                    "Addin exported successfully",
                ]
            );
        }
        other => panic!("{:?}", other),
    }
}

#[test]
fn successful_copies_are_warnings() {
    let mut progress = ExportProgress::new();
    progress.directory = Some(Ok(()));
    progress.copies = vec![CopyOutcome::Copied, CopyOutcome::Copied];
    progress.manifest_copy = Some(Ok(()));
    match next_export_step(&plan(), manifest_ok(), built_ok(), &progress) {
        ExportStep::Done(ledger) => {
            assert!(!ledger.has_errors());
            assert_eq!(
                ledger.view_warnings(),
                vec![
                    "planned with care",
                    "Successfully copied DLL: Tool.dll",
                    "Successfully copied DLL: Extra.dll",
                    "Successfully copied .addin file",
                    "Addin exported successfully",
                ]
            );
        }
        other => panic!("{:?}", other),
    }
}

#[test]
fn report_shows_every_entry() {
    let mut ledger = ErrorList::new();
    ledger.add_warning("w1");
    ledger.add_error("e1");
    ledger.add_warning("w2");
    assert_eq!(report_lines(&ledger), vec!["Error: e1", "Warning: w1", "Warning: w2"]);
    assert!(report_lines(&ErrorList::new()).is_empty());
}

#[test]
fn addins_directory_must_exist() {
    assert_eq!(get_revit_addins_path("C:\\Addins\\2024".to_string(), true), Ok("C:\\Addins\\2024".to_string()));
    assert_eq!(
        get_revit_addins_path("C:\\Addins\\2024".to_string(), false),
        Err("Expected to find addin folder in C:\\Addins\\2024".to_string())
    );
}

#[test]
fn fresh_progress_is_empty() {
    let p = ExportProgress::new();
    assert!(p.manifest.contents.is_none() && p.manifest.answers.is_none() && p.manifest.written.is_none());
    assert!(p.manifest.preferences.is_none());
    assert!(p.builds.is_empty() && p.copies.is_empty());
    assert!(p.directory.is_none() && p.manifest_copy.is_none());
    let m = ManifestProgress::new();
    assert!(m.contents.is_none());
}

fn located(name: &str) -> Artifact {
    let forms = PathForms::Absolute {
        raw: format!("bin/{}", name),
        made: Some(format!("/abs/{}", name)),
    };
    Artifact { name: name.to_string(), path: choose_path(forms) }
}

#[test]
fn plan_is_drawn_from_what_the_searches_gave() {
    let extras = vec![
        ExtraSearch { name: "A".to_string(), found: Err("no A".to_string()) },
        ExtraSearch { name: "B".to_string(), found: Ok(located("B.dll")) },
        ExtraSearch { name: "C".to_string(), found: Err("no C".to_string()) },
        ExtraSearch { name: "D".to_string(), found: Ok(located("D.dll")) },
    ];
    let plan = draw_up_plan(Ok("Tool".to_string()), Ok(located("Tool.dll")), &extras).unwrap();
    assert_eq!(plan.project_name, "Tool");
    let names: Vec<&str> = plan.artifacts.iter().map(|a| a.name.as_str()).collect();
    assert_eq!(names, vec!["Tool.dll", "B.dll", "D.dll"]);
    let paths: Vec<&str> = plan.artifacts.iter().map(|a| a.path.path.as_str()).collect();
    assert_eq!(paths, vec!["/abs/Tool.dll", "/abs/B.dll", "/abs/D.dll"]);
    assert!(!plan.ledger.has_errors());
    assert_eq!(
        plan.ledger.view_warnings(),
        vec!["Warning: could not find DLL for A: no A", "Warning: could not find DLL for C: no C"]
    );
}

#[test]
fn plan_without_project_or_primary_library_is_fatal() {
    let extras = vec![ExtraSearch { name: "A".to_string(), found: Err("no A".to_string()) }];
    let ledger =
        draw_up_plan(Err("none".to_string()), Ok(located("Tool.dll")), &extras).unwrap_err();
    assert_eq!(
        ledger.view_errors(),
        vec!["Error getting project info. Ensure you have a .csproj file in the current directory."]
    );
    assert!(!ledger.has_warnings());
    let ledger =
        draw_up_plan(Ok("Tool".to_string()), Err("gone".to_string()), &extras).unwrap_err();
    assert_eq!(ledger.view_errors(), vec!["Error getting project DLL path: gone"]);
    assert!(!ledger.has_warnings());
}

#[test]
fn export_that_writes_the_manifest_anew_loads_preferences_then_asks() {
    let mut progress = ExportProgress::new();
    progress.manifest.contents = Some(ManifestContents::Missing);
    assert!(matches!(
        execute(&prebuilt(), &vec![], &progress),
        ExportStep::Manifest(ManifestStep::LoadPreferences)
    ));
    progress.manifest.preferences = Some(state());
    assert!(matches!(
        execute(&prebuilt(), &vec![], &progress),
        ExportStep::Manifest(ManifestStep::Ask { .. })
    ));
}

#[test]
fn export_ends_where_the_manifest_cannot_be_read() {
    let mut progress = ExportProgress::new();
    progress.manifest.contents = Some(ManifestContents::Unreadable("bad bytes".to_string()));
    match execute(&prebuilt(), &vec![], &progress) {
        ExportStep::Done(ledger) => {
            assert_eq!(ledger.view_errors(), vec!["Error creating addin file: bad bytes"]);
            assert!(!ledger.has_warnings());
        }
        other => panic!("{:?}", other),
    }
}

#[test]
fn an_extra_name_with_a_separator_does_not_change_the_fatal_outcomes() {
    let extras = vec!["sub/Extra".to_string()];
    let ledger = plan_export(&no_project(), &extras).unwrap_err();
    assert_eq!(
        ledger.view_errors(),
        vec!["Error getting project info. Ensure you have a .csproj file in the current directory."]
    );
    let plan = plan_export(&prebuilt(), &extras).unwrap();
    assert_eq!(plan.artifacts[0].name, "Tool.dll");
    assert_eq!(plan.project_name, "Tool");
}
