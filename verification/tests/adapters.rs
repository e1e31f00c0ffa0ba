use rev::dotnet::{DotnetError, DotnetStep};
use rev::launch::{read_run, Launch};
use rev::msbuild::{MsBuildError, MsBuildStep};
use rev::web_app::create_static_export;
use rev::yarn::{get_yarn_path, yarn_candidates, ProbeKind, YarnError, YarnSearch, YarnStep};

fn ok_run(out: &str) -> Launch {
    Launch::Exited { success: true, stdout: out.to_string(), stderr: "noise".to_string() }
}

fn bad_run(err: &str) -> Launch {
    Launch::Exited { success: false, stdout: "partial".to_string(), stderr: err.to_string() }
}

fn no_start(why: &str) -> Launch {
    Launch::Failed(why.to_string())
}

const HOME: &str = "C:\\Users\\me";

#[test]
fn a_run_gives_stdout_on_success_and_stderr_on_failure() {
    assert_eq!(read_run(&ok_run("built")), Ok("built".to_string()));
    assert_eq!(read_run(&bad_run("CS1002")), Err(Some("CS1002".to_string())));
}

#[test]
fn a_run_that_cannot_start_tells_that_the_tool_is_missing() {
    assert_eq!(read_run(&no_start("no such file")), Err(None));
}

#[test]
fn a_run_that_does_not_end_is_a_failure_of_the_tool() {
    assert_eq!(
        read_run(&Launch::TimedOut),
        Err(Some("The tool did not finish in time".to_string()))
    );
    match rev::msbuild::build_project(Some(&Launch::TimedOut), None, None) {
        MsBuildStep::Done(Err(MsBuildError::Output(e))) => {
            assert_eq!(e, "The tool did not finish in time")
        }
        other => panic!("{:?}", other),
    }
    match rev::dotnet::build_project(Some(&Launch::TimedOut), None) {
        DotnetStep::Done(Err(DotnetError::Output(e))) => {
            assert_eq!(e, "The tool did not finish in time")
        }
        other => panic!("{:?}", other),
    }
    match rev::dotnet::build_project(Some(&ok_run("8.0.1")), Some(&Launch::TimedOut)) {
        DotnetStep::Done(Err(DotnetError::Output(e))) => {
            assert_eq!(e, "The tool did not finish in time")
        }
        other => panic!("{:?}", other),
    }
    match rev::yarn::build(HOME, &vec![true], Some(&Launch::TimedOut)) {
        YarnStep::Done(Err(YarnError::Output(e))) => assert_eq!(e, "The tool did not finish in time"),
        other => panic!("{:?}", other),
    }
}

#[test]
fn msbuild_runs_the_system_tool_first() {
    assert!(matches!(rev::msbuild::build_project(None, None, None), MsBuildStep::RunSystemTool));
    assert!(matches!(
        rev::msbuild::build_project(None, Some(true), None),
        MsBuildStep::RunSystemTool
    ));
}

#[test]
fn msbuild_system_tool_decides_when_it_ran() {
    match rev::msbuild::build_project(Some(&ok_run("done")), None, None) {
        MsBuildStep::Done(Ok(out)) => assert_eq!(out, "done"),
        other => panic!("{:?}", other),
    }
    match rev::msbuild::build_project(Some(&bad_run("error MSB1009")), None, None) {
        MsBuildStep::Done(Err(MsBuildError::Output(e))) => assert_eq!(e, "error MSB1009"),
        other => panic!("{:?}", other),
    }
}

#[test]
fn msbuild_probes_the_installation_when_the_system_tool_is_missing() {
    let missing = no_start("not found");
    assert!(matches!(
        rev::msbuild::build_project(Some(&missing), None, None),
        MsBuildStep::ProbeInstalledTool
    ));
    assert!(matches!(
        rev::msbuild::build_project(Some(&missing), Some(false), None),
        MsBuildStep::Done(Err(MsBuildError::NotFound))
    ));
    assert!(matches!(
        rev::msbuild::build_project(Some(&missing), Some(true), None),
        MsBuildStep::RunInstalledTool
    ));
}

#[test]
fn msbuild_installed_tool_decides_last() {
    let missing = no_start("not found");
    match rev::msbuild::build_project(Some(&missing), Some(true), Some(&ok_run("vs built"))) {
        MsBuildStep::Done(Ok(out)) => assert_eq!(out, "vs built"),
        other => panic!("{:?}", other),
    }
    match rev::msbuild::build_project(Some(&missing), Some(true), Some(&bad_run("vs error"))) {
        MsBuildStep::Done(Err(MsBuildError::Output(e))) => assert_eq!(e, "vs error"),
        other => panic!("{:?}", other),
    }
    assert!(matches!(
        rev::msbuild::build_project(Some(&missing), Some(true), Some(&no_start("denied"))),
        MsBuildStep::Done(Err(MsBuildError::NotFound))
    ));
}

#[test]
fn dotnet_exists_where_it_can_be_started() {
    assert!(rev::dotnet::check_if_exists(&ok_run("8.0.1")));
    assert!(rev::dotnet::check_if_exists(&bad_run("odd")));
    assert!(rev::dotnet::check_if_exists(&Launch::TimedOut));
    assert!(!rev::dotnet::check_if_exists(&no_start("not found")));
}

#[test]
fn dotnet_probes_before_it_builds() {
    assert!(matches!(rev::dotnet::build_project(None, None), DotnetStep::Probe));
    assert!(matches!(
        rev::dotnet::build_project(Some(&no_start("not found")), None),
        DotnetStep::Done(Err(DotnetError::NotFound))
    ));
    assert!(matches!(rev::dotnet::build_project(Some(&ok_run("8.0.1")), None), DotnetStep::Run));
    assert!(matches!(rev::dotnet::build_project(Some(&bad_run("odd")), None), DotnetStep::Run));
}

#[test]
fn dotnet_build_decides() {
    let probe = ok_run("8.0.1");
    match rev::dotnet::build_project(Some(&probe), Some(&ok_run("Build succeeded"))) {
        DotnetStep::Done(Ok(out)) => assert_eq!(out, "Build succeeded"),
        other => panic!("{:?}", other),
    }
    match rev::dotnet::build_project(Some(&probe), Some(&bad_run("error CS0103"))) {
        DotnetStep::Done(Err(DotnetError::Output(e))) => assert_eq!(e, "error CS0103"),
        other => panic!("{:?}", other),
    }
    assert!(matches!(
        rev::dotnet::build_project(Some(&probe), Some(&no_start("gone"))),
        DotnetStep::Done(Err(DotnetError::NotFound))
    ));
}

#[test]
fn yarn_is_looked_for_in_four_places() {
    assert_eq!(
        yarn_candidates(HOME),
        vec![
            "C:\\Program Files\\nodejs\\yarn.cmd",
            "C:\\Program Files (x86)\\nodejs\\yarn.cmd",
            "C:\\Users\\me\\AppData\\Roaming\\npm\\yarn.cmd",
            "yarn",
        ]
    );
    assert_eq!(yarn_candidates("")[2], "\\AppData\\Roaming\\npm\\yarn.cmd");
}

#[test]
fn yarn_places_are_probed_in_order() {
    match get_yarn_path(HOME, &vec![]) {
        YarnSearch::Probe { index, place, how } => {
            assert_eq!(index, 0);
            assert_eq!(place, "C:\\Program Files\\nodejs\\yarn.cmd");
            assert_eq!(how, ProbeKind::FileExists);
        }
        other => panic!("{:?}", other),
    }
    match get_yarn_path(HOME, &vec![false, false]) {
        YarnSearch::Probe { index, place, how } => {
            assert_eq!(index, 2);
            assert_eq!(place, "C:\\Users\\me\\AppData\\Roaming\\npm\\yarn.cmd");
            assert_eq!(how, ProbeKind::FileExists);
        }
        other => panic!("{:?}", other),
    }
    match get_yarn_path(HOME, &vec![false, false, false]) {
        YarnSearch::Probe { index, place, how } => {
            assert_eq!(index, 3);
            assert_eq!(place, "yarn");
            assert_eq!(how, ProbeKind::CanStart);
        }
        other => panic!("{:?}", other),
    }
    assert!(matches!(get_yarn_path(HOME, &vec![false, false, false, false]), YarnSearch::Missing));
}

#[test]
fn yarn_takes_the_first_usable_place() {
    match get_yarn_path(HOME, &vec![false, true]) {
        YarnSearch::Found(tool) => assert_eq!(tool, "C:\\Program Files (x86)\\nodejs\\yarn.cmd"),
        other => panic!("{:?}", other),
    }
    match get_yarn_path(HOME, &vec![true, true]) {
        YarnSearch::Found(tool) => assert_eq!(tool, "C:\\Program Files\\nodejs\\yarn.cmd"),
        other => panic!("{:?}", other),
    }
    match get_yarn_path(HOME, &vec![false, false, false, true]) {
        YarnSearch::Found(tool) => assert_eq!(tool, "yarn"),
        other => panic!("{:?}", other),
    }
}

#[test]
fn yarn_build_goes_through_search_run_and_result() {
    assert!(matches!(rev::yarn::build(HOME, &vec![], None), YarnStep::Probe { index: 0, .. }));
    assert!(matches!(
        rev::yarn::build(HOME, &vec![false, false, false, false], None),
        YarnStep::Done(Err(YarnError::NotFound))
    ));
    match rev::yarn::build(HOME, &vec![false, false, false, true], None) {
        YarnStep::Run { tool } => assert_eq!(tool, "yarn"),
        other => panic!("{:?}", other),
    }
    match rev::yarn::build(HOME, &vec![true], Some(&ok_run("exported"))) {
        YarnStep::Done(Ok(out)) => assert_eq!(out, "exported"),
        other => panic!("{:?}", other),
    }
    match rev::yarn::build(HOME, &vec![false, true], Some(&bad_run("lint failed"))) {
        YarnStep::Done(Err(YarnError::Output(e))) => assert_eq!(e, "lint failed"),
        other => panic!("{:?}", other),
    }
    assert!(matches!(
        rev::yarn::build(HOME, &vec![true], Some(&no_start("busy"))),
        YarnStep::Done(Err(YarnError::NotFound))
    ));
}

#[test]
fn static_export_words() {
    assert_eq!(create_static_export(&Ok("fine".to_string())), Ok(()));
    assert_eq!(
        create_static_export(&Err(YarnError::NotFound)),
        Err("Yarn is not installed on this system".to_string())
    );
    assert_eq!(
        create_static_export(&Err(YarnError::Output("boom".to_string()))),
        Err("Failed to run yarn build: boom".to_string())
    );
}
