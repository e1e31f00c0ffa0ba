//! The adapter for MSBuild, the first tool of the build chain.

use crate::launch::{deref_launch, read_run, run_result, Launch};
use vstd::prelude::*;

verus! {

/// Why MSBuild gave no build.
#[derive(Debug)]
pub enum MsBuildError {
    /// The tool is not installed.
    NotFound,
    /// The tool failed; with what it reported.
    Output(String),
}

/// What is due next for MSBuild.
#[derive(Debug)]
pub enum MsBuildStep {
    /// Run `msbuild` from the search path on the project.
    RunSystemTool,
    /// Find out whether the tool's file in the Visual Studio directory exists.
    ProbeInstalledTool,
    /// Run the tool's file in the Visual Studio directory on the project.
    RunInstalledTool,
    Done(Result<String, MsBuildError>),
}

/// What the tool reported: nothing for `NotFound`.
pub open spec fn error_view(e: MsBuildError) -> Option<Seq<char>> {
    match e {
        MsBuildError::NotFound => None,
        MsBuildError::Output(s) => Some(s@),
    }
}

/// The outcome of MSBuild's steps, or nothing while a step is still due.
pub open spec fn build_result(
    system: Option<Launch>,
    installed: Option<bool>,
    fallback: Option<Launch>,
) -> Option<Result<Seq<char>, Option<Seq<char>>>> {
    match system {
        None => None,
        Some(Launch::Failed(_)) => match installed {
            None => None,
            Some(false) => Some(Err(None)),
            Some(true) => match fallback {
                None => None,
                Some(run) => Some(run_result(run)),
            },
        },
        Some(run) => Some(run_result(run)),
    }
}

/// A run's result as MSBuild's.
fn as_result(run: &Launch) -> (r: Result<String, MsBuildError>)
    ensures
        match r {
            Ok(out) => run_result(*run) == Ok::<Seq<char>, Option<Seq<char>>>(out@),
            Err(e) => run_result(*run) == Err::<Seq<char>, Option<Seq<char>>>(error_view(e)),
        },
{
    match read_run(run) {
        Ok(out) => Ok(out),
        Err(Some(e)) => Err(MsBuildError::Output(e)),
        Err(None) => Err(MsBuildError::NotFound),
    }
}

/// What MSBuild's adapter does next to build a project. `system` is what came
/// of running the tool from the search path, `installed` whether the tool's
/// file exists in the Visual Studio directory, `fallback` what came of
/// running that file; each is absent until it has been observed.
///
/// The tool from the search path is run first. Only where it cannot be
/// started is the Visual Studio directory looked at: the adapter is
/// unavailable where the file is missing there, and else runs that file. The
/// run that counts decides as `run_result` states it.
pub fn build_project(system: Option<&Launch>, installed: Option<bool>, fallback: Option<&Launch>) -> (r:
    MsBuildStep)
    ensures
        match r {
            MsBuildStep::RunSystemTool => system is None,
            MsBuildStep::ProbeInstalledTool => system matches Some(Launch::Failed(_))
                && installed is None,
            MsBuildStep::RunInstalledTool => system matches Some(Launch::Failed(_)) && installed
                == Some(true) && fallback is None,
            MsBuildStep::Done(Ok(out)) => build_result(
                deref_launch(system),
                installed,
                deref_launch(fallback),
            ) == Some(Ok::<Seq<char>, Option<Seq<char>>>(out@)),
            MsBuildStep::Done(Err(e)) => build_result(
                deref_launch(system),
                installed,
                deref_launch(fallback),
            ) == Some(Err::<Seq<char>, Option<Seq<char>>>(error_view(e))),
        },
{
    let first = match system {
        None => {
            return MsBuildStep::RunSystemTool;
        },
        Some(run) => run,
    };
    match first {
        Launch::Failed(_) => match installed {
            None => MsBuildStep::ProbeInstalledTool,
            Some(false) => MsBuildStep::Done(Err(MsBuildError::NotFound)),
            Some(true) => match fallback {
                None => MsBuildStep::RunInstalledTool,
                Some(run) => MsBuildStep::Done(as_result(run)),
            },
        },
        _ => MsBuildStep::Done(as_result(first)),
    }
}

} // verus!
