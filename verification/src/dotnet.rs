//! The adapter for `dotnet`, the second tool of the build chain.

use crate::launch::{deref_launch, read_run, run_result, Launch};
use vstd::prelude::*;

verus! {

/// Why `dotnet` gave no build.
#[derive(Debug)]
pub enum DotnetError {
    /// The tool is not installed.
    NotFound,
    /// The tool failed; with what it reported.
    Output(String),
}

/// What is due next for `dotnet`.
#[derive(Debug)]
pub enum DotnetStep {
    /// Run `dotnet --version`.
    Probe,
    /// Run `dotnet build` on the project.
    Run,
    Done(Result<String, DotnetError>),
}

/// What the tool reported: nothing for `NotFound`.
pub open spec fn error_view(e: DotnetError) -> Option<Seq<char>> {
    match e {
        DotnetError::NotFound => None,
        DotnetError::Output(s) => Some(s@),
    }
}

/// Whether the tool is there, given what came of asking it for its version:
/// it is there where it could be started, however that run went on.
pub fn check_if_exists(probe: &Launch) -> (b: bool)
    ensures
        b == !(probe is Failed),
{
    match probe {
        Launch::Failed(_) => false,
        _ => true,
    }
}

/// The outcome of `dotnet`'s steps, or nothing while a step is still due.
pub open spec fn build_result(probe: Option<Launch>, run: Option<Launch>) -> Option<
    Result<Seq<char>, Option<Seq<char>>>,
> {
    match probe {
        None => None,
        Some(Launch::Exited { .. }) => match run {
            None => None,
            Some(run) => Some(run_result(run)),
        },
        Some(probe) => Some(run_result(probe)),
    }
}

/// A run's result as `dotnet`'s.
fn as_result(run: &Launch) -> (r: Result<String, DotnetError>)
    ensures
        match r {
            Ok(out) => run_result(*run) == Ok::<Seq<char>, Option<Seq<char>>>(out@),
            Err(e) => run_result(*run) == Err::<Seq<char>, Option<Seq<char>>>(error_view(e)),
        },
{
    match read_run(run) {
        Ok(out) => Ok(out),
        Err(Some(e)) => Err(DotnetError::Output(e)),
        Err(None) => Err(DotnetError::NotFound),
    }
}

/// What `dotnet`'s adapter does next to build a project. `probe` is what came
/// of asking the tool for its version, `run` what came of the build; each is
/// absent until it has been observed.
///
/// The tool is asked for its version first. Where it cannot be started, the
/// adapter is unavailable; where it does not answer in time, that is its
/// failure; where it answers, it does not matter how. Then the build is run
/// and decides as `run_result` states it.
pub fn build_project(probe: Option<&Launch>, run: Option<&Launch>) -> (r: DotnetStep)
    ensures
        match r {
            DotnetStep::Probe => probe is None,
            DotnetStep::Run => probe matches Some(Launch::Exited { .. }) && run is None,
            DotnetStep::Done(Ok(out)) => build_result(deref_launch(probe), deref_launch(run))
                == Some(Ok::<Seq<char>, Option<Seq<char>>>(out@)),
            DotnetStep::Done(Err(e)) => build_result(deref_launch(probe), deref_launch(run))
                == Some(Err::<Seq<char>, Option<Seq<char>>>(error_view(e))),
        },
{
    let probe = match probe {
        None => {
            return DotnetStep::Probe;
        },
        Some(probe) => probe,
    };
    if !check_if_exists(probe) {
        return DotnetStep::Done(Err(DotnetError::NotFound));
    }
    match probe {
        Launch::Exited { .. } => match run {
            None => DotnetStep::Run,
            Some(run) => DotnetStep::Done(as_result(run)),
        },
        _ => DotnetStep::Done(as_result(probe)),
    }
}

} // verus!
