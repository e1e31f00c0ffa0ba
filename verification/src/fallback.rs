//! The chain of build tools: they are tried in a fixed order, the first
//! success ends the chain, and where all fail the failure of the last one is
//! the chain's.

use crate::dotnet::DotnetError;
use crate::locator::DirListing;
use crate::msbuild::MsBuildError;
use crate::project::{get_csproj_path, is_csproj_path};
use crate::text::joined;
use vstd::prelude::*;

verus! {

/// A build tool.
#[derive(Clone, Copy, Debug, PartialEq, Eq, Structural)]
pub enum Backend {
    MsBuild,
    Dotnet,
}

/// Why a tool gave no build.
#[derive(Debug)]
pub enum FailureKind {
    /// The tool could not be started at all.
    ToolNotFound,
    /// The tool ran and reported an error; with its message.
    ToolReportedError(String),
}

/// What one tool made of the project.
#[derive(Debug)]
pub enum BuildOutcome {
    Success { captured_output: String },
    Failure { kind: FailureKind },
}

/// What the chain does next.
#[derive(Debug)]
pub enum ChainStep {
    /// Run `backend` on the project. `notice` tells why the tool before it
    /// gave no build; it is for the user's information only.
    Run { backend: Backend, project_path: String, notice: Option<String> },
    /// The chain has ended: with the output of the tool that succeeded, or
    /// with the reason why the last tool failed.
    Done(Result<String, String>),
}

/// A chain step over texts.
pub enum ChainStepView {
    Run { backend: Backend, project_path: Seq<char>, notice: Option<Seq<char>> },
    Done(Result<Seq<char>, Seq<char>>),
}

impl View for ChainStep {
    type V = ChainStepView;

    open spec fn view(&self) -> ChainStepView {
        match *self {
            ChainStep::Run { backend, project_path, notice } => ChainStepView::Run {
                backend,
                project_path: project_path@,
                notice: match notice {
                    Some(n) => Some(n@),
                    None => None,
                },
            },
            ChainStep::Done(Ok(out)) => ChainStepView::Done(Ok(out@)),
            ChainStep::Done(Err(e)) => ChainStepView::Done(Err(e@)),
        }
    }
}

/// The words that tell why `backend` gave no build.
pub open spec fn diagnostic(backend: Backend, kind: FailureKind) -> Seq<char> {
    match (backend, kind) {
        (Backend::MsBuild, FailureKind::ToolNotFound) =>
            "Could not find MSBuild installation. Defaulting to using dotnet to build the project..."@,
        (Backend::MsBuild, FailureKind::ToolReportedError(m)) => "Error building with MSBuild: "@
            + m@,
        (Backend::Dotnet, FailureKind::ToolNotFound) =>
            "Could not find Dotnet installation on system"@,
        (Backend::Dotnet, FailureKind::ToolReportedError(m)) => "Error building with dotnet: "@
            + m@,
    }
}

/// The words for the failure of the adapter before `k`; none where `k` is
/// the first or that adapter did not fail.
pub open spec fn notice_before(adapters: Seq<Backend>, outcomes: Seq<BuildOutcome>, k: int)
    -> Option<Seq<char>> {
    if 0 < k <= adapters.len() && k <= outcomes.len() {
        match outcomes[k - 1] {
            BuildOutcome::Failure { kind } => Some(diagnostic(adapters[k - 1], kind)),
            BuildOutcome::Success { .. } => None,
        }
    } else {
        None
    }
}

/// What the chain does from adapter `k` on, all adapters before it having
/// failed. `outcomes` holds what the adapters tried so far made of the
/// project, in the order of `adapters`.
pub open spec fn chain_from(
    project_path: Seq<char>,
    adapters: Seq<Backend>,
    outcomes: Seq<BuildOutcome>,
    k: int,
) -> ChainStepView
    decreases adapters.len() - k,
{
    if k < 0 || k >= adapters.len() {
        ChainStepView::Done(
            Err(
                match notice_before(adapters, outcomes, k) {
                    Some(words) => words,
                    None => "No build tool to try"@,
                },
            ),
        )
    } else if k >= outcomes.len() {
        ChainStepView::Run {
            backend: adapters[k],
            project_path,
            notice: notice_before(adapters, outcomes, k),
        }
    } else {
        match outcomes[k] {
            BuildOutcome::Success { captured_output } => ChainStepView::Done(Ok(captured_output@)),
            BuildOutcome::Failure { .. } => chain_from(project_path, adapters, outcomes, k + 1),
        }
    }
}

/// Tells in words why `backend` gave no build.
pub fn describe_failure(backend: Backend, kind: &FailureKind) -> (words: String)
    ensures
        words@ == diagnostic(backend, *kind),
{
    match backend {
        Backend::MsBuild => match kind {
            FailureKind::ToolNotFound =>
                "Could not find MSBuild installation. Defaulting to using dotnet to build the project...".to_owned(),
            FailureKind::ToolReportedError(m) => joined("Error building with MSBuild: ", m.as_str()),
        },
        Backend::Dotnet => match kind {
            FailureKind::ToolNotFound => "Could not find Dotnet installation on system".to_owned(),
            FailureKind::ToolReportedError(m) => joined("Error building with dotnet: ", m.as_str()),
        },
    }
}

/// The next step of the chain. `adapters` are the tools in the order of their
/// priority, `outcomes` what the tools tried so far made of the project, in
/// that order.
///
/// The tools are run strictly in order. The first success ends the chain with
/// that tool's output, and no tool after it is run. A failure of either kind
/// lets the next tool run. Where every tool has failed, the chain ends with
/// the words for the failure of the last one; what the tools before it
/// reported is not part of the result.
pub fn build_with_fallback(project_path: &str, adapters: &Vec<Backend>, outcomes: &Vec<BuildOutcome>) -> (r:
    ChainStep)
    ensures
        r@ == chain_from(project_path@, adapters@, outcomes@, 0),
{
    let mut notice: Option<String> = None;
    let mut k: usize = 0;
    while k < adapters.len() && k < outcomes.len()
        invariant
            k <= adapters@.len(),
            k <= outcomes@.len(),
            chain_from(project_path@, adapters@, outcomes@, 0) == chain_from(
                project_path@,
                adapters@,
                outcomes@,
                k as int,
            ),
            match notice {
                Some(n) => notice_before(adapters@, outcomes@, k as int) == Some(n@),
                None => notice_before(adapters@, outcomes@, k as int) is None,
            },
        decreases adapters@.len() - k,
    {
        match &outcomes[k] {
            BuildOutcome::Success { captured_output } => {
                return ChainStep::Done(Ok(captured_output.clone()));
            },
            BuildOutcome::Failure { kind } => {
                notice = Some(describe_failure(adapters[k], kind));
            },
        }
        k = k + 1;
    }
    if k < adapters.len() {
        ChainStep::Run { backend: adapters[k], project_path: project_path.to_owned(), notice }
    } else {
        ChainStep::Done(
            Err(
                match notice {
                    Some(words) => words,
                    None => "No build tool to try".to_owned(),
                },
            ),
        )
    }
}

/// The first success ends the chain with that tool's output, whatever the
/// tools before it reported: nothing of their failures is in the result.
pub proof fn lemma_first_success_wins(
    project_path: Seq<char>,
    adapters: Seq<Backend>,
    outcomes: Seq<BuildOutcome>,
    winner: int,
)
    requires
        0 <= winner < adapters.len(),
        winner < outcomes.len(),
        outcomes[winner] is Success,
        forall|j: int| 0 <= j < winner ==> outcomes[j] is Failure,
    ensures
        chain_from(project_path, adapters, outcomes, 0) == ChainStepView::Done(
            Ok(outcomes[winner]->captured_output@),
        ),
{
    lemma_failures_skipped(project_path, adapters, outcomes, winner);
}

/// Where every tool has failed, the chain ends with the words for the
/// failure of the last tool, whatever the tools before it reported.
pub proof fn lemma_last_failure_reported(
    project_path: Seq<char>,
    adapters: Seq<Backend>,
    outcomes: Seq<BuildOutcome>,
)
    requires
        adapters.len() > 0,
        outcomes.len() >= adapters.len(),
        forall|j: int| 0 <= j < adapters.len() ==> outcomes[j] is Failure,
    ensures
        chain_from(project_path, adapters, outcomes, 0) == ChainStepView::Done(
            Err(diagnostic(adapters.last(), outcomes[adapters.len() - 1]->kind)),
        ),
{
    lemma_failures_skipped(project_path, adapters, outcomes, adapters.len() as int);
}

/// While tools have been tried and have failed, and one is left, that one is
/// run next: the tools are tried strictly in order.
pub proof fn lemma_next_in_order(
    project_path: Seq<char>,
    adapters: Seq<Backend>,
    outcomes: Seq<BuildOutcome>,
)
    requires
        outcomes.len() < adapters.len(),
        forall|j: int| 0 <= j < outcomes.len() ==> outcomes[j] is Failure,
    ensures
        chain_from(project_path, adapters, outcomes, 0) matches ChainStepView::Run {
            backend,
            ..
        } && backend == adapters[outcomes.len() as int],
{
    lemma_failures_skipped(project_path, adapters, outcomes, outcomes.len() as int);
}

/// The chain passes over the tools that failed.
proof fn lemma_failures_skipped(
    project_path: Seq<char>,
    adapters: Seq<Backend>,
    outcomes: Seq<BuildOutcome>,
    k: int,
)
    requires
        0 <= k <= adapters.len(),
        k <= outcomes.len(),
        forall|j: int| 0 <= j < k ==> outcomes[j] is Failure,
    ensures
        chain_from(project_path, adapters, outcomes, 0) == chain_from(
            project_path,
            adapters,
            outcomes,
            k,
        ),
    decreases k,
{
    if k > 0 {
        lemma_failures_skipped(project_path, adapters, outcomes, k - 1);
    }
}

/// MSBuild's result as an outcome of the chain.
pub fn msbuild_outcome(result: Result<String, MsBuildError>) -> (r: BuildOutcome)
    ensures
        match result {
            Ok(out) => r matches BuildOutcome::Success { captured_output } && captured_output@
                == out@,
            Err(MsBuildError::NotFound) => r matches BuildOutcome::Failure {
                kind: FailureKind::ToolNotFound,
            },
            Err(MsBuildError::Output(m)) => r matches BuildOutcome::Failure {
                kind: FailureKind::ToolReportedError(t),
            } && t@ == m@,
        },
{
    match result {
        Ok(out) => BuildOutcome::Success { captured_output: out },
        Err(MsBuildError::NotFound) => BuildOutcome::Failure { kind: FailureKind::ToolNotFound },
        Err(MsBuildError::Output(m)) => BuildOutcome::Failure {
            kind: FailureKind::ToolReportedError(m),
        },
    }
}

/// `dotnet`'s result as an outcome of the chain.
pub fn dotnet_outcome(result: Result<String, DotnetError>) -> (r: BuildOutcome)
    ensures
        match result {
            Ok(out) => r matches BuildOutcome::Success { captured_output } && captured_output@
                == out@,
            Err(DotnetError::NotFound) => r matches BuildOutcome::Failure {
                kind: FailureKind::ToolNotFound,
            },
            Err(DotnetError::Output(m)) => r matches BuildOutcome::Failure {
                kind: FailureKind::ToolReportedError(t),
            } && t@ == m@,
        },
{
    match result {
        Ok(out) => BuildOutcome::Success { captured_output: out },
        Err(DotnetError::NotFound) => BuildOutcome::Failure { kind: FailureKind::ToolNotFound },
        Err(DotnetError::Output(m)) => BuildOutcome::Failure {
            kind: FailureKind::ToolReportedError(m),
        },
    }
}

/// The tools that build a project, in the order of their priority.
pub fn default_adapters() -> (adapters: Vec<Backend>)
    ensures
        adapters@ == seq![Backend::MsBuild, Backend::Dotnet],
{
    let mut adapters: Vec<Backend> = Vec::new();
    adapters.push(Backend::MsBuild);
    adapters.push(Backend::Dotnet);
    assert(adapters@ =~= seq![Backend::MsBuild, Backend::Dotnet]);
    adapters
}

/// What holds of the step that is due for building the project below
/// `start`: without a project file the build has failed; else it is the step
/// of the chain of MSBuild and `dotnet` on the project file.
pub open spec fn build_due(start: DirListing, outcomes: Seq<BuildOutcome>, step: ChainStep) -> bool {
    exists|path: Option<String>| #[trigger]
        is_csproj_path(start, path) && step@ == (match path {
            None => ChainStepView::Done(Err("No csproj file found"@)),
            Some(p) => chain_from(p@, seq![Backend::MsBuild, Backend::Dotnet], outcomes, 0),
        })
}

/// The next step of building the project below `start`, given what the tools
/// tried so far made of it: MSBuild is tried first and `dotnet` after it.
/// The build has ended where this returns `Done`: with the output of the
/// tool that succeeded, or with the reason for the failure.
pub fn build_project(start: &DirListing, outcomes: &Vec<BuildOutcome>) -> (r: ChainStep)
    ensures
        build_due(*start, outcomes@, r),
{
    let path = get_csproj_path(start);
    let r = match &path {
        Some(p) => build_with_fallback(p.as_str(), &default_adapters(), outcomes),
        None => ChainStep::Done(Err("No csproj file found".to_owned())),
    };
    assert(is_csproj_path(*start, path));
    r
}

} // verus!
