//! The adapter for `yarn`, which builds an add-in's web application.

use crate::launch::{deref_launch, read_run, run_result, Launch};
use crate::text::{joined, texts};
use vstd::prelude::*;

verus! {

/// Why `yarn` gave no build.
#[derive(Debug)]
pub enum YarnError {
    /// The tool is not installed.
    NotFound,
    /// The tool failed; with what it reported.
    Output(String),
}

/// What the tool reported: nothing for `NotFound`.
pub open spec fn error_view(e: YarnError) -> Option<Seq<char>> {
    match e {
        YarnError::NotFound => None,
        YarnError::Output(s) => Some(s@),
    }
}

/// How many places `yarn` is looked for in.
pub const PLACES: usize = 4;

/// The places where `yarn` is looked for, in order: two program directories,
/// the user's own package directory below `user_profile`, and last the bare
/// name, which stands for the search path.
pub open spec fn yarn_places(user_profile: Seq<char>) -> Seq<Seq<char>> {
    seq![
        "C:\\Program Files\\nodejs\\yarn.cmd"@,
        "C:\\Program Files (x86)\\nodejs\\yarn.cmd"@,
        user_profile + "\\AppData\\Roaming\\npm\\yarn.cmd"@,
        "yarn"@,
    ]
}

/// The places where `yarn` is looked for.
pub fn yarn_candidates(user_profile: &str) -> (places: Vec<String>)
    ensures
        texts(places@) == yarn_places(user_profile@),
        places@.len() == PLACES,
{
    let mut places: Vec<String> = Vec::new();
    places.push("C:\\Program Files\\nodejs\\yarn.cmd".to_owned());
    places.push("C:\\Program Files (x86)\\nodejs\\yarn.cmd".to_owned());
    places.push(joined(user_profile, "\\AppData\\Roaming\\npm\\yarn.cmd"));
    places.push("yarn".to_owned());
    assert(texts(places@) =~= yarn_places(user_profile@));
    places
}

/// The first place that was found usable.
pub open spec fn first_usable(usable: Seq<bool>, from: int) -> Option<int>
    decreases usable.len() - from,
{
    if from < 0 || from >= usable.len() || from >= PLACES {
        None
    } else if usable[from] {
        Some(from)
    } else {
        first_usable(usable, from + 1)
    }
}

/// How a place is found usable.
#[derive(Clone, Copy, Debug, PartialEq, Eq, Structural)]
pub enum ProbeKind {
    /// The place is usable where a file of that path exists.
    FileExists,
    /// The place is usable where the tool can be started from it to tell its
    /// version.
    CanStart,
}

/// How the place with index `index` is probed: the last place, which is the
/// bare name, by starting it, every other by looking for the file.
pub open spec fn probe_kind(index: int) -> ProbeKind {
    if index + 1 == PLACES {
        ProbeKind::CanStart
    } else {
        ProbeKind::FileExists
    }
}

/// How far the search for `yarn` has come.
#[derive(Debug)]
pub enum YarnSearch {
    /// Find out whether the place with this index can be used, in the way
    /// that `how` names.
    Probe { index: usize, place: String, how: ProbeKind },
    /// The tool to use.
    Found(String),
    /// None of the places can be used.
    Missing,
}

/// Looks for `yarn`, one place at a time. `usable` holds what was found of
/// the places looked at so far, in order.
///
/// The places are looked at in order and the first usable one is taken; no
/// place is looked at after it. With none usable, `yarn` is missing.
pub fn get_yarn_path(user_profile: &str, usable: &Vec<bool>) -> (r: YarnSearch)
    ensures
        match first_usable(usable@, 0) {
            Some(k) => r matches YarnSearch::Found(tool) && tool@ == yarn_places(
                user_profile@,
            )[k],
            None => if usable@.len() < PLACES {
                r matches YarnSearch::Probe { index, place, how } && index == usable@.len()
                    && place@ == yarn_places(user_profile@)[index as int] && how == probe_kind(
                    index as int,
                )
            } else {
                r is Missing
            },
        },
{
    let places = yarn_candidates(user_profile);
    let mut k: usize = 0;
    while k < usable.len() && k < PLACES
        invariant
            k <= usable@.len(),
            k <= PLACES,
            places@.len() == PLACES,
            texts(places@) == yarn_places(user_profile@),
            first_usable(usable@, 0) == first_usable(usable@, k as int),
        decreases usable@.len() - k,
    {
        if usable[k] {
            assert(texts(places@)[k as int] == places@[k as int]@);
            return YarnSearch::Found(places[k].clone());
        }
        k = k + 1;
    }
    if k < PLACES {
        assert(texts(places@)[k as int] == places@[k as int]@);
        let how = if k + 1 == PLACES {
            ProbeKind::CanStart
        } else {
            ProbeKind::FileExists
        };
        YarnSearch::Probe { index: k, place: places[k].clone(), how }
    } else {
        YarnSearch::Missing
    }
}

/// What is due next for `yarn`.
#[derive(Debug)]
pub enum YarnStep {
    /// Go on looking for the tool, as `YarnSearch::Probe` says.
    Probe { index: usize, place: String, how: ProbeKind },
    /// Run `build` with this tool in the application's directory.
    Run { tool: String },
    Done(Result<String, YarnError>),
}

/// The outcome of `yarn`'s steps, or nothing while a step is still due.
pub open spec fn build_result(usable: Seq<bool>, run: Option<Launch>) -> Option<
    Result<Seq<char>, Option<Seq<char>>>,
> {
    match first_usable(usable, 0) {
        None => if usable.len() >= PLACES {
            Some(Err(None))
        } else {
            None
        },
        Some(_) => match run {
            None => None,
            Some(run) => Some(run_result(run)),
        },
    }
}

/// A run's result as `yarn`'s.
fn as_result(run: &Launch) -> (r: Result<String, YarnError>)
    ensures
        match r {
            Ok(out) => run_result(*run) == Ok::<Seq<char>, Option<Seq<char>>>(out@),
            Err(e) => run_result(*run) == Err::<Seq<char>, Option<Seq<char>>>(error_view(e)),
        },
{
    match read_run(run) {
        Ok(out) => Ok(out),
        Err(Some(e)) => Err(YarnError::Output(e)),
        Err(None) => Err(YarnError::NotFound),
    }
}

/// What `yarn`'s adapter does next to build a web application. `usable` holds
/// what was found of the places looked at so far, `run` is what came of the
/// build, absent until it has been observed.
///
/// The tool is looked for first, as `get_yarn_path` does it; without it the
/// adapter is unavailable. The build decides as `run_result` states it.
pub fn build(user_profile: &str, usable: &Vec<bool>, run: Option<&Launch>) -> (r: YarnStep)
    ensures
        match r {
            YarnStep::Probe { index, place, how } => first_usable(usable@, 0) is None && index
                == usable@.len() && index < PLACES && place@ == yarn_places(
                user_profile@,
            )[index as int] && how == probe_kind(index as int),
            YarnStep::Run { tool } => first_usable(usable@, 0) matches Some(k) && tool@
                == yarn_places(user_profile@)[k] && run is None,
            YarnStep::Done(Ok(out)) => build_result(usable@, deref_launch(run)) == Some(
                Ok::<Seq<char>, Option<Seq<char>>>(out@),
            ),
            YarnStep::Done(Err(e)) => build_result(usable@, deref_launch(run)) == Some(
                Err::<Seq<char>, Option<Seq<char>>>(error_view(e)),
            ),
        },
{
    match get_yarn_path(user_profile, usable) {
        YarnSearch::Probe { index, place, how } => YarnStep::Probe { index, place, how },
        YarnSearch::Missing => YarnStep::Done(Err(YarnError::NotFound)),
        YarnSearch::Found(tool) => match run {
            None => YarnStep::Run { tool },
            Some(run) => YarnStep::Done(as_result(run)),
        },
    }
}

} // verus!
