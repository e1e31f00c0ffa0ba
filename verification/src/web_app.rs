//! The web application that an add-in may carry: where there is one, its
//! static files are built with `yarn` and go into the add-in's directory.

use crate::locator::{descend, plain_names, search_down, DirListing};
use crate::locator::within;
use crate::paths::{absolute_or_raw, is_absolute_offer, OfferedPath};
use crate::project::SEARCH_DEPTH;
use crate::text::joined;
use crate::yarn::YarnError;
use vstd::prelude::*;

verus! {

/// What has been observed so far of the web application's export.
#[derive(Debug)]
pub struct WebProgress {
    /// What `yarn` made of the application.
    pub built: Option<Result<String, YarnError>>,
    /// Whether the directory `out` is there after the build.
    pub output_present: Option<bool>,
    /// Whether that directory was copied.
    pub copied: bool,
}

/// How the web application's export ended.
#[derive(Debug)]
pub enum WebOutcome {
    /// There is no directory `node_modules`, so there is no web application.
    NoWebApp,
    /// The build failed; with the words to show.
    Failed(String),
    /// The build left no directory `out` in `dir`.
    OutputMissing { dir: OfferedPath },
    Exported,
}

/// What the web application's export does next.
#[derive(Debug)]
pub enum WebStep {
    /// Run `yarn build` in `working_dir`.
    RunYarn { working_dir: OfferedPath },
    /// Find out whether `dir` holds a directory `out`.
    ProbeOutput { dir: OfferedPath },
    /// Create the directory `web` in the add-in's directory and copy the
    /// directory `out` of `dir` to it.
    CopyOutput { dir: OfferedPath },
    Done(WebOutcome),
}

/// Whether a downward search from `start` finds an entry `node_modules`.
pub open spec fn has_web_app(start: DirListing) -> bool {
    descend(start, "node_modules"@, SEARCH_DEPTH as nat) is Some
}

/// What a build of the web application amounts to for the export: nothing
/// to hand on where it succeeded, else the words for its failure.
pub fn create_static_export(built: &Result<String, YarnError>) -> (r: Result<(), String>)
    ensures
        match *built {
            Ok(_) => r is Ok,
            Err(YarnError::NotFound) => r matches Err(e) && e@
                == "Yarn is not installed on this system"@,
            Err(YarnError::Output(o)) => r matches Err(e) && e@ == "Failed to run yarn build: "@
                + o@,
        },
{
    match built {
        Ok(_) => Ok(()),
        Err(YarnError::NotFound) => Err("Yarn is not installed on this system".to_owned()),
        Err(YarnError::Output(o)) => Err(joined("Failed to run yarn build: ", o.as_str())),
    }
}

/// The words for a build of the web application that failed.
pub open spec fn web_failure(e: YarnError) -> Seq<char> {
    "Error exporting web app: "@ + (match e {
        YarnError::NotFound => "Yarn is not installed on this system"@,
        YarnError::Output(o) => "Failed to run yarn build: "@ + o@,
    })
}

/// Whether `r` is the step that is due for a web application whose
/// directory is `dir`, absent where there is none.
pub open spec fn web_next(dir: Option<OfferedPath>, progress: WebProgress, r: WebStep) -> bool {
    match dir {
        None => r matches WebStep::Done(WebOutcome::NoWebApp),
        Some(d) => match progress.built {
            None => r matches WebStep::RunYarn { working_dir } && working_dir == d,
            Some(Err(e)) => r matches WebStep::Done(WebOutcome::Failed(words)) && words@
                == web_failure(e),
            Some(Ok(_)) => match progress.output_present {
                None => r matches WebStep::ProbeOutput { dir } && dir == d,
                Some(false) => r matches WebStep::Done(WebOutcome::OutputMissing { dir }) && dir
                    == d,
                Some(true) => if progress.copied {
                    r matches WebStep::Done(WebOutcome::Exported)
                } else {
                    r matches WebStep::CopyOutput { dir } && dir == d
                },
            },
        },
    }
}

/// The next step of exporting the web application in `dir`, given what
/// was observed so far; `dir` is absent where there is no web application.
///
/// Without a web application there is nothing to export. Else `yarn` builds
/// the application in its directory. A failed build ends the export with the
/// words for it. After a build the directory `out` is looked for in the
/// application's directory; where it is missing the export ends, and else
/// it is copied and the export has succeeded.
pub fn next_web_step(dir: Option<OfferedPath>, progress: &WebProgress) -> (r: WebStep)
    ensures
        web_next(dir, *progress, r),
{
    let dir = match dir {
        Some(dir) => dir,
        None => {
            return WebStep::Done(WebOutcome::NoWebApp);
        },
    };
    let built = match &progress.built {
        None => {
            return WebStep::RunYarn { working_dir: dir };
        },
        Some(built) => built,
    };
    match create_static_export(built) {
        Ok(_) => {},
        Err(why) => {
            return WebStep::Done(
                WebOutcome::Failed(joined("Error exporting web app: ", why.as_str())),
            );
        },
    }
    match progress.output_present {
        None => WebStep::ProbeOutput { dir },
        Some(false) => WebStep::Done(WebOutcome::OutputMissing { dir }),
        Some(true) => if progress.copied {
            WebStep::Done(WebOutcome::Exported)
        } else {
            WebStep::CopyOutput { dir }
        },
    }
}

/// Whether `dir` is the directory of the web application below `start`: the
/// absolute form of the path of the directory that lists `node_modules`,
/// which a downward search of `SEARCH_DEPTH` levels finds; absent where it
/// finds none. Where a name that the search looks at holds a path separator,
/// it is the absolute form of the path of some directory no more than
/// `SEARCH_DEPTH` levels down.
pub open spec fn is_web_dir(start: DirListing, dir: Option<OfferedPath>) -> bool {
    &&& plain_names(start, SEARCH_DEPTH as nat) ==> (match dir {
        Some(offer) => descend(start, "node_modules"@, SEARCH_DEPTH as nat) matches Some((d, _))
            && is_absolute_offer(offer, d.path@),
        None => !has_web_app(start),
    })
    &&& dir matches Some(offer) ==> exists|d: DirListing| #[trigger]
        within(start, d, SEARCH_DEPTH as nat) && is_absolute_offer(offer, d.path@)
}

/// The next step of exporting the web application below `start`, given
/// what was observed so far. The application's directory is the one that
/// lists `node_modules`, looked for below `start`; the step is that of
/// `next_web_step` for it, and hands that directory out where it names one.
pub fn build_if_exists(start: &DirListing, progress: &WebProgress) -> (r: WebStep)
    ensures
        exists|dir: Option<OfferedPath>|
            is_web_dir(*start, dir) && #[trigger] web_next(dir, *progress, r),
{
    proof {
        reveal_strlit("node_modules");
    }
    let dir = match search_down(start, "node_modules", SEARCH_DEPTH) {
        Some((d, _)) => {
            let offer = absolute_or_raw(d.path.clone());
            assert(within(*start, *d, SEARCH_DEPTH as nat) && is_absolute_offer(offer, d.path@));
            Some(offer)
        },
        None => None,
    };
    let r = next_web_step(dir, progress);
    assert(is_web_dir(*start, dir) && web_next(dir, *progress, r));
    r
}

} // verus!
