//! What comes of running a program, as the build tools' adapters read it.
//! Running is left to the caller.

use vstd::prelude::*;

verus! {

/// What came of starting a program.
#[derive(Debug)]
pub enum Launch {
    /// The program could not be started; with the system's reason.
    Failed(String),
    /// The program ran to its end.
    Exited { success: bool, stdout: String, stderr: String },
    /// The program was started and did not end within the time it was given.
    TimedOut,
}

/// The words for a run that did not end in time.
pub open spec fn timeout_words() -> Seq<char> {
    "The tool did not finish in time"@
}

/// What a run amounts to. One that came to its end gives its standard output
/// where it succeeded, else its standard error as the tool's failure. One
/// that did not end in time is a failure of the tool too. One that could not
/// be started tells that the tool is not there: the failure is without
/// words.
pub open spec fn run_result(run: Launch) -> Result<Seq<char>, Option<Seq<char>>> {
    match run {
        Launch::Exited { success, stdout, stderr } => if success {
            Ok(stdout@)
        } else {
            Err(Some(stderr@))
        },
        Launch::Failed(_) => Err(None),
        Launch::TimedOut => Err(Some(timeout_words())),
    }
}

/// Reads a run as `run_result` states it.
pub fn read_run(run: &Launch) -> (r: Result<String, Option<String>>)
    ensures
        match r {
            Ok(out) => run_result(*run) == Ok::<Seq<char>, Option<Seq<char>>>(out@),
            Err(Some(e)) => run_result(*run) == Err::<Seq<char>, Option<Seq<char>>>(Some(e@)),
            Err(None) => run_result(*run) == Err::<Seq<char>, Option<Seq<char>>>(None),
        },
{
    match run {
        Launch::Exited { success, stdout, stderr } => {
            if *success {
                Ok(stdout.clone())
            } else {
                Err(Some(stderr.clone()))
            }
        },
        Launch::Failed(_) => Err(None),
        Launch::TimedOut => Err(Some("The tool did not finish in time".to_owned())),
    }
}

/// The run behind an optional reference.
pub open spec fn deref_launch(run: Option<&Launch>) -> Option<Launch> {
    match run {
        Some(r) => Some(*r),
        None => None,
    }
}

} // verus!
