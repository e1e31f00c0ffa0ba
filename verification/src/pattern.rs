//! Shell-style name patterns, matched by the `glob` crate.

use glob::Pattern;
use vstd::prelude::*;

verus! {

/// Whether `s` holds neither `/` nor `\`, the characters that some platform
/// reads as a path separator.
pub open spec fn separator_free(s: Seq<char>) -> bool {
    forall|i: int| 0 <= i < s.len() ==> s[i] != '/' && s[i] != '\\'
}

/// Whether `glob::Pattern::new` takes `pattern` for a pattern.
pub uninterp spec fn glob_valid(pattern: Seq<char>) -> bool;

/// Whether `glob::Pattern::matches` accepts `name` for the pattern that
/// `pattern` compiles to.
pub uninterp spec fn glob_matches(pattern: Seq<char>, name: Seq<char>) -> bool;

/// Calls `glob::Pattern::new` on `pattern` and `glob::Pattern::matches` on
/// what it gives, which matches with the crate's default options; nothing
/// comes back where the first refuses the text. The crate reads path
/// separators in pattern and name as the platform defines them, so the
/// result is claimed to be a function of the two texts only where neither
/// holds a separator.
#[verifier::external_body]
pub(crate) fn verdict(pattern: &str, name: &str) -> (r: Option<bool>)
    ensures
        separator_free(pattern@) && separator_free(name@) ==> r == (if glob_valid(pattern@) {
            Some(glob_matches(pattern@, name@))
        } else {
            None
        }),
{
    match Pattern::new(pattern) {
        Ok(compiled) => Some(compiled.matches(name)),
        Err(_) => None,
    }
}

/// Whether `pattern` is a valid pattern and accepts `name`.
pub open spec fn glob_accepts(pattern: Seq<char>, name: Seq<char>) -> bool {
    glob_valid(pattern) && glob_matches(pattern, name)
}

/// Whether `pattern` accepts `name`; a text that is no valid pattern accepts
/// nothing.
pub fn accepts(pattern: &str, name: &str) -> (b: bool)
    ensures
        separator_free(pattern@) && separator_free(name@) ==> b == glob_accepts(pattern@, name@),
{
    match verdict(pattern, name) {
        Some(accepted) => accepted,
        None => false,
    }
}

} // verus!
