//! Path arithmetic that the platform and the working directory decide, done
//! by the crates `path_absolutize` and `pathdiff`. What those crates gave is
//! handed out beside the path that was chosen, so that the choice can be
//! stated.

use path_absolutize::Absolutize;
use vstd::prelude::*;

verus! {

/// Calls `path_absolutize::Absolutize::absolutize` on `path` and hands back
/// the absolute path as text, or nothing where the crate reports an error.
/// The result depends on the working directory and on the platform's path
/// syntax, so nothing is claimed of it.
#[verifier::external_body]
pub(crate) fn absolutize(path: &str) -> Option<String> {
    match std::path::Path::new(path).absolutize() {
        Ok(p) => Some(p.to_string_lossy().into_owned()),
        Err(_) => None,
    }
}

/// Calls `pathdiff::diff_paths` and hands back, as text, the path that leads
/// from `base` to `path`, or nothing where the crate finds none. The result
/// depends on the platform's path syntax, so nothing is claimed of it.
#[verifier::external_body]
pub(crate) fn diff_paths(path: &str, base: &str) -> Option<String> {
    match pathdiff::diff_paths(path, base) {
        Some(p) => Some(p.to_string_lossy().into_owned()),
        None => None,
    }
}

/// What was made of a path.
#[derive(Debug)]
pub enum PathForms {
    /// The absolute form was asked for: `made` is what making `raw` absolute
    /// gave.
    Absolute { raw: String, made: Option<String> },
    /// The form relative to `base` was asked for. `made_absolute` is what
    /// making `raw` absolute gave, `base_made_absolute` what making `base`
    /// absolute gave, and `difference` the path that leads from the one to
    /// the other. Each is absent where it could not be had or was not asked
    /// for.
    Relative {
        raw: String,
        base: String,
        made_absolute: Option<String>,
        base_made_absolute: Option<String>,
        difference: Option<String>,
    },
}

/// A path that was chosen among the forms it was brought into.
#[derive(Debug)]
pub struct OfferedPath {
    /// The path to use.
    pub path: String,
    /// What the choice was made from.
    pub forms: PathForms,
}

/// A copy of an optional text.
fn copy_text(text: &Option<String>) -> (copy: Option<String>)
    ensures
        copy == *text,
{
    match text {
        Some(t) => Some(t.clone()),
        None => None,
    }
}

impl Clone for PathForms {
    fn clone(&self) -> (copy: Self)
        ensures
            copy == *self,
    {
        match self {
            PathForms::Absolute { raw, made } => PathForms::Absolute {
                raw: raw.clone(),
                made: copy_text(made),
            },
            PathForms::Relative { raw, base, made_absolute, base_made_absolute, difference } => {
                PathForms::Relative {
                    raw: raw.clone(),
                    base: base.clone(),
                    made_absolute: copy_text(made_absolute),
                    base_made_absolute: copy_text(base_made_absolute),
                    difference: copy_text(difference),
                }
            },
        }
    }
}

impl Clone for OfferedPath {
    fn clone(&self) -> (copy: Self)
        ensures
            copy == *self,
    {
        OfferedPath { path: self.path.clone(), forms: self.forms.clone() }
    }
}

/// The path as the listing gave it.
pub open spec fn raw_of(forms: PathForms) -> Seq<char> {
    match forms {
        PathForms::Absolute { raw, .. } => raw@,
        PathForms::Relative { raw, .. } => raw@,
    }
}

/// The directory that the relative form is relative to; nothing for the
/// absolute form.
pub open spec fn base_of(forms: PathForms) -> Seq<char> {
    match forms {
        PathForms::Absolute { .. } => Seq::empty(),
        PathForms::Relative { base, .. } => base@,
    }
}

/// The path to use: where the absolute form was asked for, the absolute path,
/// or the path as listed where it could not be made absolute; where the
/// relative form was asked for, the path that leads from the absolute base to
/// the absolute path, or the path as listed where either could not be made
/// absolute or no path leads from one to the other.
pub open spec fn chosen(forms: PathForms) -> Seq<char> {
    match forms {
        PathForms::Absolute { raw, made } => match made {
            Some(p) => p@,
            None => raw@,
        },
        PathForms::Relative { raw, made_absolute, base_made_absolute, difference, .. } => {
            if made_absolute is Some && base_made_absolute is Some && difference is Some {
                difference->0@
            } else {
                raw@
            }
        },
    }
}

/// Whether the conversions were asked for in their order: the base is made
/// absolute only where the path could be, and the difference is taken only
/// where both could be.
pub open spec fn in_order(forms: PathForms) -> bool {
    match forms {
        PathForms::Absolute { .. } => true,
        PathForms::Relative { made_absolute, base_made_absolute, difference, .. } => {
            &&& made_absolute is None ==> base_made_absolute is None
            &&& base_made_absolute is None ==> difference is None
        },
    }
}

/// Whether `offer` is the absolute form of the path `raw`, chosen as
/// `chosen` says.
pub open spec fn is_absolute_offer(offer: OfferedPath, raw: Seq<char>) -> bool {
    &&& offer.forms is Absolute
    &&& raw_of(offer.forms) == raw
    &&& offer.path@ == chosen(offer.forms)
}

/// Whether `offer` is the form of the path `raw` relative to `base`, chosen
/// as `chosen` says.
pub open spec fn is_relative_offer(offer: OfferedPath, raw: Seq<char>, base: Seq<char>) -> bool {
    &&& offer.forms matches PathForms::Relative { base: b, .. } && b@ == base
    &&& raw_of(offer.forms) == raw
    &&& in_order(offer.forms)
    &&& offer.path@ == chosen(offer.forms)
}

/// Whether `offer` is the form of the path `raw` that was asked for:
/// absolute, or relative to `base`.
pub open spec fn is_offer(offer: OfferedPath, absolute: bool, raw: Seq<char>, base: Seq<char>)
    -> bool {
    if absolute {
        is_absolute_offer(offer, raw)
    } else {
        is_relative_offer(offer, raw, base)
    }
}

/// Chooses the path to use among the forms, as `chosen` says.
pub fn choose_path(forms: PathForms) -> (offer: OfferedPath)
    ensures
        offer.forms == forms,
        offer.path@ == chosen(forms),
{
    let path = match &forms {
        PathForms::Absolute { raw, made } => match made {
            Some(p) => p.clone(),
            None => raw.clone(),
        },
        PathForms::Relative { raw, made_absolute, base_made_absolute, difference, .. } => {
            match (made_absolute, base_made_absolute, difference) {
                (Some(_), Some(_), Some(d)) => d.clone(),
                _ => raw.clone(),
            }
        },
    };
    OfferedPath { path, forms }
}

/// `raw` as an absolute path, or `raw` itself where it cannot be made
/// absolute.
pub fn absolute_or_raw(raw: String) -> (offer: OfferedPath)
    ensures
        is_absolute_offer(offer, raw@),
{
    let made = absolutize(raw.as_str());
    choose_path(PathForms::Absolute { raw, made })
}

/// `raw` as a path relative to `base`, or `raw` itself where either cannot be
/// made absolute or no relative path leads from one to the other.
pub fn relative_or_raw(raw: String, base: &str) -> (offer: OfferedPath)
    ensures
        is_relative_offer(offer, raw@, base@),
{
    let made_absolute = absolutize(raw.as_str());
    let base_made_absolute = match &made_absolute {
        Some(_) => absolutize(base),
        None => None,
    };
    let difference = match (&made_absolute, &base_made_absolute) {
        (Some(path), Some(from)) => diff_paths(path.as_str(), from.as_str()),
        _ => None,
    };
    choose_path(
        PathForms::Relative {
            raw,
            base: base.to_owned(),
            made_absolute,
            base_made_absolute,
            difference,
        },
    )
}

} // verus!
