//! What the tool remembers between runs, and the choice of the Revit version
//! that add-ins are exported for.

use vstd::prelude::*;

verus! {

/// The remembered preferences. A field that was never set is empty.
#[derive(Debug)]
pub struct State {
    /// The year of the Revit version to export for.
    pub revit_version: String,
    /// The vendor's e-mail address as it was last given.
    pub email_address: String,
}

/// The preferences as texts.
pub struct StateView {
    pub revit_version: Seq<char>,
    pub email_address: Seq<char>,
}

impl View for State {
    type V = StateView;

    open spec fn view(&self) -> StateView {
        StateView { revit_version: self.revit_version@, email_address: self.email_address@ }
    }
}

impl Clone for State {
    fn clone(&self) -> (copy: Self)
        ensures
            copy@ == self@,
    {
        State {
            revit_version: self.revit_version.clone(),
            email_address: self.email_address.clone(),
        }
    }
}

impl Default for State {
    /// The preferences of a first run: nothing is set.
    fn default() -> (state: Self)
        ensures
            state@.revit_version.len() == 0,
            state@.email_address.len() == 0,
    {
        State { revit_version: String::new(), email_address: String::new() }
    }
}

/// The stored preferences, or those of a first run where none are stored.
pub fn get_state_or_default(stored: Option<State>) -> (state: State)
    ensures
        match stored {
            Some(s) => state == s,
            None => state@.revit_version.len() == 0 && state@.email_address.len() == 0,
        },
{
    match stored {
        Some(s) => s,
        None => State::default(),
    }
}

/// The first and the last Revit version that can be chosen.
pub const FIRST_REVIT_VERSION: i32 = 2019;

pub const LAST_REVIT_VERSION: i32 = 2025;

/// The text of a year that can be chosen.
pub open spec fn year_text(year: int) -> Seq<char> {
    if year == 2019 {
        "2019"@
    } else if year == 2020 {
        "2020"@
    } else if year == 2021 {
        "2021"@
    } else if year == 2022 {
        "2022"@
    } else if year == 2023 {
        "2023"@
    } else if year == 2024 {
        "2024"@
    } else {
        "2025"@
    }
}

/// Judges an answer to the question for the Revit version. `parsed` is the
/// number that the answer stands for, absent where it is no number. A year
/// from 2019 to 2025 is accepted and handed back as text; anything else is
/// refused with the words to show before asking again.
pub fn check_revit_version(parsed: Option<i32>) -> (r: Result<String, String>)
    ensures
        match parsed {
            Some(year) => if FIRST_REVIT_VERSION <= year <= LAST_REVIT_VERSION {
                r matches Ok(text) && text@ == year_text(year as int)
            } else {
                r matches Err(e) && e@
                    == "Invalid Revit version. You must specify a version between 2019 and 2025."@
            },
            None => r matches Err(e) && e@
                == "Invalid Revit version. You must specify a version between 2019 and 2025. Include only the year."@,
        },
{
    match parsed {
        Some(year) => {
            if year == 2019 {
                Ok("2019".to_owned())
            } else if year == 2020 {
                Ok("2020".to_owned())
            } else if year == 2021 {
                Ok("2021".to_owned())
            } else if year == 2022 {
                Ok("2022".to_owned())
            } else if year == 2023 {
                Ok("2023".to_owned())
            } else if year == 2024 {
                Ok("2024".to_owned())
            } else if year == 2025 {
                Ok("2025".to_owned())
            } else {
                Err(
                    "Invalid Revit version. You must specify a version between 2019 and 2025.".to_owned(),
                )
            }
        },
        None => Err(
            "Invalid Revit version. You must specify a version between 2019 and 2025. Include only the year.".to_owned(),
        ),
    }
}

/// What is to be done about the Revit version.
#[derive(Debug)]
pub enum VersionStep {
    /// No preferences are stored and no version was chosen yet: ask for one.
    Ask,
    /// The version to work with. `save` holds the preferences to store
    /// where the version was newly chosen.
    Use { version: String, save: Option<State> },
}

/// Settles the Revit version. Where preferences are stored, their version is
/// used as it stands. Where none are stored, a version has to be chosen:
/// `chosen` is the accepted answer, absent while the user was not asked. The
/// chosen version is used and goes into fresh preferences to be stored.
pub fn ensure_revit_version_is_set(stored: Option<State>, chosen: Option<String>) -> (r:
    VersionStep)
    ensures
        match stored {
            Some(s) => r matches VersionStep::Use { version, save } && version@
                == s@.revit_version && save is None,
            None => match chosen {
                None => r is Ask,
                Some(c) => r matches VersionStep::Use { version, save: Some(kept) } && version@
                    == c@ && kept@.revit_version == c@ && kept@.email_address.len() == 0,
            },
        },
{
    match stored {
        Some(s) => VersionStep::Use { version: s.revit_version, save: None },
        None => match chosen {
            None => VersionStep::Ask,
            Some(c) => {
                let fresh = State::default();
                let kept = State { revit_version: c.clone(), email_address: fresh.email_address };
                VersionStep::Use { version: c, save: Some(kept) }
            },
        },
    }
}

/// The preferences with another Revit version.
pub fn with_revit_version(state: State, version: String) -> (r: State)
    ensures
        r@.revit_version == version@,
        r@.email_address == state@.email_address,
{
    State { revit_version: version, email_address: state.email_address }
}

/// The preferences with another e-mail address.
pub fn with_email_address(state: State, email: String) -> (r: State)
    ensures
        r@.email_address == email@,
        r@.revit_version == state@.revit_version,
{
    State { revit_version: state.revit_version, email_address: email }
}

} // verus!
