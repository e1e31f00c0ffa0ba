//! The ledger of one run: error messages and warning messages, each kept in
//! the order in which they were recorded.

use crate::text::{copy_strings, texts};
use vstd::prelude::*;

verus! {

/// What a ledger holds, as two sequences of texts.
pub struct LedgerView {
    pub errors: Seq<Seq<char>>,
    pub warnings: Seq<Seq<char>>,
}

/// Errors and warnings gathered during a run. Nothing is ever removed,
/// merged or reordered, and recording in one list never touches the other.
#[derive(Debug)]
pub struct ErrorList {
    errors: Vec<String>,
    warnings: Vec<String>,
}

impl View for ErrorList {
    type V = LedgerView;

    closed spec fn view(&self) -> LedgerView {
        LedgerView { errors: texts(self.errors@), warnings: texts(self.warnings@) }
    }
}

impl Clone for ErrorList {
    fn clone(&self) -> (copy: Self)
        ensures
            copy@ == self@,
    {
        ErrorList { errors: copy_strings(&self.errors), warnings: copy_strings(&self.warnings) }
    }
}

impl Default for ErrorList {
    fn default() -> (list: Self)
        ensures
            list@.errors == Seq::<Seq<char>>::empty(),
            list@.warnings == Seq::<Seq<char>>::empty(),
    {
        ErrorList::new()
    }
}

impl ErrorList {
    /// An empty ledger.
    pub fn new() -> (list: Self)
        ensures
            list@.errors == Seq::<Seq<char>>::empty(),
            list@.warnings == Seq::<Seq<char>>::empty(),
    {
        let list = ErrorList { errors: Vec::new(), warnings: Vec::new() };
        assert(list@.errors =~= Seq::<Seq<char>>::empty());
        assert(list@.warnings =~= Seq::<Seq<char>>::empty());
        list
    }

    /// A ledger that holds one error and no warning.
    pub fn new_with_error(error: &str) -> (list: Self)
        ensures
            list@.errors == seq![error@],
            list@.warnings == Seq::<Seq<char>>::empty(),
    {
        let mut list = Self::new();
        list.add_error(error);
        assert(list@.errors =~= seq![error@]);
        list
    }

    /// Appends `error` to the errors; the warnings stay as they are.
    pub fn add_error(&mut self, error: &str)
        ensures
            final(self)@ == record(old(self)@, Entry::Error(error@)),
    {
        self.errors.push(error.to_owned());
        assert(self@.errors =~= old(self)@.errors.push(error@));
    }

    /// Appends `warning` to the warnings; the errors stay as they are.
    pub fn add_warning(&mut self, warning: &str)
        ensures
            final(self)@ == record(old(self)@, Entry::Warning(warning@)),
    {
        self.warnings.push(warning.to_owned());
        assert(self@.warnings =~= old(self)@.warnings.push(warning@));
    }

    /// Appends what `other` holds, errors to errors and warnings to warnings,
    /// each in its order.
    pub fn extend(&mut self, other: &ErrorList)
        ensures
            final(self)@.errors == old(self)@.errors + other@.errors,
            final(self)@.warnings == old(self)@.warnings + other@.warnings,
    {
        let mut i: usize = 0;
        while i < other.errors.len()
            invariant
                i <= other.errors@.len(),
                self@.errors == old(self)@.errors + other@.errors.subrange(0, i as int),
                self@.warnings == old(self)@.warnings,
            decreases other.errors@.len() - i,
        {
            self.add_error(other.errors[i].as_str());
            i = i + 1;
            assert(self@.errors =~= old(self)@.errors + other@.errors.subrange(0, i as int));
        }
        assert(other@.errors.subrange(0, i as int) =~= other@.errors);
        let mut k: usize = 0;
        while k < other.warnings.len()
            invariant
                k <= other.warnings@.len(),
                self@.warnings == old(self)@.warnings + other@.warnings.subrange(0, k as int),
                self@.errors == old(self)@.errors + other@.errors,
            decreases other.warnings@.len() - k,
        {
            self.add_warning(other.warnings[k].as_str());
            k = k + 1;
            assert(self@.warnings =~= old(self)@.warnings + other@.warnings.subrange(0, k as int));
        }
        assert(other@.warnings.subrange(0, k as int) =~= other@.warnings);
    }

    /// Whether at least one error was recorded.
    pub fn has_errors(&self) -> (b: bool)
        ensures
            b == (self@.errors.len() > 0),
    {
        self.errors.len() > 0
    }

    /// Whether at least one warning was recorded.
    pub fn has_warnings(&self) -> (b: bool)
        ensures
            b == (self@.warnings.len() > 0),
    {
        self.warnings.len() > 0
    }

    /// A copy of the errors, oldest first.
    pub fn view_errors(&self) -> (out: Vec<String>)
        ensures
            texts(out@) == self@.errors,
    {
        let out = copy_strings(&self.errors);
        out
    }

    /// A copy of the warnings, oldest first.
    pub fn view_warnings(&self) -> (out: Vec<String>)
        ensures
            texts(out@) == self@.warnings,
    {
        let out = copy_strings(&self.warnings);
        out
    }
}

/// One thing to record: an error or a warning, with its text.
pub enum Entry {
    Error(Seq<char>),
    Warning(Seq<char>),
}

/// The ledger after `entry` was recorded in it.
pub open spec fn record(l: LedgerView, entry: Entry) -> LedgerView {
    match entry {
        Entry::Error(text) => LedgerView { errors: l.errors.push(text), warnings: l.warnings },
        Entry::Warning(text) => LedgerView { errors: l.errors, warnings: l.warnings.push(text) },
    }
}

/// The ledger after `entries` were recorded in it, one after the other.
pub open spec fn replay(l: LedgerView, entries: Seq<Entry>) -> LedgerView
    decreases entries.len(),
{
    if entries.len() == 0 {
        l
    } else {
        record(replay(l, entries.drop_last()), entries.last())
    }
}

/// The texts of the errors among `entries`, in their order.
pub open spec fn errors_in(entries: Seq<Entry>) -> Seq<Seq<char>>
    decreases entries.len(),
{
    if entries.len() == 0 {
        Seq::empty()
    } else {
        match entries.last() {
            Entry::Error(text) => errors_in(entries.drop_last()).push(text),
            Entry::Warning(_) => errors_in(entries.drop_last()),
        }
    }
}

/// The texts of the warnings among `entries`, in their order.
pub open spec fn warnings_in(entries: Seq<Entry>) -> Seq<Seq<char>>
    decreases entries.len(),
{
    if entries.len() == 0 {
        Seq::empty()
    } else {
        match entries.last() {
            Entry::Error(_) => warnings_in(entries.drop_last()),
            Entry::Warning(text) => warnings_in(entries.drop_last()).push(text),
        }
    }
}

/// In whatever order errors and warnings are recorded, the ledger ends up
/// with all the errors in the order in which they came and all the warnings
/// in the order in which they came, after what it held before: nothing is
/// dropped, nothing is merged, and neither kind holds back the other. Every
/// entry is in exactly one of the two lists.
pub proof fn lemma_ledger_accumulates(l: LedgerView, entries: Seq<Entry>)
    ensures
        replay(l, entries).errors == l.errors + errors_in(entries),
        replay(l, entries).warnings == l.warnings + warnings_in(entries),
        errors_in(entries).len() + warnings_in(entries).len() == entries.len(),
    decreases entries.len(),
{
    if entries.len() > 0 {
        lemma_ledger_accumulates(l, entries.drop_last());
    }
    assert(replay(l, entries).errors =~= l.errors + errors_in(entries));
    assert(replay(l, entries).warnings =~= l.warnings + warnings_in(entries));
}

/// Warnings never add to the errors: after any number of them the errors
/// are what they were.
pub proof fn lemma_warnings_make_no_error(l: LedgerView, entries: Seq<Entry>)
    requires
        forall|i: int| 0 <= i < entries.len() ==> entries[i] is Warning,
    ensures
        replay(l, entries).errors == l.errors,
    decreases entries.len(),
{
    if entries.len() > 0 {
        lemma_warnings_make_no_error(l, entries.drop_last());
    }
}

} // verus!
