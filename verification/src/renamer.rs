//! Normalizing a file name, and deciding what becomes of each entry of a walk.

use crate::form::{form_named, is_form_name, NormalizationForm};
use crate::report::{
    console_line, console_line_of, warning_line, warning_line_of, OutcomeView, RenameOutcome,
};
use crate::unicode::{nfc_of, nfd_of, nfkc_of, nfkd_of, to_nfc, to_nfd, to_nfkc, to_nfkd};
use unicode_normalization::{is_nfc, is_nfd, is_nfkc, is_nfkd};
use vstd::prelude::*;

verus! {

/// A text in the given normalization form.
pub open spec fn normalized(form: NormalizationForm, text: Seq<char>) -> Seq<char> {
    match form {
        NormalizationForm::Nfc => nfc_of(text),
        NormalizationForm::Nfd => nfd_of(text),
        NormalizationForm::Nfkc => nfkc_of(text),
        NormalizationForm::Nfkd => nfkd_of(text),
    }
}

/// Whether a text is already in the given form: normalizing it changes nothing.
pub open spec fn in_form(form: NormalizationForm, text: Seq<char>) -> bool {
    normalized(form, text) == text
}

/// Tests whether a text is already in the given form.
pub fn is_normalized(form: NormalizationForm, s: &str) -> (b: bool)
    ensures
        b == in_form(form, s@),
{
    match form {
        NormalizationForm::Nfc => is_nfc(s),
        NormalizationForm::Nfd => is_nfd(s),
        NormalizationForm::Nfkc => is_nfkc(s),
        NormalizationForm::Nfkd => is_nfkd(s),
    }
}

/// Brings a text into the given form. A text that is in the form already comes
/// back as the very value that was handed in. Normalizing is idempotent: the
/// result is in the form, so normalizing it again gives it back.
pub fn normalize_to(form: NormalizationForm, s: String) -> (r: String)
    ensures
        r@ == normalized(form, s@),
        in_form(form, r@),
        in_form(form, s@) ==> r == s,
{
    if is_normalized(form, s.as_str()) {
        s
    } else {
        match form {
            NormalizationForm::Nfc => to_nfc(s.as_str()),
            NormalizationForm::Nfd => to_nfd(s.as_str()),
            NormalizationForm::Nfkc => to_nfkc(s.as_str()),
            NormalizationForm::Nfkd => to_nfkd(s.as_str()),
        }
    }
}

/// Brings a text into the form that `form` names. The name must be one of
/// `NFC`, `NFD`, `NFKC`, `NFKD`.
pub fn normalize(form: &String, s: String) -> (r: String)
    requires
        is_form_name(form@),
    ensures
        r@ == normalized(form_named(form@).unwrap(), s@),
        in_form(form_named(form@).unwrap(), r@),
        in_form(form_named(form@).unwrap(), s@) ==> r == s,
{
    match NormalizationForm::parse(form.as_str()) {
        Some(f) => normalize_to(f, s),
        None => vstd::pervasive::unreached(),
    }
}

/// One entry of a walk, as far as the decision on it depends on it.
#[derive(Clone, Debug, PartialEq, Eq)]
pub enum Entry {
    /// The walk could not produce the entry. `error` describes why.
    Unreadable { error: String },
    /// An entry whose file name is not text. `path` is its path, as shown to
    /// the user.
    Undecodable { path: String },
    /// An entry whose file name is the text `file_name`.
    Named { file_name: String },
}

/// What an `Entry` holds.
pub enum EntryView {
    Unreadable { error: Seq<char> },
    Undecodable { path: Seq<char> },
    Named { file_name: Seq<char> },
}

impl View for Entry {
    type V = EntryView;

    open spec fn view(&self) -> EntryView {
        match *self {
            Entry::Unreadable { error } => EntryView::Unreadable { error: error@ },
            Entry::Undecodable { path } => EntryView::Undecodable { path: path@ },
            Entry::Named { file_name } => EntryView::Named { file_name: file_name@ },
        }
    }
}

/// What is to be done about one entry.
#[derive(Clone, Debug, PartialEq, Eq)]
pub enum Decision {
    /// Print `line`, a warning, and leave the entry alone.
    Warn { line: String },
    /// Print `line`, the notice of a skip, and leave the entry alone.
    Skip { line: String },
    /// The name is in the form already: do nothing and print nothing.
    Keep,
    /// A dry run: show that the entry would get the name `new_name`, and
    /// leave it alone.
    Preview { new_name: String },
    /// Give the entry the name `new_name`, in the directory where it is.
    Rename { new_name: String },
}

/// What a `Decision` holds.
pub enum DecisionView {
    Warn { line: Seq<char> },
    Skip { line: Seq<char> },
    Keep,
    Preview { new_name: Seq<char> },
    Rename { new_name: Seq<char> },
}

impl View for Decision {
    type V = DecisionView;

    open spec fn view(&self) -> DecisionView {
        match *self {
            Decision::Warn { line } => DecisionView::Warn { line: line@ },
            Decision::Skip { line } => DecisionView::Skip { line: line@ },
            Decision::Keep => DecisionView::Keep,
            Decision::Preview { new_name } => DecisionView::Preview { new_name: new_name@ },
            Decision::Rename { new_name } => DecisionView::Rename { new_name: new_name@ },
        }
    }
}

/// The decision on an entry. Only a name that normalizing changes leads to a
/// rename, and in a dry run to no more than a preview of it.
pub open spec fn decision_of(form: NormalizationForm, dry_run: bool, entry: EntryView)
    -> DecisionView {
    match entry {
        EntryView::Unreadable { error } => DecisionView::Warn { line: warning_line_of(error) },
        EntryView::Undecodable { path } => DecisionView::Skip {
            line: console_line_of(OutcomeView::Skipped { path }),
        },
        EntryView::Named { file_name } => if in_form(form, file_name) {
            DecisionView::Keep
        } else if dry_run {
            DecisionView::Preview { new_name: normalized(form, file_name) }
        } else {
            DecisionView::Rename { new_name: normalized(form, file_name) }
        },
    }
}

/// A name that is in the form already is kept, in a dry run or not: the
/// decision on it holds no line to print and no rename to make.
pub proof fn lemma_name_in_form_is_kept(
    form: NormalizationForm,
    dry_run: bool,
    file_name: Seq<char>,
)
    requires
        normalized(form, file_name) == file_name,
    ensures
        decision_of(form, dry_run, EntryView::Named { file_name }) == DecisionView::Keep,
{
}

/// Only an entry with a name that is in the form already is passed over in
/// silence: every other entry leads to a line, a preview or a rename.
pub proof fn lemma_kept_only_in_form(form: NormalizationForm, dry_run: bool, entry: EntryView)
    requires
        decision_of(form, dry_run, entry) == DecisionView::Keep,
    ensures
        entry matches EntryView::Named { file_name } && normalized(form, file_name) == file_name,
{
}

/// A dry run renames nothing, whatever the entry: where another run would
/// rename, it previews the same new name.
pub proof fn lemma_dry_run_never_renames(form: NormalizationForm, entry: EntryView)
    ensures
        !(decision_of(form, true, entry) is Rename),
        decision_of(form, false, entry) matches DecisionView::Rename { new_name }
            ==> decision_of(form, true, entry) == (DecisionView::Preview { new_name }),
        !(decision_of(form, false, entry) is Rename) ==> decision_of(form, true, entry)
            == decision_of(form, false, entry),
{
}

/// Decides what to do about one entry of the walk.
pub fn decide(form: NormalizationForm, dry_run: bool, entry: &Entry) -> (d: Decision)
    ensures
        d@ == decision_of(form, dry_run, entry@),
{
    match entry {
        Entry::Unreadable { error } => Decision::Warn { line: warning_line(error.as_str()) },
        Entry::Undecodable { path } => {
            let skipped = RenameOutcome::Skipped { path: path.clone() };
            Decision::Skip { line: console_line(&skipped) }
        },
        Entry::Named { file_name } => {
            let new_name = normalize_to(form, file_name.clone());
            if *file_name == new_name {
                Decision::Keep
            } else if dry_run {
                Decision::Preview { new_name }
            } else {
                Decision::Rename { new_name }
            }
        },
    }
}

} // verus!
