//! The arguments of one run.

use crate::form::{form_named, NormalizationForm};
use vstd::prelude::*;

verus! {

/// The arguments of one run, as the command line gives them.
#[derive(Clone, Debug)]
pub struct Args {
    /// The name of the form to normalize to.
    pub to_form: String,
    /// The paths to walk, in the order given.
    pub path: Vec<String>,
    /// The path of the log file.
    pub log: String,
    /// Whether to show the renames without making them.
    pub dry_run: bool,
}

/// The path of the log file where none is given.
pub const DEFAULT_LOG: &'static str = "convert.log";

impl Args {
    /// The arguments for normalizing `path` to the form that `to_form` names,
    /// with every option left as it is when the command line does not give
    /// it: the log goes to `DEFAULT_LOG`, and renames are made.
    pub fn new(to_form: String, path: Vec<String>) -> (args: Args)
        ensures
            args.to_form == to_form,
            args.path == path,
            args.log@ == DEFAULT_LOG@,
            !args.dry_run,
    {
        Args { to_form, path, log: String::from_str(DEFAULT_LOG), dry_run: false }
    }

    /// The form that the arguments select; `None` where `to_form` is not the
    /// name of one, in which case the arguments are not valid.
    pub fn form(&self) -> (r: Option<NormalizationForm>)
        ensures
            r == form_named(self.to_form@),
    {
        NormalizationForm::parse(self.to_form.as_str())
    }
}

} // verus!
