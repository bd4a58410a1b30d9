//! What is printed, and what is logged, for the outcome of one entry.

use vstd::prelude::*;

verus! {

/// How the handling of one entry ended.
#[derive(Clone, Debug, PartialEq, Eq)]
pub enum RenameOutcome {
    /// The entry at `src` was renamed to `dst`.
    Renamed { src: String, dst: String },
    /// The entry at `path` was left alone: its name is not text.
    Skipped { path: String },
    /// A dry run: the entry at `src` would have been renamed to `dst`.
    DryRun { src: String, dst: String },
    /// Renaming the entry at `src` failed, for the reason `error`.
    Failed { src: String, error: String },
}

/// What a `RenameOutcome` holds.
pub enum OutcomeView {
    Renamed { src: Seq<char>, dst: Seq<char> },
    Skipped { path: Seq<char> },
    DryRun { src: Seq<char>, dst: Seq<char> },
    Failed { src: Seq<char>, error: Seq<char> },
}

impl View for RenameOutcome {
    type V = OutcomeView;

    open spec fn view(&self) -> OutcomeView {
        match *self {
            RenameOutcome::Renamed { src, dst } => OutcomeView::Renamed { src: src@, dst: dst@ },
            RenameOutcome::Skipped { path } => OutcomeView::Skipped { path: path@ },
            RenameOutcome::DryRun { src, dst } => OutcomeView::DryRun { src: src@, dst: dst@ },
            RenameOutcome::Failed { src, error } => OutcomeView::Failed {
                src: src@,
                error: error@,
            },
        }
    }
}

/// What is to be written for one outcome.
#[derive(Clone, Debug, PartialEq, Eq)]
pub struct Report {
    /// The line for the console, without its line end.
    pub console: String,
    /// The line for the log file, with its line end; `None` where nothing is
    /// logged.
    pub log: Option<String>,
}

/// What a `Report` holds.
pub struct ReportView {
    pub console: Seq<char>,
    pub log: Option<Seq<char>>,
}

impl View for Report {
    type V = ReportView;

    open spec fn view(&self) -> ReportView {
        ReportView {
            console: self.console@,
            log: match self.log {
                Some(line) => Some(line@),
                None => None,
            },
        }
    }
}

/// The shape of a run's timestamp, in the notation of `strftime`: the date as
/// year, month and day, a space, and the time of day to the second.
pub const TIMESTAMP_FORMAT: &'static str = "%Y-%m-%d %H:%M:%S";

/// A rename in words: the source, an arrow, the destination.
pub open spec fn move_text(src: Seq<char>, dst: Seq<char>) -> Seq<char> {
    src + " -> "@ + dst
}

/// The console line for an outcome: a tag that tells its kind, a tab, and the
/// paths or the reason.
pub open spec fn console_line_of(outcome: OutcomeView) -> Seq<char> {
    match outcome {
        OutcomeView::Renamed { src, dst } => "SUCC\t"@ + move_text(src, dst),
        OutcomeView::Skipped { path } => "SKIP\t"@ + path,
        OutcomeView::DryRun { src, dst } => "DRY_RUN\t"@ + move_text(src, dst),
        OutcomeView::Failed { src, error } => "FAIL\t"@ + src + "\t"@ + error,
    }
}

/// The console line for an entry that the walk could not produce: the warning
/// tag, a tab, and the walk's description of the failure.
pub open spec fn warning_line_of(error: Seq<char>) -> Seq<char> {
    "WARN\t"@ + error
}

/// The log line of a rename: the run's timestamp in square brackets, a tab,
/// the rename in words, a line end.
pub open spec fn log_record_of(timestamp: Seq<char>, src: Seq<char>, dst: Seq<char>) -> Seq<
    char,
> {
    "["@ + timestamp + "]\t"@ + move_text(src, dst) + "\n"@
}

/// The log line for an outcome: one for a rename that was made, none for any
/// other outcome.
pub open spec fn log_line_of(outcome: OutcomeView, timestamp: Seq<char>) -> Option<Seq<char>> {
    match outcome {
        OutcomeView::Renamed { src, dst } => Some(log_record_of(timestamp, src, dst)),
        _ => None,
    }
}

/// The report on an outcome.
pub open spec fn report_of(outcome: OutcomeView, timestamp: Seq<char>) -> ReportView {
    ReportView { console: console_line_of(outcome), log: log_line_of(outcome, timestamp) }
}

/// A line is logged for an outcome exactly when the rename was made: a dry
/// run, a skip and a failed rename leave the log as it was. The line of a
/// rename starts with the run's timestamp in brackets, so all lines of one run
/// carry the same one.
pub proof fn lemma_logged_iff_renamed(outcome: OutcomeView, timestamp: Seq<char>)
    ensures
        report_of(outcome, timestamp).log is Some <==> outcome is Renamed,
        outcome matches OutcomeView::Renamed { src, dst } ==> report_of(outcome, timestamp).log
            == Some("["@ + timestamp + "]\t"@ + src + " -> "@ + dst + "\n"@),
{
    if let OutcomeView::Renamed { src, dst } = outcome {
        assert(log_record_of(timestamp, src, dst) =~= "["@ + timestamp + "]\t"@ + src + " -> "@
            + dst + "\n"@);
    }
}

/// Appends a rename in words to `line`.
fn push_move(line: &mut String, src: &str, dst: &str)
    ensures
        final(line)@ == old(line)@ + move_text(src@, dst@),
{
    line.append(src);
    line.append(" -> ");
    line.append(dst);
    assert(final(line)@ =~= old(line)@ + move_text(src@, dst@));
}

/// The console line for an outcome.
pub fn console_line(outcome: &RenameOutcome) -> (line: String)
    ensures
        line@ == console_line_of(outcome@),
{
    match outcome {
        RenameOutcome::Renamed { src, dst } => {
            let mut line = String::from_str("SUCC\t");
            push_move(&mut line, src.as_str(), dst.as_str());
            line
        },
        RenameOutcome::Skipped { path } => {
            let mut line = String::from_str("SKIP\t");
            line.append(path.as_str());
            line
        },
        RenameOutcome::DryRun { src, dst } => {
            let mut line = String::from_str("DRY_RUN\t");
            push_move(&mut line, src.as_str(), dst.as_str());
            line
        },
        RenameOutcome::Failed { src, error } => {
            let mut line = String::from_str("FAIL\t");
            line.append(src.as_str());
            line.append("\t");
            line.append(error.as_str());
            line
        },
    }
}

/// The console line for an entry that the walk could not produce.
pub fn warning_line(error: &str) -> (line: String)
    ensures
        line@ == warning_line_of(error@),
{
    let mut line = String::from_str("WARN\t");
    line.append(error);
    line
}

/// The log line of a rename from `src` to `dst`, made in the run that
/// `timestamp` marks.
pub fn log_record(timestamp: &str, src: &str, dst: &str) -> (line: String)
    ensures
        line@ == log_record_of(timestamp@, src@, dst@),
{
    let mut line = String::from_str("[");
    line.append(timestamp);
    line.append("]\t");
    push_move(&mut line, src, dst);
    line.append("\n");
    assert(line@ =~= log_record_of(timestamp@, src@, dst@));
    line
}

/// What to print and what to log for an outcome. A line is logged exactly for
/// a rename that was made.
pub fn report(outcome: &RenameOutcome, timestamp: &str) -> (r: Report)
    ensures
        r@ == report_of(outcome@, timestamp@),
{
    let console = console_line(outcome);
    let log = match outcome {
        RenameOutcome::Renamed { src, dst } => Some(log_record(timestamp, src.as_str(), dst.as_str())),
        _ => None,
    };
    Report { console, log }
}

} // verus!
