//! Writing the library to a file and keeping that file current: what one
//! synchronisation cycle decides between reading the file, asking the remote
//! library and writing the file, and what a run of cycles adds up to.

use crate::export::headline::{
    headline_text, headline_version, lemma_headline_round_trip, FileHeadline, PREFIX,
    VERSION_PREFIX,
};
use crate::text::{
    chars_of, decimal, find_char, first_index_of, is_digit, is_whitespace, lemma_decimal_digits,
    lemma_first_index_after, lemma_first_index_bounds, skip_whitespace, skip_whitespace_back,
    trim, trim_end, trim_start,
};
use crate::zotero_api::types::{
    ApiError, ApiFailure, FetchItemsParams, FetchItemsResponse, FetchedItems,
};
use crate::zotero_api::ExportFormat;
use vstd::prelude::*;
use vstd::string::*;

pub mod headline;
pub mod trigger;
pub mod websocket;

verus! {

/// `std::io::Error`: a failure to open, read or write a file. It is carried
/// along and never looked into.
#[verifier::external_type_specification]
#[verifier::external_body]
pub struct ExIoError(std::io::Error);

/// What a successful export did to the file.
#[derive(Clone, Copy, Debug, PartialEq, Eq, Structural)]
pub enum ExportSuccess {
    /// The file was rewritten.
    Changes,
    /// The file was current and was left alone.
    NoChanges,
}

/// Why an export failed.
#[derive(Debug)]
pub enum ExportError {
    /// The output file could not be opened, created or written.
    FileError { file_path: String, io_error: std::io::Error },
    /// The remote library could not be fetched.
    ClientError(ApiError),
}

/// An `ExportError` with its texts as sequences of characters.
pub enum ExportFailure {
    FileError { file_path: Seq<char>, io_error: std::io::Error },
    ClientError(ApiFailure),
}

impl View for ExportError {
    type V = ExportFailure;

    open spec fn view(&self) -> ExportFailure {
        match self {
            ExportError::FileError { file_path, io_error } => ExportFailure::FileError {
                file_path: file_path@,
                io_error: *io_error,
            },
            ExportError::ClientError(error) => ExportFailure::ClientError(error@),
        }
    }
}

/// The view of how an export ended.
pub open spec fn export_result_view(result: Result<ExportSuccess, ExportError>) -> Result<
    ExportSuccess,
    ExportFailure,
> {
    match result {
        Ok(success) => Ok(success),
        Err(error) => Err(error@),
    }
}

/// The first line of a text as a line reader returns it: everything up to
/// and including the first line feed, or the whole text where it has none.
pub open spec fn first_line(content: Seq<char>) -> Seq<char> {
    let i = first_index_of(content, '\n');
    if 0 <= i < content.len() {
        content.take(i + 1)
    } else {
        content
    }
}

/// The version that a file's first line records, if that line, trimmed, is a
/// headline.
pub open spec fn line_checkpoint(line: Seq<char>) -> Option<u64> {
    headline_version(trim(line))
}

/// The version that a file with the given content records.
pub open spec fn file_checkpoint(content: Seq<char>) -> Option<u64> {
    line_checkpoint(first_line(content))
}

/// The content of a file that holds `payload` as of `version`: the headline,
/// a line feed, the payload.
pub open spec fn file_content(version: u64, payload: Seq<char>) -> Seq<char> {
    headline_text(version) + seq!['\n'] + payload
}

/// The version of an optional headline.
pub open spec fn headline_view(headline: Option<FileHeadline>) -> Option<u64> {
    match headline {
        Some(h) => Some(h.last_modified_version),
        None => None,
    }
}

/// Reads the checkpoint from the first line of the output file. A line that
/// is no headline means that there is no checkpoint.
pub fn try_read_file_headline(first_line: &str) -> (headline: Option<FileHeadline>)
    ensures
        headline_view(headline) == line_checkpoint(first_line@),
{
    let v = chars_of(first_line);
    let n = v.len();
    assert(v@.subrange(0, n as int) =~= v@);
    let a = skip_whitespace(&v, 0, n);
    let b = skip_whitespace_back(&v, a, n);
    let trimmed = first_line.substring_char(a, b);
    match FileHeadline::try_from(trimmed) {
        Ok(headline) => Some(headline),
        Err(_) => None,
    }
}

/// Reads the checkpoint from the content of the output file: from its first
/// line.
pub fn read_file_checkpoint(content: &str) -> (headline: Option<FileHeadline>)
    ensures
        headline_view(headline) == file_checkpoint(content@),
{
    let v = chars_of(content);
    let n = v.len();
    assert(v@.subrange(0, n as int) =~= v@);
    let i = find_char(&v, 0, n, '\n');
    let end = if i < n {
        i + 1
    } else {
        n
    };
    proof {
        lemma_first_index_bounds(content@, '\n');
        assert(content@.subrange(0, end as int) =~= first_line(content@));
    }
    try_read_file_headline(content.substring_char(0, end))
}

/// What one cycle asks the remote library for: the changes since the
/// checkpoint, or everything where there is no checkpoint.
pub fn fetch_params(headline: Option<FileHeadline>, format: ExportFormat) -> (params:
    FetchItemsParams)
    ensures
        params.last_modified_version == headline_view(headline),
        params.format == format,
{
    let last_modified_version = match headline {
        Some(h) => Some(h.last_modified_version),
        None => None,
    };
    FetchItemsParams { last_modified_version, format }
}

/// What a cycle does once the remote library has answered.
pub enum ExportStep {
    /// The cycle is over, without a write.
    Done(Result<ExportSuccess, ExportError>),
    /// The file is to be overwritten with `content`, in one write.
    Write { content: String },
}

/// An `ExportStep` with its texts as sequences of characters.
pub enum ExportStepView {
    Done(Result<ExportSuccess, ExportFailure>),
    Write { content: Seq<char> },
}

impl View for ExportStep {
    type V = ExportStepView;

    open spec fn view(&self) -> ExportStepView {
        match self {
            ExportStep::Done(result) => ExportStepView::Done(export_result_view(*result)),
            ExportStep::Write { content } => ExportStepView::Write { content: content@ },
        }
    }
}

/// What a cycle does with the remote library's answer: a failure ends the
/// cycle with that failure; "up to date" ends it without changes; new items
/// are written under the headline of their version.
pub open spec fn export_step(response: Result<FetchedItems, ApiFailure>) -> ExportStepView {
    match response {
        Err(error) => ExportStepView::Done(Err(ExportFailure::ClientError(error))),
        Ok(FetchedItems::UpToDate) => ExportStepView::Done(Ok(ExportSuccess::NoChanges)),
        Ok(FetchedItems::Updated { last_modified_version, text }) => ExportStepView::Write {
            content: file_content(last_modified_version, text),
        },
    }
}

/// Composes the content of the output file.
pub fn compose_file_content(headline: FileHeadline, items: &str) -> (content: String)
    ensures
        content@ == file_content(headline.last_modified_version, items@),
{
    proof {
        reveal_strlit("\n");
        assert("\n"@ =~= seq!['\n']);
    }
    let line: String = String::from(headline);
    let content = line.concat("\n");
    content.concat(items)
}

/// Decides what a cycle does once the remote library has answered.
pub fn after_fetch(response: Result<FetchItemsResponse, ApiError>) -> (step: ExportStep)
    ensures
        step@ == export_step(crate::zotero_api::types::fetch_result_view(response)),
{
    match response {
        Err(error) => ExportStep::Done(Err(ExportError::ClientError(error))),
        Ok(FetchItemsResponse::UpToDate) => ExportStep::Done(Ok(ExportSuccess::NoChanges)),
        Ok(FetchItemsResponse::Updated { last_modified_version, text }) => {
            let headline = FileHeadline { last_modified_version };
            ExportStep::Write { content: compose_file_content(headline, text.as_str()) }
        },
    }
}

/// How a cycle ends once the write was tried: with changes where it went
/// through, with a file error that names the path where it did not.
pub fn after_write(file_path: &str, written: Result<(), std::io::Error>) -> (outcome: Result<
    ExportSuccess,
    ExportError,
>)
    ensures
        written is Ok ==> outcome == Ok::<ExportSuccess, ExportError>(ExportSuccess::Changes),
        written matches Err(e) ==> export_result_view(outcome) == Err::<
            ExportSuccess,
            ExportFailure,
        >(ExportFailure::FileError { file_path: file_path@, io_error: e }),
{
    match written {
        Ok(_) => Ok(ExportSuccess::Changes),
        Err(io_error) => Err(
            ExportError::FileError { file_path: String::from_str(file_path), io_error },
        ),
    }
}

/// How an export is to run.
#[derive(Clone, Copy, Debug, PartialEq, Eq, Structural)]
pub enum ExportMode {
    /// One cycle.
    Once,
    /// A cycle every given number of seconds, until cancelled.
    Periodic { seconds: u64 },
}

/// Chooses the mode from the polling interval, given in whole seconds: an
/// interval of at least one second means periodic export, anything else one
/// cycle.
pub fn export_mode(interval_seconds: Option<u64>) -> (mode: ExportMode)
    ensures
        mode == match interval_seconds {
            Some(seconds) if seconds > 0 => ExportMode::Periodic { seconds },
            _ => ExportMode::Once,
        },
{
    match interval_seconds {
        Some(seconds) if seconds > 0 => ExportMode::Periodic { seconds },
        _ => ExportMode::Once,
    }
}

/// What happens while a recurring export waits.
#[derive(Clone, Copy, Debug, PartialEq, Eq, Structural)]
pub enum LoopEvent {
    /// The export begins.
    Start,
    /// The trigger asks for a cycle.
    Signal,
    /// The trigger has ended: it will never ask again.
    Ended,
    /// Cancellation was requested.
    Cancelled,
}

/// What a recurring export does next.
#[derive(Clone, Copy, Debug, PartialEq, Eq, Structural)]
pub enum LoopAction {
    /// Run one cycle.
    RunCycle,
    /// Stop and report the given outcome.
    Finish(ExportSuccess),
}

/// A run of cycles: whether any cycle so far has changed the file.
#[derive(Clone, Copy, Debug, PartialEq, Eq, Structural)]
pub struct ExportRun {
    pub has_changes: bool,
}

impl ExportRun {
    /// What the run reports if it stops now.
    pub open spec fn outcome(self) -> ExportSuccess {
        if self.has_changes {
            ExportSuccess::Changes
        } else {
            ExportSuccess::NoChanges
        }
    }

    /// A run before its first cycle.
    pub fn new() -> (run: ExportRun)
        ensures
            !run.has_changes,
    {
        ExportRun { has_changes: false }
    }

    /// Decides what to do on an event: the start of the export and every
    /// signal ask for a cycle; the end of the trigger and a cancellation stop
    /// the run with what it has so far.
    pub fn on_event(&self, event: LoopEvent) -> (action: LoopAction)
        ensures
            action == match event {
                LoopEvent::Start => LoopAction::RunCycle,
                LoopEvent::Signal => LoopAction::RunCycle,
                _ => LoopAction::Finish(self.outcome()),
            },
    {
        match event {
            LoopEvent::Start => LoopAction::RunCycle,
            LoopEvent::Signal => LoopAction::RunCycle,
            _ => LoopAction::Finish(self.finish()),
        }
    }

    /// Takes in how a cycle ended. A failure aborts the run and is handed
    /// back; otherwise the run goes on and remembers a change.
    pub fn record_cycle(self, outcome: Result<ExportSuccess, ExportError>) -> (next: Result<
        ExportRun,
        ExportError,
    >)
        ensures
            match outcome {
                Ok(success) => next == Ok::<ExportRun, ExportError>(
                    ExportRun {
                        has_changes: self.has_changes || success == ExportSuccess::Changes,
                    },
                ),
                Err(error) => next == Err::<ExportRun, ExportError>(error),
            },
    {
        match outcome {
            Ok(ExportSuccess::Changes) => Ok(ExportRun { has_changes: true }),
            Ok(ExportSuccess::NoChanges) => Ok(self),
            Err(error) => Err(error),
        }
    }

    /// What the run reports when it stops.
    pub fn finish(self) -> (outcome: ExportSuccess)
        ensures
            outcome == self.outcome(),
    {
        if self.has_changes {
            ExportSuccess::Changes
        } else {
            ExportSuccess::NoChanges
        }
    }
}

/// The state of a run after the cycles `outcomes`, none of which failed.
pub open spec fn run_after(run: ExportRun, outcomes: Seq<ExportSuccess>) -> ExportRun
    decreases outcomes.len(),
{
    if outcomes.len() == 0 {
        run
    } else {
        run_after(
            ExportRun {
                has_changes: run.has_changes || outcomes[0] == ExportSuccess::Changes,
            },
            outcomes.skip(1),
        )
    }
}

/// A run reports changes exactly where it began with changes or one of its
/// cycles changed the file.
pub proof fn lemma_run_reports_any_change(run: ExportRun, outcomes: Seq<ExportSuccess>)
    ensures
        run_after(run, outcomes).has_changes <==> run.has_changes || exists|i: int|
            0 <= i < outcomes.len() && outcomes[i] == ExportSuccess::Changes,
    decreases outcomes.len(),
{
    if outcomes.len() > 0 {
        let next = ExportRun {
            has_changes: run.has_changes || outcomes[0] == ExportSuccess::Changes,
        };
        let rest = outcomes.skip(1);
        lemma_run_reports_any_change(next, rest);
        if run_after(run, outcomes).has_changes && !run.has_changes {
            if outcomes[0] != ExportSuccess::Changes {
                let i = choose|i: int| 0 <= i < rest.len() && rest[i] == ExportSuccess::Changes;
                assert(outcomes[i + 1] == ExportSuccess::Changes);
            }
        }
        if exists|i: int| 0 <= i < outcomes.len() && outcomes[i] == ExportSuccess::Changes {
            let i = choose|i: int| 0 <= i < outcomes.len() && outcomes[i] == ExportSuccess::Changes;
            if i > 0 {
                assert(rest[i - 1] == ExportSuccess::Changes);
            }
        }
    }
}

/// The content of the file after a cycle that got `response`, where the
/// write, if there was one, went through.
pub open spec fn file_after(
    content: Seq<char>,
    response: Result<FetchedItems, ApiFailure>,
) -> Seq<char> {
    match export_step(response) {
        ExportStepView::Write { content: written } => written,
        ExportStepView::Done(_) => content,
    }
}

/// A headline is one line: it holds no line feed, begins with no white space
/// and ends with a digit.
pub proof fn lemma_headline_is_one_line(version: u64)
    ensures
        forall|i: int|
            0 <= i < headline_text(version).len() ==> headline_text(version)[i] != '\n',
        headline_text(version).len() > 0,
        !is_whitespace(headline_text(version)[0]),
        is_digit(headline_text(version).last()),
{
    reveal_strlit("% *** THIS FILE WAS AUTO-GENERATED BY ZOTEX - DO NOT EDIT ***");
    reveal_strlit("Last-Modified-Version: ");
    lemma_decimal_digits(version as nat);
    let number = decimal(version as nat);
    let line = headline_text(version);
    assert forall|i: int| 0 <= i < line.len() implies line[i] != '\n' by {
        if i < PREFIX@.len() {
            assert(line[i] == PREFIX@[i]);
        } else if i < PREFIX@.len() + VERSION_PREFIX@.len() {
            assert(line[i] == VERSION_PREFIX@[i - PREFIX@.len()]);
        } else {
            assert(line[i] == number[i - PREFIX@.len() - VERSION_PREFIX@.len()]);
            assert(is_digit(number[i - PREFIX@.len() - VERSION_PREFIX@.len()]));
        }
    }
    assert(line[0] == PREFIX@[0]);
    assert(line.last() == number.last());
}

/// Change propagation: where the remote library answers with a version and a
/// payload, the cycle writes a file whose first line records that version and
/// whose remainder is the payload exactly.
pub proof fn lemma_change_propagation(version: u64, payload: Seq<char>)
    ensures
        export_step(
            Ok(FetchedItems::Updated { last_modified_version: version, text: payload }),
        ) == (ExportStepView::Write { content: file_content(version, payload) }),
        file_checkpoint(file_content(version, payload)) == Some(version),
        first_line(file_content(version, payload)) == headline_text(version) + seq!['\n'],
        file_content(version, payload).skip(
            first_line(file_content(version, payload)).len() as int,
        ) == payload,
{
    let line = headline_text(version);
    let content = file_content(version, payload);
    lemma_headline_is_one_line(version);
    lemma_first_index_after(line, '\n', payload);
    let read = first_line(content);
    assert(read =~= line + seq!['\n']);
    assert(content.skip(read.len() as int) =~= payload);
    assert(trim_start(read) == read);
    assert(read.drop_last() =~= line);
    assert(trim_end(read) == line) by {
        reveal_with_fuel(trim_end, 2);
    }
    lemma_headline_round_trip(version);
}

/// The remote library as a cycle sees it: its current version and the
/// payload that belongs to it.
pub struct RemoteLibrary {
    pub version: u64,
    pub payload: Seq<char>,
}

/// What the remote library answers when asked for the changes since `since`:
/// "up to date" where the caller holds the current version or a later one,
/// the current version and payload otherwise.
pub open spec fn remote_answer(remote: RemoteLibrary, since: Option<u64>) -> FetchedItems {
    match since {
        Some(version) if version >= remote.version => FetchedItems::UpToDate,
        _ => FetchedItems::Updated {
            last_modified_version: remote.version,
            text: remote.payload,
        },
    }
}

/// The content of the file after one cycle against `remote`.
pub open spec fn synced(content: Seq<char>, remote: RemoteLibrary) -> Seq<char> {
    file_after(content, Ok(remote_answer(remote, file_checkpoint(content))))
}

/// Idempotence: a second cycle with no change of the remote library in
/// between leaves the file as the first cycle left it.
pub proof fn lemma_sync_is_idempotent(content: Seq<char>, remote: RemoteLibrary)
    ensures
        synced(synced(content, remote), remote) == synced(content, remote),
{
    if remote_answer(remote, file_checkpoint(content)) is Updated {
        lemma_change_propagation(remote.version, remote.payload);
    }
}

/// A failed fetch, a cancelled one included, ends the cycle with that
/// failure and leaves the file as it was.
pub proof fn lemma_failure_keeps_file(content: Seq<char>, error: ApiFailure)
    ensures
        export_step(Err(error)) == ExportStepView::Done(Err(ExportFailure::ClientError(error))),
        file_after(content, Err(error)) == content,
{
}

} // verus!
