//! The commit-message pipeline: from the state of the repository to a
//! commit, one step at a time.
//!
//! The pipeline itself neither runs a subprocess nor talks to the network.
//! It is a state machine: each step takes what the last action brought and
//! names the next action. Whoever drives it performs the action and comes
//! back with the event.

use crate::cli::ai_configer::{
    get_validated_ai_config, validated_ai, ValidatedAi, ValidatedAiView,
};
use crate::cli::changes::{collect, collected_text, source_for, DiffSource, SizeExceeded};
use crate::cli::commit::{CommitSpec, CommitSpecView, ProcessError, ProcessErrorView};
use crate::cli::custom_param::{get_lines_limit, lines_limit};
use crate::cli::http::{
    chat, chat_call, chat_result, reply_meaning, ChatCall, ChatCallView, ChatError, ChatReply,
};
use crate::cli::outcome::{ExitOutcome, Failure, FailureView, Report, ReportView};
use crate::cli::prompt::{augment, augmented, PromptKind};
use crate::config::Settings;
use crate::text::{count_lines, joined, line_count, lines_of};
use vstd::prelude::*;
use vstd::string::StringExecFns;

verus! {

/// What the user asked of one run.
#[derive(Debug, Clone, PartialEq, Eq)]
pub struct CommitOptions {
    /// The commit subject, where the user gives it and the model need not.
    pub title: Option<String>,
    /// Stage all changes first.
    pub auto_add: bool,
    /// Replace the message of the last commit.
    pub amend: bool,
    /// Echo what is sent and received.
    pub verbose: bool,
}

/// What the pipeline is waiting for.
#[derive(Debug, Clone, PartialEq, Eq)]
pub enum Stage {
    /// Nothing has happened yet.
    Ready,
    /// Asked whether the working directory lies inside a work tree.
    CheckingWorkTree,
    /// Asked for the short status listing.
    ListingChanges,
    /// Asked to stage every change; `status` is the listing.
    Staging { status: String },
    /// Asked for the description of the changes.
    ReadingDiff { status: String, staged: bool },
    /// Asked for the text of the first task; `user_text` is what will be put
    /// to the model.
    LoadingDiffPrompt { ai: ValidatedAi, user_text: String, staged: bool },
    /// The first chat is under way: the summary of the changes.
    Summarizing { ai: ValidatedAi, staged: bool },
    /// Asked for the text of the second task; `summary` is what the first
    /// chat returned.
    LoadingSubjectPrompt { ai: ValidatedAi, summary: String, staged: bool },
    /// The second chat is under way: the commit subject.
    Titling { summary: String, staged: bool },
    /// The commit action is under way.
    Committing { staged: bool },
    /// The run is over.
    Finished(ExitOutcome),
}

/// What a [`Stage`] holds, with every text as the sequence of its characters.
pub enum StageView {
    Ready,
    CheckingWorkTree,
    ListingChanges,
    Staging { status: Seq<char> },
    ReadingDiff { status: Seq<char>, staged: bool },
    LoadingDiffPrompt { ai: ValidatedAiView, user_text: Seq<char>, staged: bool },
    Summarizing { ai: ValidatedAiView, staged: bool },
    LoadingSubjectPrompt { ai: ValidatedAiView, summary: Seq<char>, staged: bool },
    Titling { summary: Seq<char>, staged: bool },
    Committing { staged: bool },
    Finished(ExitOutcome),
}

impl View for Stage {
    type V = StageView;

    open spec fn view(&self) -> StageView {
        match self {
            Stage::Ready => StageView::Ready,
            Stage::CheckingWorkTree => StageView::CheckingWorkTree,
            Stage::ListingChanges => StageView::ListingChanges,
            Stage::Staging { status } => StageView::Staging { status: status@ },
            Stage::ReadingDiff { status, staged } => StageView::ReadingDiff {
                status: status@,
                staged: *staged,
            },
            Stage::LoadingDiffPrompt { ai, user_text, staged } => StageView::LoadingDiffPrompt {
                ai: ai@,
                user_text: user_text@,
                staged: *staged,
            },
            Stage::Summarizing { ai, staged } => StageView::Summarizing { ai: ai@, staged: *staged },
            Stage::LoadingSubjectPrompt { ai, summary, staged } => StageView::LoadingSubjectPrompt {
                ai: ai@,
                summary: summary@,
                staged: *staged,
            },
            Stage::Titling { summary, staged } => StageView::Titling {
                summary: summary@,
                staged: *staged,
            },
            Stage::Committing { staged } => StageView::Committing { staged: *staged },
            Stage::Finished(outcome) => StageView::Finished(*outcome),
        }
    }
}

impl StageView {
    /// Whether the changes were staged on the way to this stage.
    pub open spec fn staged(self) -> bool {
        match self {
            StageView::ReadingDiff { staged, .. } => staged,
            StageView::LoadingDiffPrompt { staged, .. } => staged,
            StageView::Summarizing { staged, .. } => staged,
            StageView::LoadingSubjectPrompt { staged, .. } => staged,
            StageView::Titling { staged, .. } => staged,
            StageView::Committing { staged } => staged,
            _ => false,
        }
    }

    /// Whether the change description has been collected and found to be
    /// within the ceiling, so that chats may follow.
    pub open spec fn cleared(self) -> bool {
        match self {
            StageView::LoadingDiffPrompt { .. } => true,
            StageView::Summarizing { .. } => true,
            StageView::LoadingSubjectPrompt { .. } => true,
            StageView::Titling { .. } => true,
            StageView::Committing { .. } => true,
            _ => false,
        }
    }
}

/// What an action brought.
#[derive(Debug, Clone, PartialEq, Eq)]
pub enum Event {
    /// The run begins.
    Started,
    /// Whether the working directory lies inside a work tree.
    WorkTreeChecked(bool),
    /// The short status listing.
    ChangesListed(String),
    /// Every change is staged.
    ChangesStaged,
    /// Names and statuses of the changed files, and the full diff of the
    /// added and modified ones.
    DiffRead { summary: String, detail: String },
    /// The text of the task that was asked for.
    PromptLoaded(String),
    /// What came of the chat.
    ChatReplied(ChatReply),
    /// The commit was made.
    Committed,
    /// The subprocess of the last action failed, and said this.
    ProcessFailed(String),
}

/// What is to be done next.
#[derive(Debug, Clone, PartialEq, Eq)]
pub enum Action {
    /// Ask whether the working directory lies inside a work tree.
    CheckWorkTree,
    /// Ask for the short status listing.
    ListChanges { untracked: bool },
    /// Stage every change.
    StageAll,
    /// Ask for the description of the changes.
    ReadDiff(DiffSource),
    /// Load the text of a task.
    LoadPrompt(PromptKind),
    /// Put a request to the model.
    Chat(ChatCall),
    /// Make the commit.
    Commit(CommitSpec),
    /// Stop.
    Finish(Report),
}

/// What a [`Action`] holds, with every text as the sequence of its characters.
pub enum ActionView {
    CheckWorkTree,
    ListChanges { untracked: bool },
    StageAll,
    ReadDiff(DiffSource),
    LoadPrompt(PromptKind),
    Chat(ChatCallView),
    Commit(CommitSpecView),
    Finish(ReportView),
}

impl View for Action {
    type V = ActionView;

    open spec fn view(&self) -> ActionView {
        match self {
            Action::CheckWorkTree => ActionView::CheckWorkTree,
            Action::ListChanges { untracked } => ActionView::ListChanges { untracked: *untracked },
            Action::StageAll => ActionView::StageAll,
            Action::ReadDiff(source) => ActionView::ReadDiff(*source),
            Action::LoadPrompt(kind) => ActionView::LoadPrompt(*kind),
            Action::Chat(call) => ActionView::Chat(call@),
            Action::Commit(spec) => ActionView::Commit(spec@),
            Action::Finish(report) => ActionView::Finish(report@),
        }
    }
}

/// What the tool says where it is run outside a repository.
pub const OUTSIDE_WORK_TREE: &'static str = "should run in a git repository";

/// What opens the user's message of the second chat, before the summary.
pub const SUMMARY_HEADING: &'static str = "The changes are: \n";

/// The end of a run without a failure.
pub open spec fn finished(outcome: ExitOutcome, staged: bool) -> (StageView, ActionView) {
    (
        StageView::Finished(outcome),
        ActionView::Finish(ReportView { outcome, failure: None, staged }),
    )
}

/// The end of a run with a failure.
pub open spec fn aborted(failure: FailureView, staged: bool) -> (StageView, ActionView) {
    (
        StageView::Finished(failure.outcome()),
        ActionView::Finish(
            ReportView { outcome: failure.outcome(), failure: Some(failure), staged },
        ),
    )
}

/// The step taken on an event that the stage was not waiting for: the run
/// is over; a failed subprocess is reported as such.
pub open spec fn next_unexpected(stage: StageView, event: Event) -> (StageView, ActionView) {
    match (stage, event) {
        (StageView::Finished(outcome), _) => finished(outcome, false),
        (_, Event::ProcessFailed(stderr)) => aborted(
            FailureView::Process(ProcessErrorView::git(stderr@)),
            stage.staged(),
        ),
        _ => aborted(FailureView::OutOfOrder, stage.staged()),
    }
}

/// The step taken once the description of the changes has been read.
pub open spec fn next_after_diff(
    options: CommitOptions,
    settings: Settings,
    status: Seq<char>,
    staged: bool,
    summary: Seq<char>,
    detail: Seq<char>,
) -> (StageView, ActionView) {
    let text = collected_text(status, options.amend, summary, detail);
    if text.len() == 0 {
        finished(ExitOutcome::SkippedNoChanges, staged)
    } else if line_count(text) > lines_limit(settings) {
        aborted(
            FailureView::SizeExceeded(
                SizeExceeded { lines: line_count(text) as usize, limit: lines_limit(settings) },
            ),
            staged,
        )
    } else {
        match validated_ai(settings) {
            Err(missing) => aborted(FailureView::ConfigMissing(missing), staged),
            Ok(ai) => (
                StageView::LoadingDiffPrompt {
                    ai,
                    user_text: augmented(text, ai.language),
                    staged,
                },
                ActionView::LoadPrompt(PromptKind::Diff),
            ),
        }
    }
}

/// The step that puts a chat on its way, or ends the run where it cannot
/// be prepared.
pub open spec fn next_chat(
    options: CommitOptions,
    ai: ValidatedAiView,
    prompt: Seq<char>,
    user_text: Seq<char>,
    staged: bool,
    waiting: StageView,
) -> (StageView, ActionView) {
    match chat_call(ai.url, ai.model_name, ai.api_key, Some(prompt), user_text, options.verbose) {
        Err(error) => aborted(FailureView::Chat(error), staged),
        Ok(call) => (waiting, ActionView::Chat(call)),
    }
}

/// The step that asks for the commit.
pub open spec fn next_commit(
    options: CommitOptions,
    subject: Seq<char>,
    summary: Seq<char>,
    staged: bool,
) -> (StageView, ActionView) {
    (
        StageView::Committing { staged },
        ActionView::Commit(CommitSpecView { subject, body: summary, amend: options.amend }),
    )
}

/// One step of the pipeline: the stage that follows `stage` on `event`, and
/// the action to perform before the next event.
///
/// The stages follow each other in a fixed order: work tree, status
/// listing, staging where it is asked for, description of the changes,
/// first chat, second chat, commit. The second chat is left out where the
/// user gave the subject. Any failure ends the run at once.
pub open spec fn next_step(
    options: CommitOptions,
    settings: Settings,
    stage: StageView,
    event: Event,
) -> (StageView, ActionView) {
    match (stage, event) {
        (StageView::Ready, Event::Started) => (
            StageView::CheckingWorkTree,
            ActionView::CheckWorkTree,
        ),
        (StageView::CheckingWorkTree, Event::WorkTreeChecked(inside)) => if inside {
            (StageView::ListingChanges, ActionView::ListChanges { untracked: options.auto_add })
        } else {
            aborted(FailureView::Process(ProcessErrorView::git(OUTSIDE_WORK_TREE@)), false)
        },
        (StageView::ListingChanges, Event::ChangesListed(output)) => {
            let changed = lines_of(output@).len() > 0;
            if changed && options.auto_add {
                (StageView::Staging { status: output@ }, ActionView::StageAll)
            } else if changed || options.amend {
                (
                    StageView::ReadingDiff { status: output@, staged: false },
                    ActionView::ReadDiff(source_for(options.amend)),
                )
            } else {
                finished(ExitOutcome::SkippedNoChanges, false)
            }
        },
        (StageView::Staging { status }, Event::ChangesStaged) => (
            StageView::ReadingDiff { status, staged: true },
            ActionView::ReadDiff(source_for(options.amend)),
        ),
        (StageView::ReadingDiff { status, staged }, Event::DiffRead { summary, detail }) =>
            next_after_diff(options, settings, status, staged, summary@, detail@),
        (StageView::LoadingDiffPrompt { ai, user_text, staged }, Event::PromptLoaded(prompt)) =>
            next_chat(options, ai, prompt@, user_text, staged, StageView::Summarizing { ai, staged }),
        (StageView::Summarizing { ai, staged }, Event::ChatReplied(reply)) => match reply_meaning(
            reply,
        ) {
            Err(error) => aborted(FailureView::Chat(error), staged),
            Ok(summary) => match options.title {
                Some(title) => next_commit(options, title@, summary, staged),
                None => (
                    StageView::LoadingSubjectPrompt { ai, summary, staged },
                    ActionView::LoadPrompt(PromptKind::Subject),
                ),
            },
        },
        (StageView::LoadingSubjectPrompt { ai, summary, staged }, Event::PromptLoaded(prompt)) =>
            next_chat(
                options,
                ai,
                prompt@,
                SUMMARY_HEADING@ + summary,
                staged,
                StageView::Titling { summary, staged },
            ),
        (StageView::Titling { summary, staged }, Event::ChatReplied(reply)) => match reply_meaning(
            reply,
        ) {
            Err(error) => aborted(FailureView::Chat(error), staged),
            Ok(subject) => next_commit(options, subject, summary, staged),
        },
        (StageView::Committing { staged }, Event::Committed) => finished(
            ExitOutcome::Committed,
            staged,
        ),
        _ => next_unexpected(stage, event),
    }
}

fn finish(outcome: ExitOutcome, staged: bool) -> (next: (Stage, Action))
    ensures
        (next.0@, next.1@) == finished(outcome, staged),
{
    (Stage::Finished(outcome), Action::Finish(Report { outcome, failure: None, staged }))
}

fn abort(failure: Failure, staged: bool) -> (next: (Stage, Action))
    ensures
        (next.0@, next.1@) == aborted(failure@, staged),
{
    let outcome = failure.outcome();
    (Stage::Finished(outcome), Action::Finish(Report { outcome, failure: Some(failure), staged }))
}

fn unexpected(stage: Stage, event: Event) -> (next: (Stage, Action))
    ensures
        (next.0@, next.1@) == next_unexpected(stage@, event),
{
    let staged = match stage {
        Stage::Finished(outcome) => {
            return finish(outcome, false);
        },
        Stage::ReadingDiff { staged, .. } => staged,
        Stage::LoadingDiffPrompt { staged, .. } => staged,
        Stage::Summarizing { staged, .. } => staged,
        Stage::LoadingSubjectPrompt { staged, .. } => staged,
        Stage::Titling { staged, .. } => staged,
        Stage::Committing { staged } => staged,
        _ => false,
    };
    match event {
        Event::ProcessFailed(stderr) => abort(Failure::Process(ProcessError::git(stderr)), staged),
        _ => abort(Failure::OutOfOrder, staged),
    }
}

fn after_diff(
    options: &CommitOptions,
    settings: &Settings,
    status: String,
    staged: bool,
    summary: String,
    detail: String,
) -> (next: (Stage, Action))
    ensures
        (next.0@, next.1@) == next_after_diff(
            *options,
            *settings,
            status@,
            staged,
            summary@,
            detail@,
        ),
{
    let limit = get_lines_limit(settings);
    let change_set = match collect(
        status.as_str(),
        options.amend,
        summary.as_str(),
        detail.as_str(),
        limit,
    ) {
        Err(size) => {
            return abort(Failure::SizeExceeded(size), staged);
        },
        Ok(change_set) => change_set,
    };
    if change_set.is_empty() {
        return finish(ExitOutcome::SkippedNoChanges, staged);
    }
    match get_validated_ai_config(settings) {
        Err(missing) => abort(Failure::ConfigMissing(missing), staged),
        Ok(ai) => {
            let user_text = augment(change_set.diff(), ai.language.as_str());
            (Stage::LoadingDiffPrompt { ai, user_text, staged }, Action::LoadPrompt(PromptKind::Diff))
        },
    }
}

fn prepare_chat(
    options: &CommitOptions,
    ai: &ValidatedAi,
    prompt: String,
    user_text: String,
) -> (prepared: Result<ChatCall, ChatError>)
    ensures
        (match chat_call(
            ai@.url,
            ai@.model_name,
            ai@.api_key,
            Some(prompt@),
            user_text@,
            options.verbose,
        ) {
            Ok(call) => prepared is Ok && prepared->Ok_0@ == call,
            Err(error) => prepared is Err && prepared->Err_0@ == error,
        }),
{
    chat(
        ai.url.clone(),
        ai.model_name.clone(),
        ai.api_key.clone(),
        Some(prompt),
        user_text,
        options.verbose,
    )
}

fn start_commit(options: &CommitOptions, subject: String, summary: String, staged: bool) -> (next: (
    Stage,
    Action,
))
    ensures
        (next.0@, next.1@) == next_commit(*options, subject@, summary@, staged),
{
    (
        Stage::Committing { staged },
        Action::Commit(CommitSpec { subject, body: summary, amend: options.amend }),
    )
}

/// Takes one step of the pipeline.
pub fn step(options: &CommitOptions, settings: &Settings, stage: Stage, event: Event) -> (next: (
    Stage,
    Action,
))
    ensures
        (next.0@, next.1@) == next_step(*options, *settings, stage@, event),
{
    match stage {
        Stage::Ready => match event {
            Event::Started => (Stage::CheckingWorkTree, Action::CheckWorkTree),
            other => unexpected(Stage::Ready, other),
        },
        Stage::CheckingWorkTree => match event {
            Event::WorkTreeChecked(inside) => {
                if inside {
                    (Stage::ListingChanges, Action::ListChanges { untracked: options.auto_add })
                } else {
                    abort(
                        Failure::Process(ProcessError::git(String::from_str(OUTSIDE_WORK_TREE))),
                        false,
                    )
                }
            },
            other => unexpected(Stage::CheckingWorkTree, other),
        },
        Stage::ListingChanges => match event {
            Event::ChangesListed(output) => {
                let changed = count_lines(output.as_str()) > 0;
                let source = if options.amend {
                    DiffSource::LastCommit
                } else {
                    DiffSource::Staged
                };
                if changed && options.auto_add {
                    (Stage::Staging { status: output }, Action::StageAll)
                } else if changed || options.amend {
                    (Stage::ReadingDiff { status: output, staged: false }, Action::ReadDiff(source))
                } else {
                    finish(ExitOutcome::SkippedNoChanges, false)
                }
            },
            other => unexpected(Stage::ListingChanges, other),
        },
        Stage::Staging { status } => match event {
            Event::ChangesStaged => {
                let source = if options.amend {
                    DiffSource::LastCommit
                } else {
                    DiffSource::Staged
                };
                (Stage::ReadingDiff { status, staged: true }, Action::ReadDiff(source))
            },
            other => unexpected(Stage::Staging { status }, other),
        },
        Stage::ReadingDiff { status, staged } => match event {
            Event::DiffRead { summary, detail } => after_diff(
                options,
                settings,
                status,
                staged,
                summary,
                detail,
            ),
            other => unexpected(Stage::ReadingDiff { status, staged }, other),
        },
        Stage::LoadingDiffPrompt { ai, user_text, staged } => match event {
            Event::PromptLoaded(prompt) => match prepare_chat(options, &ai, prompt, user_text) {
                Err(error) => abort(Failure::Chat(error), staged),
                Ok(call) => (Stage::Summarizing { ai, staged }, Action::Chat(call)),
            },
            other => unexpected(Stage::LoadingDiffPrompt { ai, user_text, staged }, other),
        },
        Stage::Summarizing { ai, staged } => match event {
            Event::ChatReplied(reply) => match chat_result(reply) {
                Err(error) => abort(Failure::Chat(error), staged),
                Ok(summary) => match &options.title {
                    Some(title) => start_commit(options, title.clone(), summary, staged),
                    None => (
                        Stage::LoadingSubjectPrompt { ai, summary, staged },
                        Action::LoadPrompt(PromptKind::Subject),
                    ),
                },
            },
            other => unexpected(Stage::Summarizing { ai, staged }, other),
        },
        Stage::LoadingSubjectPrompt { ai, summary, staged } => match event {
            Event::PromptLoaded(prompt) => {
                let user_text = joined(SUMMARY_HEADING, summary.as_str());
                match prepare_chat(options, &ai, prompt, user_text) {
                    Err(error) => abort(Failure::Chat(error), staged),
                    Ok(call) => (Stage::Titling { summary, staged }, Action::Chat(call)),
                }
            },
            other => unexpected(Stage::LoadingSubjectPrompt { ai, summary, staged }, other),
        },
        Stage::Titling { summary, staged } => match event {
            Event::ChatReplied(reply) => match chat_result(reply) {
                Err(error) => abort(Failure::Chat(error), staged),
                Ok(subject) => start_commit(options, subject, summary, staged),
            },
            other => unexpected(Stage::Titling { summary, staged }, other),
        },
        Stage::Committing { staged } => match event {
            Event::Committed => finish(ExitOutcome::Committed, staged),
            other => unexpected(Stage::Committing { staged }, other),
        },
        Stage::Finished(outcome) => unexpected(Stage::Finished(outcome), event),
    }
}

/// One run of the pipeline: what the user asked, the configuration it runs
/// under, and how far it has come.
#[derive(Debug, Clone, PartialEq, Eq)]
pub struct Pipeline {
    pub options: CommitOptions,
    pub settings: Settings,
    pub stage: Stage,
}

impl Pipeline {
    /// A run that has not begun.
    pub fn new(options: CommitOptions, settings: Settings) -> (pipeline: Pipeline)
        ensures
            pipeline.options == options,
            pipeline.settings == settings,
            pipeline.stage@ == StageView::Ready,
    {
        Pipeline { options, settings, stage: Stage::Ready }
    }

    /// Takes the event that the last action brought and names the next
    /// action. The first event of a run is [`Event::Started`].
    pub fn advance(&mut self, event: Event) -> (action: Action)
        ensures
            (final(self).stage@, action@) == next_step(
                old(self).options,
                old(self).settings,
                old(self).stage@,
                event,
            ),
            final(self).options == old(self).options,
            final(self).settings == old(self).settings,
    {
        let mut stage = Stage::Ready;
        std::mem::swap(&mut self.stage, &mut stage);
        let (next, action) = step(&self.options, &self.settings, stage, event);
        self.stage = next;
        action
    }

    /// The outcome of the run, once it is over.
    pub fn outcome(&self) -> (outcome: Option<ExitOutcome>)
        ensures
            outcome == (match self.stage@ {
                StageView::Finished(outcome) => Some(outcome),
                _ => None,
            }),
    {
        match &self.stage {
            Stage::Finished(outcome) => Some(*outcome),
            _ => None,
        }
    }
}

} // verus!
