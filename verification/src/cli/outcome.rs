//! How a run ends: the outcome, the failure behind an abort, and what the
//! user is told.

use crate::cli::ai_configer::{missing_message, ConfigMissing};
use crate::cli::changes::SizeExceeded;
use crate::cli::commit::{ProcessError, ProcessErrorView};
use crate::cli::http::{ChatError, ChatErrorView};
use crate::text::{joined, texts_view};
use vstd::prelude::*;
use vstd::string::StringExecFns;

verus! {

/// How a run ended.
#[derive(Debug, Clone, Copy, PartialEq, Eq, Structural)]
pub enum ExitOutcome {
    Committed,
    SkippedNoChanges,
    AbortedSizeExceeded,
    AbortedConfigMissing,
    AbortedChatError,
    AbortedProcessError,
}

/// The exit status that stands for an outcome: zero for a commit and for a
/// clean run that found nothing to do, one for every abort.
pub open spec fn exit_status(outcome: ExitOutcome) -> int {
    match outcome {
        ExitOutcome::Committed | ExitOutcome::SkippedNoChanges => 0,
        _ => 1,
    }
}

/// The exit status with which the tool ends on an outcome.
pub fn exit_code(outcome: ExitOutcome) -> (code: i32)
    ensures
        code == exit_status(outcome),
{
    match outcome {
        ExitOutcome::Committed | ExitOutcome::SkippedNoChanges => 0,
        _ => 1,
    }
}

/// Why a run was aborted.
#[derive(Debug, Clone, PartialEq, Eq)]
pub enum Failure {
    /// The configuration lacks what a chat needs.
    ConfigMissing(ConfigMissing),
    /// The change description is longer than the user allows.
    SizeExceeded(SizeExceeded),
    /// A chat came to nothing.
    Chat(ChatError),
    /// A subprocess failed.
    Process(ProcessError),
    /// An event arrived that the pipeline was not waiting for.
    OutOfOrder,
}

/// What a [`Failure`] holds, with every text as the sequence of its characters.
pub enum FailureView {
    ConfigMissing(ConfigMissing),
    SizeExceeded(SizeExceeded),
    Chat(ChatErrorView),
    Process(ProcessErrorView),
    OutOfOrder,
}

impl View for Failure {
    type V = FailureView;

    open spec fn view(&self) -> FailureView {
        match self {
            Failure::ConfigMissing(missing) => FailureView::ConfigMissing(*missing),
            Failure::SizeExceeded(size) => FailureView::SizeExceeded(*size),
            Failure::Chat(error) => FailureView::Chat(error@),
            Failure::Process(error) => FailureView::Process(error@),
            Failure::OutOfOrder => FailureView::OutOfOrder,
        }
    }
}

impl FailureView {
    /// The outcome that a failure leads to. A model without an address is a
    /// matter of configuration.
    pub open spec fn outcome(self) -> ExitOutcome {
        match self {
            FailureView::ConfigMissing(_) => ExitOutcome::AbortedConfigMissing,
            FailureView::SizeExceeded(_) => ExitOutcome::AbortedSizeExceeded,
            FailureView::Chat(ChatErrorView::ProviderUnresolved) => ExitOutcome::AbortedConfigMissing,
            FailureView::Chat(_) => ExitOutcome::AbortedChatError,
            FailureView::Process(_) | FailureView::OutOfOrder => ExitOutcome::AbortedProcessError,
        }
    }
}

impl Failure {
    /// The outcome that this failure leads to.
    pub fn outcome(&self) -> (outcome: ExitOutcome)
        ensures
            outcome == self@.outcome(),
    {
        match self {
            Failure::ConfigMissing(_) => ExitOutcome::AbortedConfigMissing,
            Failure::SizeExceeded(_) => ExitOutcome::AbortedSizeExceeded,
            Failure::Chat(ChatError::ProviderUnresolved) => ExitOutcome::AbortedConfigMissing,
            Failure::Chat(_) => ExitOutcome::AbortedChatError,
            Failure::Process(_) | Failure::OutOfOrder => ExitOutcome::AbortedProcessError,
        }
    }
}

/// The end of a run: the outcome, the failure behind an abort, and whether
/// the user is to be told that the changes were staged and remain so.
#[derive(Debug, Clone, PartialEq, Eq)]
pub struct Report {
    pub outcome: ExitOutcome,
    pub failure: Option<Failure>,
    pub staged: bool,
}

/// What a [`Report`] holds, with every text as the sequence of its characters.
pub struct ReportView {
    pub outcome: ExitOutcome,
    pub failure: Option<FailureView>,
    pub staged: bool,
}

impl View for Report {
    type V = ReportView;

    open spec fn view(&self) -> ReportView {
        ReportView {
            outcome: self.outcome,
            failure: match self.failure {
                Some(failure) => Some(failure@),
                None => None,
            },
            staged: self.staged,
        }
    }
}

/// Every failure leads to an abort, and every abort to an exit status
/// that is not zero.
pub proof fn lemma_failures_exit_nonzero(failure: FailureView)
    ensures
        failure.outcome() != ExitOutcome::Committed,
        failure.outcome() != ExitOutcome::SkippedNoChanges,
        exit_status(failure.outcome()) != 0,
{
}

/// What the user is told in addition where the changes were staged and
/// remain so.
pub const STAGED_NOTE: &'static str = "Noted: your changes are added to git staged area";

/// What the user is told after a commit.
pub const COMMITTED_NOTE: &'static str =
    "Successfully committed changes! If you were discontent with the commit message and want to polish or revise it, run 'gim -p' or 'git commit --amend'";

/// What the user is told where there was nothing to describe.
pub const NO_CHANGES_NOTE: &'static str =
    "No changes found. To override last commit message, please use '-p' option";

impl FailureView {
    /// What the user is told of a failure.
    pub open spec fn message(self) -> Seq<char> {
        match self {
            FailureView::ConfigMissing(missing) => "Error: "@ + missing_message(missing),
            FailureView::SizeExceeded(size) => size.message_text(),
            FailureView::Chat(error) => "Error: "@ + error.message(),
            FailureView::Process(error) => "Error: Failed to run "@ + error.tool + " - "@
                + error.stderr,
            FailureView::OutOfOrder => "Error: the steps of the run came out of order"@,
        }
    }
}

impl Failure {
    /// What the user is told of this failure.
    pub fn message(&self) -> (text: String)
        ensures
            text@ == self@.message(),
    {
        match self {
            Failure::ConfigMissing(missing) => joined("Error: ", missing.message().as_str()),
            Failure::SizeExceeded(size) => size.message(),
            Failure::Chat(error) => joined("Error: ", error.message().as_str()),
            Failure::Process(error) => {
                let mut text = joined("Error: Failed to run ", error.tool.as_str());
                text.append(" - ");
                text.append(error.stderr.as_str());
                text
            },
            Failure::OutOfOrder => String::from_str("Error: the steps of the run came out of order"),
        }
    }
}

impl ReportView {
    /// What the user is told at the end of a run: the failure where there is
    /// one, and else what the outcome means; then, unless the run ended in a
    /// commit, the note on the staged changes where there are any.
    pub open spec fn lines(self) -> Seq<Seq<char>> {
        let first = match self.failure {
            Some(failure) => seq![failure.message()],
            None => match self.outcome {
                ExitOutcome::Committed => seq![COMMITTED_NOTE@],
                ExitOutcome::SkippedNoChanges => seq![NO_CHANGES_NOTE@],
                _ => Seq::empty(),
            },
        };
        if self.staged && self.outcome != ExitOutcome::Committed {
            first.push(STAGED_NOTE@)
        } else {
            first
        }
    }
}

impl Report {
    /// Writes what the user is told at the end of a run.
    pub fn lines(&self) -> (lines: Vec<String>)
        ensures
            texts_view(lines@) == self@.lines(),
    {
        let mut lines: Vec<String> = Vec::new();
        match &self.failure {
            Some(failure) => {
                lines.push(failure.message());
            },
            None => match self.outcome {
                ExitOutcome::Committed => {
                    lines.push(String::from_str(COMMITTED_NOTE));
                },
                ExitOutcome::SkippedNoChanges => {
                    lines.push(String::from_str(NO_CHANGES_NOTE));
                },
                _ => {},
            },
        }
        let committed = match self.outcome {
            ExitOutcome::Committed => true,
            _ => false,
        };
        if self.staged && !committed {
            lines.push(String::from_str(STAGED_NOTE));
        }
        lines
    }
}

} // verus!
