//! What holds of every run of the pipeline.

use crate::cli::changes::{collected_text, SizeExceeded};
use crate::cli::custom_param::lines_limit;
use crate::cli::http::{reply_meaning, ChatErrorView};
use crate::cli::outcome::{ExitOutcome, FailureView};
use crate::cli::pipeline::{
    aborted, next_step, ActionView, CommitOptions, Event, StageView,
};
use crate::config::Settings;
use crate::text::line_count;
use vstd::prelude::*;

verus! {

/// The stage that a run has reached after a sequence of events.
pub open spec fn stage_after(options: CommitOptions, settings: Settings, events: Seq<Event>) -> StageView
    decreases events.len(),
{
    if events.len() == 0 {
        StageView::Ready
    } else {
        next_step(
            options,
            settings,
            stage_after(options, settings, events.drop_last()),
            events.last(),
        ).0
    }
}

/// The action with which a run answers the last of a sequence of events.
pub open spec fn action_after(options: CommitOptions, settings: Settings, events: Seq<Event>) -> ActionView
    recommends
        events.len() > 0,
{
    next_step(
        options,
        settings,
        stage_after(options, settings, events.drop_last()),
        events.last(),
    ).1
}

impl StageView {
    /// Whether the run has not yet got beyond collecting the changes.
    pub open spec fn collecting(self) -> bool {
        match self {
            StageView::Ready => true,
            StageView::CheckingWorkTree => true,
            StageView::ListingChanges => true,
            StageView::Staging { .. } => true,
            StageView::ReadingDiff { .. } => true,
            _ => false,
        }
    }
}

/// A description with more lines than the ceiling ends the run where it is
/// read: the outcome is that the size was exceeded, the report names both
/// numbers, and the staging that was done is reported with it.
pub proof fn lemma_oversized_diff_aborts(
    options: CommitOptions,
    settings: Settings,
    status: Seq<char>,
    staged: bool,
    summary: String,
    detail: String,
)
    requires
        line_count(collected_text(status, options.amend, summary@, detail@)) > lines_limit(
            settings,
        ),
    ensures
        next_step(
            options,
            settings,
            StageView::ReadingDiff { status, staged },
            Event::DiffRead { summary, detail },
        ) == aborted(
            FailureView::SizeExceeded(
                SizeExceeded {
                    lines: line_count(
                        collected_text(status, options.amend, summary@, detail@),
                    ) as usize,
                    limit: lines_limit(settings),
                },
            ),
            staged,
        ),
        aborted(
            FailureView::SizeExceeded(
                SizeExceeded {
                    lines: line_count(
                        collected_text(status, options.amend, summary@, detail@),
                    ) as usize,
                    limit: lines_limit(settings),
                },
            ),
            staged,
        ).0 == StageView::Finished(ExitOutcome::AbortedSizeExceeded),
{
}

/// A chat is asked for only from a stage that a description within the
/// ceiling has led to.
pub proof fn lemma_chat_needs_cleared_stage(
    options: CommitOptions,
    settings: Settings,
    stage: StageView,
    event: Event,
)
    ensures
        next_step(options, settings, stage, event).1 is Chat ==> stage.cleared(),
        next_step(options, settings, stage, event).1 is Commit ==> stage.cleared(),
{
}

/// A run never goes back to collecting, and a finished run stays finished
/// and asks for nothing but to stop.
pub proof fn lemma_stages_go_forward(
    options: CommitOptions,
    settings: Settings,
    stage: StageView,
    event: Event,
)
    ensures
        next_step(options, settings, stage, event).0.collecting() ==> stage.collecting(),
        stage is Finished ==> next_step(options, settings, stage, event).0 == stage,
        stage is Finished ==> next_step(options, settings, stage, event).1 is Finish,
{
}

/// A run that is still collecting after some events was collecting after
/// every shorter beginning of them.
proof fn lemma_collecting_before(
    options: CommitOptions,
    settings: Settings,
    events: Seq<Event>,
    i: int,
    j: int,
)
    requires
        0 <= j <= i <= events.len(),
        stage_after(options, settings, events.take(i)).collecting(),
    ensures
        stage_after(options, settings, events.take(j)).collecting(),
    decreases i - j,
{
    if j < i {
        lemma_collecting_before(options, settings, events, i, j + 1);
        let longer = events.take(j + 1);
        assert(longer.drop_last() =~= events.take(j));
        lemma_stages_go_forward(
            options,
            settings,
            stage_after(options, settings, events.take(j)),
            longer.last(),
        );
    }
}

/// A run that is over after some events is over, with the same outcome,
/// after every longer sequence that begins with them.
proof fn lemma_finished_after(
    options: CommitOptions,
    settings: Settings,
    events: Seq<Event>,
    i: int,
    j: int,
)
    requires
        0 <= i <= j <= events.len(),
        stage_after(options, settings, events.take(i)) is Finished,
    ensures
        stage_after(options, settings, events.take(j)) == stage_after(
            options,
            settings,
            events.take(i),
        ),
    decreases j - i,
{
    if i < j {
        lemma_finished_after(options, settings, events, i, j - 1);
        let longer = events.take(j);
        assert(longer.drop_last() =~= events.take(j - 1));
        lemma_stages_go_forward(
            options,
            settings,
            stage_after(options, settings, events.take(j - 1)),
            longer.last(),
        );
    }
}

/// The second chat follows the first: the text of the second task is
/// asked for only on the answer to the first chat, and the second chat is
/// put only once that text has come. A commit is asked for only with a
/// summary in hand: on the answer to the first chat where the user gave
/// the subject, and on the answer to the second chat otherwise.
pub proof fn lemma_subject_follows_summary(
    options: CommitOptions,
    settings: Settings,
    stage: StageView,
    event: Event,
)
    ensures
        ({
            let next = next_step(options, settings, stage, event);
            &&& next.0 is LoadingSubjectPrompt ==> stage is Summarizing && event is ChatReplied
                && reply_meaning(event->ChatReplied_0) == Ok::<Seq<char>, ChatErrorView>(
                next.0->LoadingSubjectPrompt_summary,
            ) && options.title is None
            &&& next.0 is Titling ==> stage is LoadingSubjectPrompt && next.1 is Chat
                && next.0->Titling_summary == stage->LoadingSubjectPrompt_summary
            &&& next.1 is Commit ==> (stage is Summarizing && options.title is Some) || (
            stage is Titling && next.1->Commit_0.body == stage->Titling_summary)
            &&& next.1 is Commit ==> next.1->Commit_0.amend == options.amend
        }),
{
}

/// Every step that ends a run says whether the changes were staged on the
/// way: what was staged remains staged, and the user is told so.
pub proof fn lemma_report_tells_of_staging(
    options: CommitOptions,
    settings: Settings,
    stage: StageView,
    event: Event,
)
    requires
        !(stage is Finished),
    ensures
        ({
            let next = next_step(options, settings, stage, event);
            next.1 is Finish ==> next.1->Finish_0.staged == stage.staged() && next.0
                == StageView::Finished(next.1->Finish_0.outcome)
        }),
{
}

impl StageView {
    /// The place of a stage in the order of a run.
    pub open spec fn rank(self) -> nat {
        match self {
            StageView::Ready => 0,
            StageView::CheckingWorkTree => 1,
            StageView::ListingChanges => 2,
            StageView::Staging { .. } => 3,
            StageView::ReadingDiff { .. } => 4,
            StageView::LoadingDiffPrompt { .. } => 5,
            StageView::Summarizing { .. } => 6,
            StageView::LoadingSubjectPrompt { .. } => 7,
            StageView::Titling { .. } => 8,
            StageView::Committing { .. } => 9,
            StageView::Finished(_) => 10,
        }
    }
}

/// Every step of a run that is not over leads to a later stage: no stage
/// is passed twice.
pub proof fn lemma_every_step_advances(
    options: CommitOptions,
    settings: Settings,
    stage: StageView,
    event: Event,
)
    requires
        !(stage is Finished),
    ensures
        next_step(options, settings, stage, event).0.rank() > stage.rank(),
{
}

/// A run comes to its end: after ten events, whatever they are, it is
/// over.
pub proof fn lemma_runs_end(options: CommitOptions, settings: Settings, events: Seq<Event>)
    ensures
        stage_after(options, settings, events).rank() >= events.len() || stage_after(
            options,
            settings,
            events,
        ) is Finished,
        events.len() >= 10 ==> stage_after(options, settings, events) is Finished,
    decreases events.len(),
{
    if events.len() > 0 {
        lemma_runs_end(options, settings, events.drop_last());
        let before = stage_after(options, settings, events.drop_last());
        if before is Finished {
            lemma_stages_go_forward(options, settings, before, events.last());
        } else {
            lemma_every_step_advances(options, settings, before, events.last());
        }
    }
}

/// In a run in which a description with more lines than the ceiling is
/// read, no chat is ever asked for and no commit is made, neither before
/// that point nor after it, and the run ends with the size exceeded.
pub proof fn lemma_oversized_diff_never_reaches_model(
    options: CommitOptions,
    settings: Settings,
    events: Seq<Event>,
    i: int,
)
    requires
        0 <= i < events.len(),
        stage_after(options, settings, events.take(i)) is ReadingDiff,
        events[i] is DiffRead,
        line_count(
            collected_text(
                stage_after(options, settings, events.take(i))->ReadingDiff_status,
                options.amend,
                events[i]->DiffRead_summary@,
                events[i]->DiffRead_detail@,
            ),
        ) > lines_limit(settings),
    ensures
        forall|j: int|
            0 < j <= events.len() ==> !(#[trigger] action_after(
                options,
                settings,
                events.take(j),
            ) is Chat) && !(action_after(options, settings, events.take(j)) is Commit),
        stage_after(options, settings, events) == StageView::Finished(
            ExitOutcome::AbortedSizeExceeded,
        ),
{
    let at = stage_after(options, settings, events.take(i));
    let through = events.take(i + 1);
    assert(through.drop_last() =~= events.take(i));
    lemma_oversized_diff_aborts(
        options,
        settings,
        at->ReadingDiff_status,
        at->ReadingDiff_staged,
        events[i]->DiffRead_summary,
        events[i]->DiffRead_detail,
    );
    assert forall|j: int| 0 < j <= events.len() implies !(#[trigger] action_after(
        options,
        settings,
        events.take(j),
    ) is Chat) && !(action_after(options, settings, events.take(j)) is Commit) by {
        let upto = events.take(j);
        assert(upto.drop_last() =~= events.take(j - 1));
        let before = stage_after(options, settings, events.take(j - 1));
        if j - 1 <= i {
            lemma_collecting_before(options, settings, events, i, j - 1);
        } else {
            lemma_finished_after(options, settings, events, i + 1, j - 1);
        }
        lemma_chat_needs_cleared_stage(options, settings, before, upto.last());
        lemma_stages_go_forward(options, settings, before, upto.last());
    }
    lemma_finished_after(options, settings, events, i + 1, events.len() as int);
    assert(events.take(events.len() as int) =~= events);
}

} // verus!
