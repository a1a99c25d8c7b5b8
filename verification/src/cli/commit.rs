//! The commit executor: how the version-control tool is invoked, and what
//! its failure means.

use crate::cli::changes::DiffSource;
use crate::text::texts_view;
use vstd::prelude::*;
use vstd::string::StringExecFns;

verus! {

/// The program that all repository work goes through.
pub const GIT: &'static str = "git";

/// A commit to make: its subject, its body, and whether it replaces the
/// last commit.
#[derive(Debug, Clone, PartialEq, Eq)]
pub struct CommitSpec {
    pub subject: String,
    pub body: String,
    pub amend: bool,
}

/// What a [`CommitSpec`] holds, with every text as the sequence of its characters.
pub struct CommitSpecView {
    pub subject: Seq<char>,
    pub body: Seq<char>,
    pub amend: bool,
}

impl View for CommitSpec {
    type V = CommitSpecView;

    open spec fn view(&self) -> CommitSpecView {
        CommitSpecView { subject: self.subject@, body: self.body@, amend: self.amend }
    }
}

/// A subprocess failed; `stderr` is what it said.
#[derive(Debug, Clone, PartialEq, Eq)]
pub struct ProcessError {
    pub tool: String,
    pub stderr: String,
}

/// What a [`ProcessError`] holds, with every text as the sequence of its characters.
pub struct ProcessErrorView {
    pub tool: Seq<char>,
    pub stderr: Seq<char>,
}

impl View for ProcessError {
    type V = ProcessErrorView;

    open spec fn view(&self) -> ProcessErrorView {
        ProcessErrorView { tool: self.tool@, stderr: self.stderr@ }
    }
}

impl ProcessErrorView {
    /// A failure of the version-control tool.
    pub open spec fn git(stderr: Seq<char>) -> ProcessErrorView {
        ProcessErrorView { tool: GIT@, stderr }
    }
}

impl ProcessError {
    /// A failure of the version-control tool.
    pub fn git(stderr: String) -> (error: ProcessError)
        ensures
            error@ == ProcessErrorView::git(stderr@),
    {
        ProcessError { tool: String::from_str(GIT), stderr }
    }
}

fn push_word(words: &mut Vec<String>, word: &str)
    ensures
        texts_view(final(words)@) == texts_view(old(words)@).push(word@),
{
    words.push(String::from_str(word));
}

/// The arguments of the commit action: subject and body are two separate
/// message parts, and the amend flag stands before them where it is set.
pub open spec fn commit_arguments(spec: CommitSpecView) -> Seq<Seq<char>> {
    if spec.amend {
        seq!["commit"@, "--amend"@, "-m"@, spec.subject, "-m"@, spec.body]
    } else {
        seq!["commit"@, "-m"@, spec.subject, "-m"@, spec.body]
    }
}

/// The arguments of the query whether the working directory lies inside a
/// work tree.
pub open spec fn work_tree_arguments() -> Seq<Seq<char>> {
    seq!["rev-parse"@, "--is-inside-work-tree"@]
}

/// The arguments of the short status listing, with or without the files
/// that are not tracked.
pub open spec fn status_arguments(untracked: bool) -> Seq<Seq<char>> {
    seq![
        "status"@,
        "-s"@,
        if untracked {
            "--untracked-files=all"@
        } else {
            "--untracked-files=no"@
        },
    ]
}

/// The arguments that stage every change.
pub open spec fn stage_arguments() -> Seq<Seq<char>> {
    seq!["add"@, "."@]
}

/// The arguments of the query for names and statuses of all changed files.
pub open spec fn summary_arguments(source: DiffSource) -> Seq<Seq<char>> {
    match source {
        DiffSource::Staged => seq!["diff"@, "--cached"@, "--name-status"@],
        DiffSource::LastCommit => seq!["show"@, "--pretty=format:"@, "--name-status"@, "HEAD"@],
    }
}

/// The arguments of the query for the full diff of the added and modified
/// files; deleted files are left out of it.
pub open spec fn detail_arguments(source: DiffSource) -> Seq<Seq<char>> {
    match source {
        DiffSource::Staged => seq!["diff"@, "--cached"@, "--diff-filter=AM"@],
        DiffSource::LastCommit => seq!["show"@, "--pretty=format:"@, "--diff-filter=AM"@, "HEAD"@],
    }
}

impl CommitSpec {
    /// The arguments with which the version-control tool makes this commit.
    pub fn arguments(&self) -> (words: Vec<String>)
        ensures
            texts_view(words@) == commit_arguments(self@),
    {
        let mut words: Vec<String> = Vec::new();
        push_word(&mut words, "commit");
        if self.amend {
            push_word(&mut words, "--amend");
        }
        push_word(&mut words, "-m");
        push_word(&mut words, self.subject.as_str());
        push_word(&mut words, "-m");
        push_word(&mut words, self.body.as_str());
        words
    }
}

/// Writes the query whether the working directory lies inside a work tree.
pub fn work_tree_query() -> (words: Vec<String>)
    ensures
        texts_view(words@) == work_tree_arguments(),
{
    let mut words: Vec<String> = Vec::new();
    push_word(&mut words, "rev-parse");
    push_word(&mut words, "--is-inside-work-tree");
    words
}

/// Writes the query for the short status listing.
pub fn status_query(untracked: bool) -> (words: Vec<String>)
    ensures
        texts_view(words@) == status_arguments(untracked),
{
    let mut words: Vec<String> = Vec::new();
    push_word(&mut words, "status");
    push_word(&mut words, "-s");
    if untracked {
        push_word(&mut words, "--untracked-files=all");
    } else {
        push_word(&mut words, "--untracked-files=no");
    }
    words
}

/// Writes the command that stages every change.
pub fn stage_command() -> (words: Vec<String>)
    ensures
        texts_view(words@) == stage_arguments(),
{
    let mut words: Vec<String> = Vec::new();
    push_word(&mut words, "add");
    push_word(&mut words, ".");
    words
}

/// Writes the query for names and statuses of all changed files.
pub fn summary_query(source: DiffSource) -> (words: Vec<String>)
    ensures
        texts_view(words@) == summary_arguments(source),
{
    let mut words: Vec<String> = Vec::new();
    match source {
        DiffSource::Staged => {
            push_word(&mut words, "diff");
            push_word(&mut words, "--cached");
            push_word(&mut words, "--name-status");
        },
        DiffSource::LastCommit => {
            push_word(&mut words, "show");
            push_word(&mut words, "--pretty=format:");
            push_word(&mut words, "--name-status");
            push_word(&mut words, "HEAD");
        },
    }
    words
}

/// Writes the query for the full diff of the added and modified files.
pub fn detail_query(source: DiffSource) -> (words: Vec<String>)
    ensures
        texts_view(words@) == detail_arguments(source),
{
    let mut words: Vec<String> = Vec::new();
    match source {
        DiffSource::Staged => {
            push_word(&mut words, "diff");
            push_word(&mut words, "--cached");
            push_word(&mut words, "--diff-filter=AM");
        },
        DiffSource::LastCommit => {
            push_word(&mut words, "show");
            push_word(&mut words, "--pretty=format:");
            push_word(&mut words, "--diff-filter=AM");
            push_word(&mut words, "HEAD");
        },
    }
    words
}

/// What the run of the commit action means: success, or a failure that
/// carries what the tool said.
pub fn commit_result(succeeded: bool, stderr: String) -> (result: Result<(), ProcessError>)
    ensures
        succeeded ==> result is Ok,
        !succeeded ==> result is Err && result->Err_0@ == ProcessErrorView::git(stderr@),
{
    if succeeded {
        Ok(())
    } else {
        Err(ProcessError::git(stderr))
    }
}

} // verus!
