//! The change collector: what the repository reports becomes the text that
//! is put to the model, unless it is too long.

use crate::text::{
    chars_of, count_lines, decimal, line_count, lines_of, number_text, split_lines, text_of,
};
use vstd::prelude::*;
use vstd::string::StringExecFns;

verus! {

/// One changed path with its two-letter status code.
#[derive(Debug, Clone, PartialEq, Eq)]
pub struct Change {
    pub status: String,
    pub path: String,
}

/// What a [`Change`] holds, with every text as the sequence of its characters.
pub struct ChangeView {
    pub status: Seq<char>,
    pub path: Seq<char>,
}

impl View for Change {
    type V = ChangeView;

    open spec fn view(&self) -> ChangeView {
        ChangeView { status: self.status@, path: self.path@ }
    }
}

/// The views of a list of changes, in order.
pub open spec fn changes_view(changes: Seq<Change>) -> Seq<ChangeView> {
    changes.map_values(|c: Change| c@)
}

impl ChangeView {
    /// The change that one line of a short status listing reports: the code
    /// stands in the first two columns, the path begins in the fourth.
    pub open spec fn of_line(line: Seq<char>) -> ChangeView {
        ChangeView {
            status: if line.len() < 2 {
                line
            } else {
                line.take(2)
            },
            path: if line.len() < 3 {
                Seq::empty()
            } else {
                line.skip(3)
            },
        }
    }

    /// A change that a commit will leave out: one that is not staged, or a
    /// file that is not tracked, unless everything is staged first.
    pub open spec fn ignored(self, auto_add: bool) -> bool {
        !auto_add && self.status.len() > 0 && (self.status[0] == ' ' || self.status[0] == '?')
    }
}

impl Change {
    /// Reads one line of a short status listing.
    pub fn of_line(line: &str) -> (change: Change)
        ensures
            change@ == ChangeView::of_line(line@),
    {
        let chars = chars_of(line);
        let n = chars.len();
        let status = if n < 2 {
            text_of(&chars, 0, n)
        } else {
            text_of(&chars, 0, 2)
        };
        let path = if n < 3 {
            String::new()
        } else {
            text_of(&chars, 3, n)
        };
        proof {
            assert(chars@.subrange(0, n as int) =~= chars@);
        }
        Change { status, path }
    }

    /// Whether a commit will leave this change out.
    pub fn is_ignored(&self, auto_add: bool) -> (ignored: bool)
        ensures
            ignored == self@.ignored(auto_add),
    {
        if auto_add {
            return false;
        }
        let chars = chars_of(self.status.as_str());
        chars.len() > 0 && (chars[0] == ' ' || chars[0] == '?')
    }
}

/// The changes that a short status listing reports, one for each line.
pub open spec fn listed_changes(status_output: Seq<char>) -> Seq<ChangeView> {
    lines_of(status_output).map_values(|line: Seq<char>| ChangeView::of_line(line))
}

/// Reads a short status listing.
pub fn parse_changes(status_output: &str) -> (changes: Vec<Change>)
    ensures
        changes_view(changes@) == listed_changes(status_output@),
{
    let lines = split_lines(status_output);
    let mut changes: Vec<Change> = Vec::new();
    let mut i: usize = 0;
    while i < lines.len()
        invariant
            i <= lines.len(),
            changes.len() == i,
            forall|j: int|
                0 <= j < i ==> (#[trigger] changes@[j])@ == ChangeView::of_line(lines@[j]@),
        decreases lines.len() - i,
    {
        changes.push(Change::of_line(lines[i].as_str()));
        i += 1;
    }
    changes
}

/// Where the description of the changes is taken from.
#[derive(Debug, Clone, Copy, PartialEq, Eq, Structural)]
pub enum DiffSource {
    /// What is staged for the next commit.
    Staged,
    /// What the last commit changed, for a message that replaces its own.
    LastCommit,
}

/// The sentence that opens the description.
pub open spec fn summary_heading(source: DiffSource) -> Seq<char> {
    match source {
        DiffSource::Staged => "When I use `git diff`, I got the following output: \n"@,
        DiffSource::LastCommit => "As I want to amend commit message, I use `git show` and got the following output: \n"@,
    }
}

/// The sentence that opens the full diff of the added and modified files.
pub open spec fn detail_heading(source: DiffSource) -> Seq<char> {
    match source {
        DiffSource::Staged => "\nDetailed changes for added/modified files (excluding deleted files):\n"@,
        DiffSource::LastCommit => "\nDetailed changes for added/modified files in last commit (excluding deleted files):\n"@,
    }
}

/// The full diff under its heading, or nothing where there is no diff.
pub open spec fn detail_part(source: DiffSource, detail: Seq<char>) -> Seq<char> {
    if detail.len() == 0 {
        Seq::empty()
    } else {
        detail_heading(source) + detail + seq!['\n']
    }
}

/// The description of the changes: the names and statuses of all changed
/// files, then the full diff of the added and modified ones. Of what is
/// staged there is nothing to say where no file is named.
pub open spec fn described(source: DiffSource, summary: Seq<char>, detail: Seq<char>) -> Seq<char> {
    if source == DiffSource::Staged && summary.len() == 0 {
        Seq::empty()
    } else {
        summary_heading(source) + summary + seq!['\n'] + detail_part(source, detail)
    }
}

/// Writes the description of the changes.
pub fn describe(source: DiffSource, summary: &str, detail: &str) -> (text: String)
    ensures
        text@ == described(source, summary@, detail@),
{
    let mut text = String::new();
    if source == DiffSource::Staged && summary.is_empty() {
        return text;
    }
    match source {
        DiffSource::Staged => {
            text.append("When I use `git diff`, I got the following output: \n");
        },
        DiffSource::LastCommit => {
            text.append(
                "As I want to amend commit message, I use `git show` and got the following output: \n",
            );
        },
    }
    text.append(summary);
    text.push('\n');
    if !detail.is_empty() {
        match source {
            DiffSource::Staged => {
                text.append(
                    "\nDetailed changes for added/modified files (excluding deleted files):\n",
                );
            },
            DiffSource::LastCommit => {
                text.append(
                    "\nDetailed changes for added/modified files in last commit (excluding deleted files):\n",
                );
            },
        }
        text.append(detail);
        text.push('\n');
    }
    text
}

/// The source of the description for a run.
pub open spec fn source_for(amend: bool) -> DiffSource {
    if amend {
        DiffSource::LastCommit
    } else {
        DiffSource::Staged
    }
}

/// The description for a run: that of the last commit where its message is
/// to be replaced; otherwise that of what is staged, which is empty where
/// the status listing names no change.
pub open spec fn collected_text(
    status_output: Seq<char>,
    amend: bool,
    summary: Seq<char>,
    detail: Seq<char>,
) -> Seq<char> {
    if !amend && lines_of(status_output).len() == 0 {
        Seq::empty()
    } else {
        described(source_for(amend), summary, detail)
    }
}

/// The changes of one run: the changed paths in the order in which they
/// were listed, the description put to the model, and its number of lines.
#[derive(Debug, PartialEq, Eq)]
pub struct ChangeSet {
    changes: Vec<Change>,
    diff: String,
    lines: usize,
}

/// What a [`ChangeSet`] holds, with every text as the sequence of its characters.
pub struct ChangeSetView {
    pub changes: Seq<ChangeView>,
    pub diff: Seq<char>,
    pub lines: nat,
}

impl View for ChangeSet {
    type V = ChangeSetView;

    closed spec fn view(&self) -> ChangeSetView {
        ChangeSetView {
            changes: changes_view(self.changes@),
            diff: self.diff@,
            lines: self.lines as nat,
        }
    }
}

impl ChangeSet {
    #[verifier::type_invariant]
    spec fn counted(self) -> bool {
        self.lines == line_count(self.diff@)
    }

    /// The changed paths, in the order in which they were listed.
    pub fn changes(&self) -> (changes: &Vec<Change>)
        ensures
            changes_view(changes@) == self@.changes,
    {
        &self.changes
    }

    /// The description put to the model.
    pub fn diff(&self) -> (diff: &str)
        ensures
            diff@ == self@.diff,
    {
        self.diff.as_str()
    }

    /// The number of lines of the description.
    pub fn lines(&self) -> (lines: usize)
        ensures
            lines == self@.lines,
            lines == line_count(self@.diff),
    {
        proof {
            use_type_invariant(self);
        }
        self.lines
    }

    /// Whether there is nothing to describe.
    pub fn is_empty(&self) -> (empty: bool)
        ensures
            empty == (self@.diff.len() == 0),
    {
        self.diff.as_str().is_empty()
    }
}

/// The description has more lines than the user allows to be sent.
#[derive(Debug, Clone, Copy, PartialEq, Eq)]
pub struct SizeExceeded {
    pub lines: usize,
    pub limit: usize,
}

/// Builds the change set of a run from what the repository reported: the
/// short status listing, and the names with statuses and the full diff from
/// the source that `amend` selects. A description with more lines than
/// `size_limit` is refused, and only such a one.
pub fn collect(
    status_output: &str,
    amend: bool,
    summary: &str,
    detail: &str,
    size_limit: usize,
) -> (collected: Result<ChangeSet, SizeExceeded>)
    ensures
        ({
            let text = collected_text(status_output@, amend, summary@, detail@);
            if line_count(text) > size_limit {
                collected == Err::<ChangeSet, SizeExceeded>(
                    SizeExceeded { lines: line_count(text) as usize, limit: size_limit },
                )
            } else {
                &&& collected is Ok
                &&& collected->Ok_0@ == (ChangeSetView {
                    changes: listed_changes(status_output@),
                    diff: text,
                    lines: line_count(text),
                })
            }
        }),
{
    let changes = parse_changes(status_output);
    let diff = if amend {
        describe(DiffSource::LastCommit, summary, detail)
    } else if changes.len() == 0 {
        String::new()
    } else {
        describe(DiffSource::Staged, summary, detail)
    };
    proof {
        assert(changes_view(changes@).len() == changes.len());
    }
    let lines = count_lines(diff.as_str());
    if lines > size_limit {
        Err(SizeExceeded { lines, limit: size_limit })
    } else {
        Ok(ChangeSet { changes, diff, lines })
    }
}

impl SizeExceeded {
    /// What the user is told: both numbers, and the two ways out.
    pub open spec fn message_text(self) -> Seq<char> {
        "Your changed lines count ("@ + decimal(self.lines as nat) + ") exceeds the limit: "@
            + decimal(self.limit as nat)
            + ". \nPlease use 'git commit' to commit the changes or adjust the limit by 'gim config --change-limit <LIMIT>' and try again.\n"@
    }

    /// What the user is told of this.
    pub fn message(&self) -> (text: String)
        ensures
            text@ == self.message_text(),
    {
        let mut text = String::from_str("Your changed lines count (");
        text.append(number_text(self.lines as u64).as_str());
        text.append(") exceeds the limit: ");
        text.append(number_text(self.limit as u64).as_str());
        text.append(
            ". \nPlease use 'git commit' to commit the changes or adjust the limit by 'gim config --change-limit <LIMIT>' and try again.\n",
        );
        text
    }
}

} // verus!
