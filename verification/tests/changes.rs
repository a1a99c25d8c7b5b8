use gim::cli::changes::{collect, describe, parse_changes, Change, DiffSource, SizeExceeded};
use gim::cli::commit::{
    commit_result, detail_query, stage_command, status_query, summary_query, work_tree_query,
    CommitSpec, ProcessError,
};

fn change(status: &str, path: &str) -> Change {
    Change {
        status: status.to_string(),
        path: path.to_string(),
    }
}

#[test]
fn status_listing_is_read_line_by_line() {
    let changes = parse_changes(" M src/main.rs\nA  src/lib.rs\n?? notes.txt\nD  old.rs\n");
    assert_eq!(
        changes,
        vec![
            change(" M", "src/main.rs"),
            change("A ", "src/lib.rs"),
            change("??", "notes.txt"),
            change("D ", "old.rs"),
        ]
    );
    assert_eq!(parse_changes(""), Vec::<Change>::new());
}

#[test]
fn short_lines_of_a_listing() {
    assert_eq!(parse_changes("M"), vec![change("M", "")]);
    assert_eq!(parse_changes("MM"), vec![change("MM", "")]);
    assert_eq!(parse_changes("MM "), vec![change("MM", "")]);
    assert_eq!(parse_changes("MM x"), vec![change("MM", "x")]);
    assert_eq!(parse_changes("\n"), vec![change("", "")]);
}

#[test]
fn unstaged_and_untracked_changes_are_ignored_unless_everything_is_added() {
    assert!(change(" M", "a").is_ignored(false));
    assert!(change("??", "a").is_ignored(false));
    assert!(!change("M ", "a").is_ignored(false));
    assert!(!change("A ", "a").is_ignored(false));
    assert!(!change("", "a").is_ignored(false));
    assert!(!change(" M", "a").is_ignored(true));
    assert!(!change("??", "a").is_ignored(true));
}

#[test]
fn description_of_what_is_staged() {
    assert_eq!(
        describe(DiffSource::Staged, "M\tsrc/main.rs\n", "diff --git a b\n+x\n"),
        "When I use `git diff`, I got the following output: \nM\tsrc/main.rs\n\n\nDetailed changes for added/modified files (excluding deleted files):\ndiff --git a b\n+x\n\n"
    );
    assert_eq!(
        describe(DiffSource::Staged, "D\told.rs\n", ""),
        "When I use `git diff`, I got the following output: \nD\told.rs\n\n"
    );
    assert_eq!(describe(DiffSource::Staged, "", "diff"), "");
}

#[test]
fn description_of_the_last_commit() {
    assert_eq!(
        describe(DiffSource::LastCommit, "M\ta.rs", "diff"),
        "As I want to amend commit message, I use `git show` and got the following output: \nM\ta.rs\n\nDetailed changes for added/modified files in last commit (excluding deleted files):\ndiff\n"
    );
    assert_eq!(
        describe(DiffSource::LastCommit, "", ""),
        "As I want to amend commit message, I use `git show` and got the following output: \n\n"
    );
}

#[test]
fn collect_builds_the_change_set() {
    let set = collect("M  a.rs\n", false, "M\ta.rs\n", "diff\n", 1000).unwrap();
    assert_eq!(set.changes(), &vec![change("M ", "a.rs")]);
    assert_eq!(
        set.diff(),
        "When I use `git diff`, I got the following output: \nM\ta.rs\n\n\nDetailed changes for added/modified files (excluding deleted files):\ndiff\n\n"
    );
    assert_eq!(set.lines(), 7);
    assert!(!set.is_empty());
}

#[test]
fn nothing_listed_and_nothing_to_amend_is_empty() {
    let set = collect("", false, "M\ta.rs\n", "diff\n", 0).unwrap();
    assert!(set.is_empty());
    assert_eq!(set.lines(), 0);
    assert!(set.changes().is_empty());
    assert_eq!(set.diff(), "");
}

#[test]
fn amend_describes_the_last_commit_instead() {
    let set = collect("", true, "M\ta.rs", "diff", 1000).unwrap();
    assert!(set.changes().is_empty());
    assert!(set.diff().starts_with("As I want to amend commit message"));
    assert_eq!(set.lines(), 5);
    let set = collect("M  b.rs\n", true, "M\ta.rs", "", 1000).unwrap();
    assert_eq!(set.changes(), &vec![change("M ", "b.rs")]);
    assert_eq!(
        set.diff(),
        "As I want to amend commit message, I use `git show` and got the following output: \nM\ta.rs\n"
    );
}

#[test]
fn size_ceiling_is_inclusive() {
    let detail = "+x\n".repeat(44);
    // 3 lines of summary part, 2 of heading, 44 of diff, 1 empty line: 50
    let text = collect("M  a.rs\n", false, "M\ta.rs\n", &detail, 1000).unwrap();
    assert_eq!(text.lines(), 50);
    assert!(collect("M  a.rs\n", false, "M\ta.rs\n", &detail, 50).is_ok());
    assert_eq!(
        collect("M  a.rs\n", false, "M\ta.rs\n", &detail, 49),
        Err(SizeExceeded {
            lines: 50,
            limit: 49
        })
    );
    assert_eq!(
        collect("M  a.rs\n", false, "M\ta.rs\n", &detail, 0),
        Err(SizeExceeded {
            lines: 50,
            limit: 0
        })
    );
}

#[test]
fn size_exceeded_message() {
    assert_eq!(
        SizeExceeded { lines: 1200, limit: 1000 }.message(),
        "Your changed lines count (1200) exceeds the limit: 1000. \nPlease use 'git commit' to commit the changes or adjust the limit by 'gim config --change-limit <LIMIT>' and try again.\n"
    );
}

#[test]
fn commit_arguments() {
    let spec = CommitSpec {
        subject: "fix: add null check".to_string(),
        body: "fix: null check".to_string(),
        amend: false,
    };
    assert_eq!(
        spec.arguments(),
        vec!["commit", "-m", "fix: add null check", "-m", "fix: null check"]
    );
    let spec = CommitSpec {
        subject: "s".to_string(),
        body: "b".to_string(),
        amend: true,
    };
    assert_eq!(
        spec.arguments(),
        vec!["commit", "--amend", "-m", "s", "-m", "b"]
    );
}

#[test]
fn repository_queries() {
    assert_eq!(
        work_tree_query(),
        vec!["rev-parse", "--is-inside-work-tree"]
    );
    assert_eq!(
        status_query(true),
        vec!["status", "-s", "--untracked-files=all"]
    );
    assert_eq!(
        status_query(false),
        vec!["status", "-s", "--untracked-files=no"]
    );
    assert_eq!(stage_command(), vec!["add", "."]);
    assert_eq!(
        summary_query(DiffSource::Staged),
        vec!["diff", "--cached", "--name-status"]
    );
    assert_eq!(
        detail_query(DiffSource::Staged),
        vec!["diff", "--cached", "--diff-filter=AM"]
    );
    assert_eq!(
        summary_query(DiffSource::LastCommit),
        vec!["show", "--pretty=format:", "--name-status", "HEAD"]
    );
    assert_eq!(
        detail_query(DiffSource::LastCommit),
        vec!["show", "--pretty=format:", "--diff-filter=AM", "HEAD"]
    );
}

#[test]
fn commit_failure_carries_what_the_tool_said() {
    assert_eq!(commit_result(true, "ignored".to_string()), Ok(()));
    assert_eq!(
        commit_result(false, "nothing to commit".to_string()),
        Err(ProcessError {
            tool: "git".to_string(),
            stderr: "nothing to commit".to_string()
        })
    );
}
