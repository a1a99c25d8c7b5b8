use gim::cli::ai_configer::ConfigMissing;
use gim::cli::changes::{DiffSource, SizeExceeded};
use gim::cli::commit::{CommitSpec, ProcessError};
use gim::cli::outcome::{exit_code, ExitOutcome, Failure, Report};
use gim::cli::pipeline::{step, Action, CommitOptions, Event, Pipeline, Stage};
use gim::cli::http::{
    ChatError, ChatReply, Choice, Message, ReplyBody, Request, Response,
};
use gim::cli::prompt::PromptKind;
use gim::config::{AiConfig, Settings, UserConfig};

fn options() -> CommitOptions {
    CommitOptions {
        title: None,
        auto_add: false,
        amend: false,
        verbose: false,
    }
}

fn settings(limit: Option<usize>, language: &str) -> Settings {
    Settings {
        ai: Some(AiConfig {
            model: Some("gpt-4o".to_string()),
            apikey: Some("sk-test".to_string()),
            url: Some(String::new()),
            language: Some(language.to_string()),
        }),
        update: None,
        user: limit.map(|lines_limit| UserConfig {
            lines_limit: Some(lines_limit),
        }),
    }
}

fn answered(content: &str) -> Event {
    Event::ChatReplied(ChatReply::Answered {
        status: 200,
        body: ReplyBody::Read(Response {
            choices: Some(vec![Choice {
                message: Message {
                    role: "assistant".to_string(),
                    content: content.to_string(),
                },
                finish_reason: "stop".to_string(),
            }]),
            error: None,
        }),
    })
}

fn fifty_lines() -> Event {
    // 3 lines of names, 2 of heading, 44 of diff, 1 empty line
    Event::DiffRead {
        summary: "M\tsrc/main.rs\n".to_string(),
        detail: "+x\n".repeat(44),
    }
}

fn fifty_line_text() -> String {
    format!(
        "When I use `git diff`, I got the following output: \nM\tsrc/main.rs\n\n\nDetailed changes for added/modified files (excluding deleted files):\n{}\n",
        "+x\n".repeat(44)
    )
}

fn up_to_the_diff(pipeline: &mut Pipeline, status: &str) -> Action {
    assert_eq!(pipeline.advance(Event::Started), Action::CheckWorkTree);
    let untracked = pipeline.options.auto_add;
    assert_eq!(
        pipeline.advance(Event::WorkTreeChecked(true)),
        Action::ListChanges { untracked }
    );
    pipeline.advance(Event::ChangesListed(status.to_string()))
}

#[test]
fn run_from_changes_to_commit() {
    let mut pipeline = Pipeline::new(options(), settings(Some(1000), "English"));
    assert_eq!(pipeline.outcome(), None);
    assert_eq!(
        up_to_the_diff(&mut pipeline, "M  src/main.rs\n"),
        Action::ReadDiff(DiffSource::Staged)
    );
    assert_eq!(
        pipeline.advance(fifty_lines()),
        Action::LoadPrompt(PromptKind::Diff)
    );

    let first = pipeline.advance(Event::PromptLoaded("summarise".to_string()));
    let call = match first {
        Action::Chat(call) => call,
        other => panic!("expected a chat, got {:?}", other),
    };
    assert_eq!(call.endpoint, "https://api.openai.com/v1/chat/completions");
    assert_eq!(call.authorization, "Bearer sk-test");
    assert!(!call.log_info);
    assert_eq!(
        call.request,
        Request::ask(
            "gpt-4o".to_string(),
            Some("summarise".to_string()),
            fifty_line_text()
        )
    );

    assert_eq!(
        pipeline.advance(answered("fix: null check")),
        Action::LoadPrompt(PromptKind::Subject)
    );
    let second = pipeline.advance(Event::PromptLoaded("one subject".to_string()));
    let call = match second {
        Action::Chat(call) => call,
        other => panic!("expected a chat, got {:?}", other),
    };
    assert_eq!(
        call.request,
        Request::ask(
            "gpt-4o".to_string(),
            Some("one subject".to_string()),
            "The changes are: \nfix: null check".to_string()
        )
    );

    assert_eq!(
        pipeline.advance(answered("fix: add null check")),
        Action::Commit(CommitSpec {
            subject: "fix: add null check".to_string(),
            body: "fix: null check".to_string(),
            amend: false,
        })
    );
    assert_eq!(pipeline.outcome(), None);
    assert_eq!(
        pipeline.advance(Event::Committed),
        Action::Finish(Report {
            outcome: ExitOutcome::Committed,
            failure: None,
            staged: false,
        })
    );
    assert_eq!(pipeline.outcome(), Some(ExitOutcome::Committed));
}

#[test]
fn failed_first_chat_aborts_before_any_commit() {
    let mut pipeline = Pipeline::new(options(), settings(Some(1000), "English"));
    up_to_the_diff(&mut pipeline, "M  src/main.rs\n");
    pipeline.advance(fifty_lines());
    let chat = pipeline.advance(Event::PromptLoaded("summarise".to_string()));
    assert!(matches!(chat, Action::Chat(_)));
    let end = pipeline.advance(Event::ChatReplied(ChatReply::Answered {
        status: 500,
        body: ReplyBody::Unreadable("Internal Server Error".to_string()),
    }));
    assert_eq!(
        end,
        Action::Finish(Report {
            outcome: ExitOutcome::AbortedChatError,
            failure: Some(Failure::Chat(ChatError::RequestFailed(500))),
            staged: false,
        })
    );
    assert_eq!(pipeline.outcome(), Some(ExitOutcome::AbortedChatError));
    // whatever comes now, the run stays over and nothing is committed
    for event in [
        Event::Committed,
        answered("fix: add null check"),
        Event::PromptLoaded("x".to_string()),
        Event::Started,
    ] {
        assert_eq!(
            pipeline.advance(event),
            Action::Finish(Report {
                outcome: ExitOutcome::AbortedChatError,
                failure: None,
                staged: false,
            })
        );
    }
}

#[test]
fn failed_second_chat_aborts_too() {
    let mut pipeline = Pipeline::new(options(), settings(None, "English"));
    up_to_the_diff(&mut pipeline, "M  src/main.rs\n");
    pipeline.advance(fifty_lines());
    pipeline.advance(Event::PromptLoaded("summarise".to_string()));
    pipeline.advance(answered("fix: null check"));
    pipeline.advance(Event::PromptLoaded("one subject".to_string()));
    let end = pipeline.advance(Event::ChatReplied(ChatReply::Unreachable(
        "connection reset".to_string(),
    )));
    assert_eq!(
        end,
        Action::Finish(Report {
            outcome: ExitOutcome::AbortedChatError,
            failure: Some(Failure::Chat(ChatError::Transport(
                "connection reset".to_string()
            ))),
            staged: false,
        })
    );
}

#[test]
fn oversized_description_is_never_sent() {
    let mut pipeline = Pipeline::new(options(), settings(Some(49), "English"));
    up_to_the_diff(&mut pipeline, "M  src/main.rs\n");
    let end = pipeline.advance(fifty_lines());
    assert_eq!(
        end,
        Action::Finish(Report {
            outcome: ExitOutcome::AbortedSizeExceeded,
            failure: Some(Failure::SizeExceeded(SizeExceeded {
                lines: 50,
                limit: 49
            })),
            staged: false,
        })
    );
    let after = pipeline.advance(Event::PromptLoaded("summarise".to_string()));
    assert!(matches!(after, Action::Finish(_)));
    assert_eq!(pipeline.outcome(), Some(ExitOutcome::AbortedSizeExceeded));
}

#[test]
fn description_at_the_ceiling_is_sent() {
    let mut pipeline = Pipeline::new(options(), settings(Some(50), "English"));
    up_to_the_diff(&mut pipeline, "M  src/main.rs\n");
    assert_eq!(
        pipeline.advance(fifty_lines()),
        Action::LoadPrompt(PromptKind::Diff)
    );
}

#[test]
fn built_in_ceiling_is_a_thousand_lines() {
    let mut pipeline = Pipeline::new(options(), settings(None, "English"));
    up_to_the_diff(&mut pipeline, "M  src/main.rs\n");
    let end = pipeline.advance(Event::DiffRead {
        summary: "M\tsrc/main.rs\n".to_string(),
        detail: "+x\n".repeat(995),
    });
    assert_eq!(
        end,
        Action::Finish(Report {
            outcome: ExitOutcome::AbortedSizeExceeded,
            failure: Some(Failure::SizeExceeded(SizeExceeded {
                lines: 1001,
                limit: 1000
            })),
            staged: false,
        })
    );
}

#[test]
fn staging_is_reported_on_an_abort() {
    let mut chosen = options();
    chosen.auto_add = true;
    let mut pipeline = Pipeline::new(chosen, settings(Some(10), "English"));
    assert_eq!(pipeline.advance(Event::Started), Action::CheckWorkTree);
    assert_eq!(
        pipeline.advance(Event::WorkTreeChecked(true)),
        Action::ListChanges { untracked: true }
    );
    assert_eq!(
        pipeline.advance(Event::ChangesListed("?? new.rs\n".to_string())),
        Action::StageAll
    );
    assert_eq!(
        pipeline.advance(Event::ChangesStaged),
        Action::ReadDiff(DiffSource::Staged)
    );
    let end = pipeline.advance(fifty_lines());
    assert_eq!(
        end,
        Action::Finish(Report {
            outcome: ExitOutcome::AbortedSizeExceeded,
            failure: Some(Failure::SizeExceeded(SizeExceeded {
                lines: 50,
                limit: 10
            })),
            staged: true,
        })
    );
}

#[test]
fn nothing_changed_is_a_clean_skip() {
    let mut pipeline = Pipeline::new(options(), settings(None, "English"));
    let end = up_to_the_diff(&mut pipeline, "");
    assert_eq!(
        end,
        Action::Finish(Report {
            outcome: ExitOutcome::SkippedNoChanges,
            failure: None,
            staged: false,
        })
    );
    assert_eq!(exit_code(ExitOutcome::SkippedNoChanges), 0);
}

#[test]
fn nothing_staged_is_a_clean_skip() {
    let mut pipeline = Pipeline::new(options(), settings(None, "English"));
    assert_eq!(
        up_to_the_diff(&mut pipeline, " M src/main.rs\n"),
        Action::ReadDiff(DiffSource::Staged)
    );
    let end = pipeline.advance(Event::DiffRead {
        summary: String::new(),
        detail: String::new(),
    });
    assert_eq!(
        end,
        Action::Finish(Report {
            outcome: ExitOutcome::SkippedNoChanges,
            failure: None,
            staged: false,
        })
    );
}

#[test]
fn amend_reads_the_last_commit_and_amends() {
    let mut chosen = options();
    chosen.amend = true;
    chosen.title = Some("docs: reword".to_string());
    let mut pipeline = Pipeline::new(chosen, settings(None, "German"));
    assert_eq!(
        up_to_the_diff(&mut pipeline, ""),
        Action::ReadDiff(DiffSource::LastCommit)
    );
    assert_eq!(
        pipeline.advance(Event::DiffRead {
            summary: "M\tREADME.md".to_string(),
            detail: String::new(),
        }),
        Action::LoadPrompt(PromptKind::Diff)
    );
    let chat = pipeline.advance(Event::PromptLoaded("summarise".to_string()));
    let call = match chat {
        Action::Chat(call) => call,
        other => panic!("expected a chat, got {:?}", other),
    };
    assert_eq!(
        call.request.messages[0].content,
        "As I want to amend commit message, I use `git show` and got the following output: \nM\tREADME.md\n\n The answer should be in German language. If you cannot recognize this language, use English instead."
    );
    // the user gave the subject: no second chat
    assert_eq!(
        pipeline.advance(answered("README.md: Reword intro (3)")),
        Action::Commit(CommitSpec {
            subject: "docs: reword".to_string(),
            body: "README.md: Reword intro (3)".to_string(),
            amend: true,
        })
    );
}

#[test]
fn missing_configuration_aborts() {
    let mut broken = settings(None, "English");
    broken.ai = None;
    let mut pipeline = Pipeline::new(options(), broken);
    up_to_the_diff(&mut pipeline, "M  a.rs\n");
    assert_eq!(
        pipeline.advance(fifty_lines()),
        Action::Finish(Report {
            outcome: ExitOutcome::AbortedConfigMissing,
            failure: Some(Failure::ConfigMissing(ConfigMissing::Section)),
            staged: false,
        })
    );

    let mut broken = settings(None, "English");
    broken.ai.as_mut().unwrap().apikey = None;
    let mut pipeline = Pipeline::new(options(), broken);
    up_to_the_diff(&mut pipeline, "M  a.rs\n");
    assert_eq!(
        pipeline.advance(fifty_lines()),
        Action::Finish(Report {
            outcome: ExitOutcome::AbortedConfigMissing,
            failure: Some(Failure::ConfigMissing(ConfigMissing::ApiKey)),
            staged: false,
        })
    );
}

#[test]
fn model_without_address_is_a_matter_of_configuration() {
    let mut unknown = settings(None, "English");
    unknown.ai.as_mut().unwrap().model = Some("llama-3".to_string());
    let mut pipeline = Pipeline::new(options(), unknown);
    up_to_the_diff(&mut pipeline, "M  a.rs\n");
    pipeline.advance(fifty_lines());
    assert_eq!(
        pipeline.advance(Event::PromptLoaded("summarise".to_string())),
        Action::Finish(Report {
            outcome: ExitOutcome::AbortedConfigMissing,
            failure: Some(Failure::Chat(ChatError::ProviderUnresolved)),
            staged: false,
        })
    );
}

#[test]
fn empty_prompt_is_refused() {
    let mut pipeline = Pipeline::new(options(), settings(None, "English"));
    up_to_the_diff(&mut pipeline, "M  a.rs\n");
    pipeline.advance(fifty_lines());
    assert_eq!(
        pipeline.advance(Event::PromptLoaded(String::new())),
        Action::Finish(Report {
            outcome: ExitOutcome::AbortedChatError,
            failure: Some(Failure::Chat(ChatError::InvalidMessage)),
            staged: false,
        })
    );
}

#[test]
fn outside_a_work_tree_nothing_is_done() {
    let mut pipeline = Pipeline::new(options(), settings(None, "English"));
    pipeline.advance(Event::Started);
    assert_eq!(
        pipeline.advance(Event::WorkTreeChecked(false)),
        Action::Finish(Report {
            outcome: ExitOutcome::AbortedProcessError,
            failure: Some(Failure::Process(ProcessError {
                tool: "git".to_string(),
                stderr: "should run in a git repository".to_string(),
            })),
            staged: false,
        })
    );
}

#[test]
fn failed_commit_carries_what_the_tool_said() {
    let (next, action) = step(
        &options(),
        &settings(None, "English"),
        Stage::Committing { staged: true },
        Event::ProcessFailed("nothing to commit".to_string()),
    );
    assert_eq!(next, Stage::Finished(ExitOutcome::AbortedProcessError));
    assert_eq!(
        action,
        Action::Finish(Report {
            outcome: ExitOutcome::AbortedProcessError,
            failure: Some(Failure::Process(ProcessError {
                tool: "git".to_string(),
                stderr: "nothing to commit".to_string(),
            })),
            staged: true,
        })
    );
}

#[test]
fn event_out_of_order_ends_the_run() {
    let (next, action) = step(
        &options(),
        &settings(None, "English"),
        Stage::Ready,
        Event::Committed,
    );
    assert_eq!(next, Stage::Finished(ExitOutcome::AbortedProcessError));
    assert_eq!(
        action,
        Action::Finish(Report {
            outcome: ExitOutcome::AbortedProcessError,
            failure: Some(Failure::OutOfOrder),
            staged: false,
        })
    );
}

#[test]
fn exit_codes() {
    assert_eq!(exit_code(ExitOutcome::Committed), 0);
    assert_eq!(exit_code(ExitOutcome::SkippedNoChanges), 0);
    assert_eq!(exit_code(ExitOutcome::AbortedSizeExceeded), 1);
    assert_eq!(exit_code(ExitOutcome::AbortedConfigMissing), 1);
    assert_eq!(exit_code(ExitOutcome::AbortedChatError), 1);
    assert_eq!(exit_code(ExitOutcome::AbortedProcessError), 1);
}

#[test]
fn report_lines() {
    let report = Report {
        outcome: ExitOutcome::AbortedChatError,
        failure: Some(Failure::Chat(ChatError::RequestFailed(500))),
        staged: true,
    };
    assert_eq!(
        report.lines(),
        vec![
            "Error: ai request failed: 500",
            "Noted: your changes are added to git staged area"
        ]
    );
    let report = Report {
        outcome: ExitOutcome::Committed,
        failure: None,
        staged: true,
    };
    assert_eq!(
        report.lines(),
        vec!["Successfully committed changes! If you were discontent with the commit message and want to polish or revise it, run 'gim -p' or 'git commit --amend'"]
    );
    let report = Report {
        outcome: ExitOutcome::SkippedNoChanges,
        failure: None,
        staged: false,
    };
    assert_eq!(
        report.lines(),
        vec!["No changes found. To override last commit message, please use '-p' option"]
    );
    let report = Report {
        outcome: ExitOutcome::AbortedConfigMissing,
        failure: Some(Failure::ConfigMissing(ConfigMissing::Url)),
        staged: false,
    };
    assert_eq!(report.lines(), vec!["Error: Missing 'url' in AI config"]);
    let report = Report {
        outcome: ExitOutcome::AbortedProcessError,
        failure: Some(Failure::Process(ProcessError {
            tool: "git".to_string(),
            stderr: "fatal: bad object".to_string(),
        })),
        staged: false,
    };
    assert_eq!(
        report.lines(),
        vec!["Error: Failed to run git - fatal: bad object"]
    );
}
