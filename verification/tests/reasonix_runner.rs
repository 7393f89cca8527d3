use coagent::backend::BackendError;
use coagent::context::ContextProjection;
use coagent::reasonix::{
    answer_permission_request, build_review_prompt, closed_stdout_error, invalid_frame_error,
    is_read_only_tool, permission_response, prompt_params, reasonix_sandbox, request_frame,
    parse_acp_line, prompt_step_line, response_line, response_step, runtime_status_response, session_id_of, session_new_params, spawn_error,
    AcpFrame, PermissionAnswer, PromptAction, PromptState, ReasonixError, ReasonixRunnerStats,
    ResponseStep, ReviewRun, RunAction, RunEvent, RunPhase,
};

fn frame() -> AcpFrame {
    AcpFrame {
        has_id: false,
        id_number: None,
        has_method: false,
        method: None,
        error: None,
        session_update: None,
        has_update: false,
        text: None,
        status: None,
        tool_title: None,
        tool_kind: None,
        session_id: None,
    }
}

fn update(kind: &str) -> AcpFrame {
    AcpFrame {
        has_method: true,
        method: Some("session/update".into()),
        has_update: true,
        session_update: Some(kind.into()),
        ..frame()
    }
}

#[test]
fn errors_decide_session_drop_and_retry() {
    let io = ReasonixError::Io("broken pipe".into());
    let protocol = ReasonixError::Protocol("ACP process closed stdout".into());
    let timeout = ReasonixError::Timeout("ACP prompt timed out".into());
    let spawn = ReasonixError::Spawn("missing".into());
    let loop_error = ReasonixError::Protocol(
        "max observed tool calls (5) exceeded: 5 tool_call events before review JSON".into(),
    );
    assert!(io.should_drop_session() && io.is_retryable());
    assert!(protocol.should_drop_session() && protocol.is_retryable());
    assert!(timeout.should_drop_session() && !timeout.is_retryable());
    assert!(!spawn.should_drop_session() && !spawn.is_retryable());
    assert!(loop_error.should_drop_session() && !loop_error.is_retryable());
    assert_eq!(timeout.message(), "timeout: ACP prompt timed out");
    assert!(matches!(timeout.to_backend_error(), BackendError::Timeout));
    assert!(matches!(spawn.to_backend_error(), BackendError::Unavailable(m) if m == "missing"));
    assert!(matches!(io.to_backend_error(), BackendError::Unavailable(_)));
    assert!(matches!(protocol.to_backend_error(), BackendError::Protocol(_)));
    assert_eq!(closed_stdout_error().message(), "protocol: ACP process closed stdout");
}

#[test]
fn reasonix_spawn_error_mentions_path_configuration() {
    let error = spawn_error("/missing/reasonix", true, "No such file or directory");
    let message = error.message();
    assert!(matches!(error, ReasonixError::Spawn(_)));
    assert!(message.contains("Reasonix CLI not found"));
    assert!(message.contains("COAGENT_REASONIX_PATH"));
    assert!(message.contains("PATH"));
    let other = spawn_error("reasonix", false, "denied");
    assert!(other.message().contains("failed to start Reasonix CLI 'reasonix'"));
}

#[test]
fn run_reuses_a_held_session() {
    let mut run = ReviewRun::new(ReasonixRunnerStats::default());
    assert_eq!(run.step(RunEvent::Begin(true)), RunAction::SendPrompt);
    assert_eq!(run.step(RunEvent::PromptSucceeded), RunAction::ReturnReview);
    assert_eq!(run.phase, RunPhase::Done);
    assert_eq!(run.stats.prompt_count, 1);
    assert_eq!(run.stats.session_created_count, 0);
}

#[test]
fn run_reconnects_and_retries_after_protocol_eof() {
    let mut run = ReviewRun::new(ReasonixRunnerStats::default());
    assert_eq!(run.step(RunEvent::Begin(false)), RunAction::Connect);
    assert_eq!(run.step(RunEvent::Connected), RunAction::SendPrompt);
    let action = run.step(RunEvent::PromptFailed(closed_stdout_error()));
    assert_eq!(action, RunAction::DropAndReconnect);
    assert_eq!(run.step(RunEvent::Connected), RunAction::SendPrompt);
    assert_eq!(run.step(RunEvent::PromptSucceeded), RunAction::ReturnReview);
    let stats = run.stats;
    assert!(stats.has_session);
    assert_eq!(stats.session_created_count, 2);
    assert_eq!(stats.prompt_count, 2);
    assert_eq!(stats.reconnect_count, 1);
    assert_eq!(stats.timeout_count, 0);
    assert_eq!(stats.protocol_error_count, 1);
    assert!(stats
        .last_error
        .as_deref()
        .is_some_and(|e| e.contains("ACP process closed stdout")));
}

#[test]
fn run_drops_timed_out_session_without_retry() {
    let mut run = ReviewRun::new(ReasonixRunnerStats::default());
    run.step(RunEvent::Begin(false));
    run.step(RunEvent::Connected);
    let timeout = ReasonixError::Timeout("ACP prompt timed out".into());
    assert_eq!(
        run.step(RunEvent::PromptFailed(timeout.clone())),
        RunAction::DropAndFail(timeout)
    );
    let stats = run.stats;
    assert!(!stats.has_session);
    assert_eq!(stats.session_created_count, 1);
    assert_eq!(stats.prompt_count, 1);
    assert_eq!(stats.reconnect_count, 0);
    assert_eq!(stats.timeout_count, 1);
    assert!(stats
        .last_error
        .as_deref()
        .is_some_and(|e| e.contains("ACP prompt timed out")));
}

#[test]
fn run_reports_recovery_failure_and_spawn_errors() {
    let mut run = ReviewRun::new(ReasonixRunnerStats::default());
    run.step(RunEvent::Begin(true));
    run.step(RunEvent::PromptFailed(ReasonixError::Io("eof".into())));
    let action = run.step(RunEvent::ConnectFailed(ReasonixError::Spawn("gone".into())));
    assert_eq!(
        action,
        RunAction::Fail(ReasonixError::Protocol(
            "session recovery failed after I/O: eof: spawn: gone".into()
        ))
    );
    assert_eq!(run.stats.spawn_error_count, 1);
    assert_eq!(run.stats.io_error_count, 1);

    let mut first = ReviewRun::new(ReasonixRunnerStats::default());
    first.step(RunEvent::Begin(false));
    let spawn = spawn_error("reasonix", true, "missing");
    assert_eq!(
        first.step(RunEvent::ConnectFailed(spawn.clone())),
        RunAction::Fail(spawn)
    );
    assert!(!first.stats.has_session);
    assert_eq!(first.stats.session_created_count, 0);
    assert_eq!(first.stats.prompt_count, 0);
    assert_eq!(first.stats.spawn_error_count, 1);
}

#[test]
fn prompt_collects_chunks_until_its_response() {
    let mut stats = ReasonixRunnerStats::default();
    let mut state = PromptState::new();
    let mut chunk = update("agent_message_chunk");
    chunk.text = Some("{\"verdict\":".into());
    assert_eq!(state.step(&mut stats, &chunk, 3, false), PromptAction::Continue);
    chunk.text = Some("\"pass\"}".into());
    assert_eq!(state.step(&mut stats, &chunk, 3, false), PromptAction::Continue);
    assert_eq!(state.collected, "{\"verdict\":\"pass\"}");
    let done = AcpFrame {
        has_id: true,
        id_number: Some(3),
        ..frame()
    };
    assert_eq!(state.step(&mut stats, &done, 3, false), PromptAction::ParseCollected);
    let failed = AcpFrame {
        has_id: true,
        id_number: Some(3),
        error: Some(None),
        ..frame()
    };
    assert_eq!(
        state.step(&mut stats, &failed, 3, false),
        PromptAction::Fail(ReasonixError::Protocol("unknown error".into()))
    );
}

#[test]
fn prompt_fails_after_five_tool_calls() {
    let mut stats = ReasonixRunnerStats::default();
    let mut state = PromptState::new();
    let call = update("tool_call");
    for _ in 0..4 {
        assert_eq!(state.step(&mut stats, &call, 3, false), PromptAction::Continue);
    }
    let action = state.step(&mut stats, &call, 3, false);
    match action {
        PromptAction::Fail(error) => {
            assert!(error.message().contains("max observed tool calls"));
            assert_eq!(
                error,
                ReasonixError::Protocol(
                    "max observed tool calls (5) exceeded: 5 tool_call events before review JSON"
                        .into()
                )
            );
        }
        other => panic!("unexpected {other:?}"),
    }
    assert_eq!(stats.tool_call_count, 5);
    assert_eq!(stats.tool_call_update_count, 0);
}

#[test]
fn prompt_returns_complete_review_on_tool_call_and_counts_updates() {
    let mut stats = ReasonixRunnerStats::default();
    let mut state = PromptState::new();
    assert_eq!(
        state.step(&mut stats, &update("tool_call"), 3, true),
        PromptAction::ReturnCollected
    );
    assert_eq!(stats.tool_call_count, 0);
    let mut upd = update("tool_call_update");
    upd.status = Some("completed".into());
    state.step(&mut stats, &upd, 3, false);
    upd.status = Some("failed".into());
    state.step(&mut stats, &upd, 3, false);
    upd.status = None;
    state.step(&mut stats, &upd, 3, false);
    assert_eq!(stats.tool_call_update_count, 3);
    assert_eq!(stats.completed_tool_call_count, 1);
    assert_eq!(stats.failed_tool_call_count, 1);
}

#[test]
fn permission_requests_allow_only_read_only_tools() {
    let mut stats = ReasonixRunnerStats::default();
    let mut state = PromptState::new();
    let request = AcpFrame {
        has_id: true,
        id_number: Some(9),
        has_method: true,
        method: Some("session/request_permission".into()),
        tool_title: Some("read_file".into()),
        ..frame()
    };
    assert_eq!(
        state.step(&mut stats, &request, 3, false),
        PromptAction::AnswerPermission(9, PermissionAnswer::AllowOnce)
    );
    let shell = AcpFrame {
        tool_title: Some("shell".into()),
        ..request.clone()
    };
    assert_eq!(
        state.step(&mut stats, &shell, 3, false),
        PromptAction::AnswerPermission(9, PermissionAnswer::RejectOnce)
    );
    let other = AcpFrame {
        method: Some("fs/write".into()),
        ..request
    };
    assert_eq!(state.step(&mut stats, &other, 3, false), PromptAction::Continue);
    assert_eq!(stats.permission_request_count, 2);
    assert_eq!(stats.auto_allowed_permission_count, 1);
    assert_eq!(stats.auto_rejected_permission_count, 1);
    assert!(is_read_only_tool("grep", "x"));
    assert!(!is_read_only_tool("task", "read"));
    let mut direct = ReasonixRunnerStats::default();
    assert_eq!(
        answer_permission_request(&mut direct, "ls", "?"),
        PermissionAnswer::AllowOnce
    );
    assert_eq!(PermissionAnswer::RejectOnce.option_id(), "reject_once");
}

#[test]
fn response_frames_are_matched_by_id() {
    let notification = AcpFrame {
        has_method: true,
        method: Some("session/update".into()),
        ..frame()
    };
    assert_eq!(response_step("init", 1, &notification), ResponseStep::Skip);
    assert_eq!(
        response_step("init", 1, &frame()),
        ResponseStep::Reject(ReasonixError::Protocol("init: response frame missing id".into()))
    );
    let other = AcpFrame {
        has_id: true,
        id_number: Some(2),
        ..frame()
    };
    assert_eq!(
        response_step("init", 1, &other),
        ResponseStep::Reject(ReasonixError::Protocol("init: unexpected response id".into()))
    );
    let rejected = AcpFrame {
        has_id: true,
        id_number: Some(1),
        error: Some(Some("initialize rejected".into())),
        ..frame()
    };
    assert_eq!(
        response_step("Reasonix ACP initialize failed", 1, &rejected),
        ResponseStep::Reject(ReasonixError::Protocol(
            "Reasonix ACP initialize failed: initialize rejected".into()
        ))
    );
    let ok = AcpFrame {
        has_id: true,
        id_number: Some(1),
        session_id: Some("fake-session".into()),
        ..frame()
    };
    assert_eq!(response_step("x", 1, &ok), ResponseStep::Accept);
    assert_eq!(session_id_of(&ok).unwrap(), "fake-session");
    assert_eq!(
        session_id_of(&frame()).unwrap_err(),
        ReasonixError::Protocol("missing sessionId".into())
    );
    assert_eq!(
        invalid_frame_error(Some("ctx"), "eof").message(),
        "protocol: ctx: invalid frame: eof"
    );
}

#[test]
fn frames_are_written_as_compact_json() {
    assert_eq!(
        request_frame(2, "session/new", &session_new_params("/repo")),
        r#"{"id":2,"jsonrpc":"2.0","method":"session/new","params":{"cwd":"/repo"}}"#
    );
    assert_eq!(
        prompt_params("s-1", "hi \"you\""),
        r#"{"prompt":[{"text":"hi \"you\"","type":"text"}],"sessionId":"s-1"}"#
    );
    assert_eq!(
        permission_response(9, PermissionAnswer::AllowOnce),
        r#"{"id":9,"jsonrpc":"2.0","result":{"optionId":"allow_once","outcome":"selected"}}"#
    );
}

#[test]
fn reasonix_prompt_includes_full_review_context() {
    let context = ContextProjection {
        goal: "review full context".into(),
        diff_path: ".agent/diffs/current.diff".into(),
        context_path: Some(".agent/context/review.md".into()),
        test_log_path: Some(".agent/logs/test.log".into()),
        build_log_path: Some(".agent/logs/build.log".into()),
        focus: vec!["correctness".into(), "policy".into()],
        constraints: vec!["avoid new dependencies".into()],
        base_branch: Some("main".into()),
        working_branch: Some("feature/single-runner".into()),
    };
    let prompt = build_review_prompt(&context.goal, &context.diff_path, &context);
    for expected in [
        "GOAL: review full context",
        "DIFF PATH: .agent/diffs/current.diff",
        ".agent/context/review.md",
        ".agent/logs/test.log",
        ".agent/logs/build.log",
        "BASE BRANCH: main",
        "WORKING BRANCH: feature/single-runner",
        "FOCUS AREAS",
        "correctness",
        "policy",
        "CONSTRAINTS",
        "avoid new dependencies",
        "Do not call tools, tasks, commands, or external agents.",
    ] {
        assert!(prompt.contains(expected), "prompt missing {expected}");
    }
    assert!(!prompt.contains("{goal}"));
    assert!(!prompt.contains("{context_section}"));
}

#[test]
fn sandbox_allows_only_listed_variables() {
    let sandbox = reasonix_sandbox();
    assert!(sandbox.env_allowed("DEEPSEEK_API_KEY"));
    assert!(sandbox.env_allowed("PATH"));
    assert!(!sandbox.env_allowed("AWS_SECRET_ACCESS_KEY"));
    assert_eq!(sandbox.env_allowlist.len(), 10);
}

#[test]
fn runtime_status_reports_reasonix_stats_when_reasonix_is_selected() {
    let stats = ReasonixRunnerStats::default();
    let status = runtime_status_response("reasonix", "D:/repo", Some(&stats));
    assert_eq!(status.backend, "reasonix");
    assert_eq!(status.repo_root, "D:/repo");
    let reasonix = status.reasonix.expect("reasonix status");
    assert!(!reasonix.has_session);
    assert_eq!(reasonix.session_created_count, 0);
    assert_eq!(reasonix.prompt_count, 0);
    assert_eq!(reasonix.reconnect_count, 0);
    assert_eq!(reasonix.timeout_count, 0);
    assert_eq!(reasonix.last_error, None);
}

#[test]
fn runtime_status_omits_reasonix_stats_for_mock_backend() {
    let status = runtime_status_response("mock", "D:/repo", None);
    assert_eq!(status.backend, "mock");
    assert_eq!(status.repo_root, "D:/repo");
    assert!(status.reasonix.is_none());
}

#[test]
fn acp_lines_are_read_member_by_member() {
    let frame = parse_acp_line(r#"{"jsonrpc":"2.0","id":2,"result":{"sessionId":"S-1"}}"#).unwrap();
    assert!(frame.has_id);
    assert_eq!(frame.id_number, Some(2));
    assert!(!frame.has_method);
    assert_eq!(frame.error, None);
    assert_eq!(frame.session_id.as_deref(), Some("S-1"));

    let frame = parse_acp_line(
        r#"{"method":"session/update","params":{"update":{"sessionUpdate":"agent_message_chunk","content":{"text":"hi"}}}}"#,
    )
    .unwrap();
    assert!(!frame.has_id);
    assert_eq!(frame.method.as_deref(), Some("session/update"));
    assert!(frame.has_update);
    assert_eq!(frame.session_update.as_deref(), Some("agent_message_chunk"));
    assert_eq!(frame.text.as_deref(), Some("hi"));

    let frame = parse_acp_line(
        r#"{"id":"p1","method":"session/request_permission","params":{"toolCall":{"title":"read_file","kind":"read"}}}"#,
    )
    .unwrap();
    assert!(frame.has_id);
    assert_eq!(frame.id_number, None);
    assert_eq!(frame.tool_title.as_deref(), Some("read_file"));
    assert_eq!(frame.tool_kind.as_deref(), Some("read"));

    assert_eq!(parse_acp_line(r#"{"id":5,"error":{"message":"boom"}}"#).unwrap().error, Some(Some("boom".to_string())));
    assert_eq!(parse_acp_line(r#"{"id":5,"error":"boom"}"#).unwrap().error, Some(None));
    assert_eq!(parse_acp_line(r#"{"id":18446744073709551615}"#).unwrap().id_number, Some(18446744073709551615));
    assert_eq!(parse_acp_line(r#"{"id":-7}"#).unwrap().id_number, Some(-7));
    assert_eq!(parse_acp_line(r#"{"id":1.5}"#).unwrap().id_number, None);
    assert!(parse_acp_line("not json").is_err());
    assert!(parse_acp_line("{\"id\":1}\n").is_ok());
}

#[test]
fn prompt_lines_that_are_not_json_fail_the_prompt() {
    let mut stats = ReasonixRunnerStats::default();
    let mut state = PromptState::new();
    let chunk = r#"{"method":"session/update","params":{"update":{"sessionUpdate":"agent_message_chunk","content":{"text":"part"}}}}"#;
    assert_eq!(prompt_step_line(&mut state, &mut stats, chunk, 3, false), PromptAction::Continue);
    assert_eq!(state.collected, "part");
    match prompt_step_line(&mut state, &mut stats, "{oops", 3, false) {
        PromptAction::Fail(ReasonixError::Protocol(m)) => assert!(m.starts_with("invalid frame: ")),
        other => panic!("unexpected {other:?}"),
    }
    assert_eq!(state.collected, "part");
    assert_eq!(
        prompt_step_line(&mut state, &mut stats, r#"{"id":3,"result":{}}"#, 3, false),
        PromptAction::ParseCollected
    );
}

#[test]
fn prompt_ids_compare_as_signed_integers() {
    // A prompt id above i64::MAX is compared as the signed integer it wraps to.
    let mut stats = ReasonixRunnerStats::default();
    let mut state = PromptState::new();
    assert_eq!(
        prompt_step_line(&mut state, &mut stats, r#"{"id":-1,"result":{}}"#, u64::MAX, false),
        PromptAction::ParseCollected
    );
}

#[test]
fn response_lines_are_checked_against_the_request() {
    let (step, frame) = response_line("session/new", 2, r#"{"id":2,"result":{"sessionId":"S-9"}}"#);
    assert_eq!(step, ResponseStep::Accept);
    assert_eq!(frame.unwrap().session_id.as_deref(), Some("S-9"));
    let (step, _) = response_line("session/new", 2, r#"{"method":"session/update"}"#);
    assert_eq!(step, ResponseStep::Skip);
    let (step, _) = response_line("session/new", 2, r#"{"id":4,"result":{}}"#);
    assert_eq!(step, ResponseStep::Reject(ReasonixError::Protocol("session/new: unexpected response id".into())));
    let (step, frame) = response_line("session/new", 2, "garbage");
    assert!(frame.is_none());
    match step {
        ResponseStep::Reject(ReasonixError::Protocol(m)) => {
            assert!(m.starts_with("session/new: invalid frame: "))
        }
        other => panic!("unexpected {other:?}"),
    }
}
