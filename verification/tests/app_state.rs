use ocpncord_tui::app::{
    Action, ActiveBlockingPrompt, AppMode, AppState, BackendOp, PermissionReply, QuestionReply,
    Submission, SubmissionKind, Tab, TermLine, Toast, ToastVariant, MAX_STORED_TOASTS,
};
use ocpncord_tui::app::{raise_sequence, TerminalPane, MAX_TERMINAL_LINES};
use ocpncord_tui::chat::{LoadedMessage, PartDisplayMode, PartKind};
use ocpncord_tui::event::{Event, KeyEvent, Modifiers, Scancode};
use ocpncord_tui::transcript::render_part_with_policy;
use ocpncord_tui::model::{
    Agent, AgentMode, BackendEvent, Config, FilePart, ToolPart, ToolState, EventCursor, EventEnvelope, EventScope, Message,
    MessageRole, ModelConfig, ModelSummary, Part, PartIdentity, PermissionRequest, ProviderConfig,
    QuestionInfo, QuestionOption, QuestionRequest, ReasoningPart, Session, StepStartPart,
    SyncHistoryBatch, TextPart,
};

/// A stand-in for the server: it answers each queued operation at once.
#[derive(Default)]
struct FakeServer {
    agents: Vec<Agent>,
    sessions: Vec<Session>,
    prompt_calls: Vec<Submission>,
    command_calls: Vec<Submission>,
    fail_create_session: Option<String>,
    models: Option<Vec<ModelSummary>>,
    list_models_calls: usize,
    config: Option<Config>,
    permission_replies: Vec<PermissionReply>,
    question_replies: Vec<QuestionReply>,
    rejected_questions: Vec<String>,
    sync_history_requests: usize,
    server_url: String,
    fail_apply: bool,
}

fn session(id: &str, title: &str) -> Session {
    Session { id: id.into(), title: title.into(), directory: "/".into(), workspace_id: None }
}

fn drain(state: &mut AppState, server: &mut FakeServer) {
    loop {
        let ops = state.take_pending_ops();
        if ops.is_empty() {
            return;
        }
        for op in ops {
            match op {
                BackendOp::LoadAgents => state.apply_agent_result(Ok(server.agents.clone())),
                BackendOp::Subscribe => {}
                BackendOp::SyncHistory { .. } => {
                    server.sync_history_requests += 1;
                    state.handle_sync_history_result(Ok(SyncHistoryBatch {
                        envelopes: Vec::new(),
                        known_sequences: Vec::new(),
                    }));
                }
                BackendOp::CreateSession { title, purpose, .. } => {
                    match &server.fail_create_session {
                        Some(e) => state.handle_create_session_result(purpose, Err(e.clone())),
                        None => {
                            let s = session("mock-session-id", &title);
                            server.sessions.push(s.clone());
                            state.handle_create_session_result(purpose, Ok(s));
                        }
                    }
                }
                BackendOp::Submit { submission } => {
                    match submission.kind {
                        SubmissionKind::Prompt => server.prompt_calls.push(submission.clone()),
                        SubmissionKind::Command => server.command_calls.push(submission.clone()),
                    }
                    state.handle_submit_result(submission, Ok(()));
                }
                BackendOp::ListSessions => state.handle_list_sessions(Ok(server.sessions.clone())),
                BackendOp::LoadSession { session_id } => {
                    state.handle_load_session(Ok((session(&session_id, "Loaded"), Vec::new())))
                }
                BackendOp::DeleteSession { session_id } => {
                    server.sessions.retain(|s| s.id != session_id);
                    state.handle_delete_session(Ok(server.sessions.clone()));
                }
                BackendOp::OpenModelPicker { cached_models } => {
                    let config = server.config.clone().unwrap_or(Config {
                        model: None,
                        provider: Vec::new(),
                        agent: Vec::new(),
                    });
                    if cached_models.is_some() {
                        state.handle_open_model_picker(Ok((config, None)));
                    } else {
                        server.list_models_calls += 1;
                        match &server.models {
                            Some(models) => {
                                state.handle_open_model_picker(Ok((config, Some(models.clone()))))
                            }
                            None => state.handle_open_model_picker(Err("no model catalog stub".into())),
                        }
                    }
                }
                BackendOp::SelectModel { model } => {
                    let mut config = server.config.clone().unwrap_or(Config {
                        model: None,
                        provider: Vec::new(),
                        agent: Vec::new(),
                    });
                    config.model = Some(model.clone());
                    server.config = Some(config.clone());
                    state.handle_select_model(model, Ok(config));
                }
                BackendOp::ReplyPermission { reply, message } => {
                    server.permission_replies.push(reply);
                    state.handle_permission_reply_result(message, Ok(()));
                }
                BackendOp::ReplyQuestion { reply } => {
                    server.question_replies.push(reply);
                    state.handle_question_reply_result(Ok(()));
                }
                BackendOp::RejectQuestion { request_id } => {
                    server.rejected_questions.push(request_id);
                    state.handle_question_reject_result(Ok(()));
                }
                BackendOp::AbortSession { .. } | BackendOp::Dispose | BackendOp::Upgrade => {
                    state.handle_simple_result(Ok(()))
                }
                BackendOp::RenameSession { session_id, title } => {
                    state.handle_rename_session(Ok(session(&session_id, &title)))
                }
                BackendOp::TestServerUrl { .. } => state.handle_simple_result(Ok(())),
                BackendOp::ApplyServerUrl { url } => {
                    if server.fail_apply {
                        state.handle_apply_server_url_result(url, Err("server unreachable".into()));
                    } else {
                        server.server_url = url.trim_end_matches('/').to_string();
                        state.handle_apply_server_url_result(url, Ok(()));
                    }
                }
            }
        }
    }
}

fn run(state: &mut AppState, server: &mut FakeServer, event: Event) -> bool {
    let running = state.handle_event(event);
    drain(state, server);
    running
}

fn init(state: &mut AppState, server: &mut FakeServer) {
    state.queue_startup();
    drain(state, server);
}

fn ctrl(key: char) -> Event {
    Event::Key(KeyEvent {
        scancode: Scancode::Char(key),
        modifiers: Modifiers { ctrl: true, shift: false, alt: false, meta: false },
    })
}

fn char_key(ch: char) -> Event {
    Event::Key(KeyEvent { scancode: Scancode::Char(ch), modifiers: Modifiers::default() })
}

fn plain(scancode: Scancode) -> Event {
    Event::Key(KeyEvent { scancode, modifiers: Modifiers::default() })
}

fn enter_key() -> Event {
    plain(Scancode::Enter)
}

fn escape_key() -> Event {
    plain(Scancode::Escape)
}

fn tab_key() -> Event {
    plain(Scancode::Tab)
}

fn shift_tab_key() -> Event {
    Event::Key(KeyEvent {
        scancode: Scancode::Tab,
        modifiers: Modifiers { ctrl: false, shift: true, alt: false, meta: false },
    })
}

fn type_text(state: &mut AppState, server: &mut FakeServer, text: &str) {
    for ch in text.chars() {
        run(state, server, char_key(ch));
    }
}

fn agent(name: &str) -> Agent {
    Agent { name: name.into(), mode: AgentMode::Primary, model: None }
}

fn text_part(text: &str) -> Part {
    Part::Text(TextPart { identity: PartIdentity::empty(), text: text.into() })
}

fn message_part_updated(session_id: &str, message_id: &str, part_id: &str, part: Part) -> BackendEvent {
    BackendEvent::MessagePartUpdated {
        session_id: session_id.into(),
        message_id: message_id.into(),
        part_id: part_id.into(),
        part,
    }
}

fn assistant_message_updated(session_id: &str, message_id: &str) -> BackendEvent {
    BackendEvent::MessageUpdated {
        session_id: session_id.into(),
        message: Message {
            id: message_id.into(),
            session_id: session_id.into(),
            role: MessageRole::Assistant,
            created: 0,
            completed: Some(1),
        },
    }
}

fn delta(session_id: &str, part_id: &str, text: &str) -> BackendEvent {
    BackendEvent::MessagePartDelta {
        session_id: session_id.into(),
        message_id: "msg1".into(),
        part_id: part_id.into(),
        field: "text".into(),
        delta: text.into(),
    }
}

fn sync_envelope(event: BackendEvent, aggregate_id: &str, seq: u64) -> EventEnvelope {
    EventEnvelope {
        event,
        scope: EventScope { directory: None, workspace: None },
        cursor: Some(EventCursor {
            event_id: Some(format!("evt-{seq}")),
            aggregate_id: Some(aggregate_id.into()),
            seq: Some(seq),
        }),
    }
}

fn permission_request(id: &str) -> PermissionRequest {
    PermissionRequest {
        id: id.into(),
        session_id: "session-1".into(),
        permission: "bash".into(),
        patterns: vec!["/tmp/**".into()],
        metadata: Vec::new(),
        always: Vec::new(),
        tool: None,
    }
}

fn question_request(id: &str) -> QuestionRequest {
    QuestionRequest {
        id: id.into(),
        session_id: "session-1".into(),
        questions: vec![QuestionInfo {
            header: "Confirm".into(),
            question: "Continue?".into(),
            options: vec![
                QuestionOption { label: "Yes".into(), description: "continue".into() },
                QuestionOption { label: "No".into(), description: "stop".into() },
            ],
            multiple: false,
            custom: false,
        }],
        tool: None,
    }
}

fn modal_title(state: &AppState) -> Option<String> {
    state.active_modal().map(|m| m.title().to_string())
}

fn lookup_sequence(state: &AppState, key: &str) -> Option<u64> {
    state.sync_known_sequences.iter().find(|(k, _)| k == key).map(|(_, v)| *v)
}

#[test]
fn ctrl_c_quits() {
    let mut server = FakeServer::default();
    let mut app = AppState::new();
    assert!(!run(&mut app, &mut server, ctrl('c')));
}

#[test]
fn ctrl_x_q_quits() {
    let mut server = FakeServer::default();
    let mut app = AppState::new();
    run(&mut app, &mut server, ctrl('x'));
    assert!(!run(&mut app, &mut server, char_key('q')));
}

#[test]
fn starts_on_start_page() {
    let app = AppState::new();
    assert_eq!(app.active_mode(), AppMode::StartPage);
}

#[test]
fn non_quit_events_keep_running() {
    let mut server = FakeServer::default();
    let mut app = AppState::new();
    assert!(run(&mut app, &mut server, char_key('a')));
    assert!(run(&mut app, &mut server, char_key('b')));
}

#[test]
fn leader_times_out_after_ticks() {
    let mut server = FakeServer::default();
    let mut app = AppState::new();
    run(&mut app, &mut server, ctrl('x'));
    for _ in 0..40 {
        run(&mut app, &mut server, Event::Tick);
    }
    assert!(run(&mut app, &mut server, char_key('q')), "q after timeout should not quit");
}

#[test]
fn init_fallback_to_default_agents_when_backend_returns_empty() {
    let mut server = FakeServer::default();
    let mut app = AppState::new();
    init(&mut app, &mut server);
    assert_eq!(app.active_agent_name(), "build");
    assert_eq!(app.agents.len(), 2);
    assert_eq!(app.agents[1].name, "plan");
}

#[test]
fn init_loads_primary_agents_from_backend() {
    let mut server = FakeServer { agents: vec![agent("coder")], ..Default::default() };
    let mut app = AppState::new();
    init(&mut app, &mut server);
    assert_eq!(app.active_agent_name(), "coder");
}

#[test]
fn subagents_are_not_offered() {
    let mut sub = agent("helper");
    sub.mode = AgentMode::Subagent;
    let mut server = FakeServer { agents: vec![sub, agent("coder")], ..Default::default() };
    let mut app = AppState::new();
    init(&mut app, &mut server);
    assert_eq!(app.agents.len(), 1);
    assert_eq!(app.active_agent_name(), "coder");
}

#[test]
fn shift_tab_cycles_backward_through_agents() {
    let mut server = FakeServer {
        agents: vec![agent("build"), agent("plan"), agent("coder")],
        ..Default::default()
    };
    let mut app = AppState::new();
    init(&mut app, &mut server);
    run(&mut app, &mut server, tab_key());
    assert_eq!(app.active_agent_name(), "plan");
    run(&mut app, &mut server, shift_tab_key());
    assert_eq!(app.active_agent_name(), "build");
}

#[test]
fn tab_wraps_to_first_agent_at_end_of_list() {
    let mut server = FakeServer { agents: vec![agent("build"), agent("plan")], ..Default::default() };
    let mut app = AppState::new();
    init(&mut app, &mut server);
    run(&mut app, &mut server, tab_key());
    assert_eq!(app.active_agent_name(), "plan");
    run(&mut app, &mut server, tab_key());
    assert_eq!(app.active_agent_name(), "build");
}

#[test]
fn shift_tab_wraps_to_last_agent_at_start_of_list() {
    let mut server = FakeServer { agents: vec![agent("build"), agent("plan")], ..Default::default() };
    let mut app = AppState::new();
    init(&mut app, &mut server);
    run(&mut app, &mut server, shift_tab_key());
    assert_eq!(app.active_agent_name(), "plan");
}

#[test]
fn tab_cycles_forward_through_agents() {
    let mut server = FakeServer { agents: vec![agent("build"), agent("plan")], ..Default::default() };
    let mut app = AppState::new();
    init(&mut app, &mut server);
    assert_eq!(app.active_agent_name(), "build");
    run(&mut app, &mut server, tab_key());
    assert_eq!(app.active_agent_name(), "plan");
}

#[test]
fn agent_name_passed_to_prompt_on_send() {
    let mut server = FakeServer { agents: vec![agent("build"), agent("plan")], ..Default::default() };
    let mut app = AppState::new();
    init(&mut app, &mut server);
    run(&mut app, &mut server, tab_key());
    assert_eq!(app.active_agent_name(), "plan");
    run(&mut app, &mut server, char_key('h'));
    let still_running = run(&mut app, &mut server, enter_key());
    assert!(still_running, "app should keep running after send");
    assert_eq!(server.sessions.len(), 1, "session should be created");
    assert_eq!(server.prompt_calls.len(), 1);
    assert_eq!(server.prompt_calls[0].session_id, "mock-session-id");
    assert_eq!(server.prompt_calls[0].text, "h");
    assert_eq!(server.prompt_calls[0].agent, "plan");
    assert_eq!(
        app.active_submission(),
        Some(&Submission {
            kind: SubmissionKind::Prompt,
            session_id: "mock-session-id".into(),
            text: "h".into(),
            execution_text: "h".into(),
            agent: "plan".into(),
        })
    );
}

#[test]
fn explicit_quit_event_quits() {
    let mut server = FakeServer::default();
    let mut app = AppState::new();
    assert!(!run(&mut app, &mut server, Event::Quit));
}

#[test]
fn send_message_starts_stream_and_accumulates_parts() {
    let mut server = FakeServer::default();
    let mut app = AppState::new();
    init(&mut app, &mut server);
    run(&mut app, &mut server, char_key('h'));
    run(&mut app, &mut server, char_key('i'));
    assert!(run(&mut app, &mut server, enter_key()));
    assert!(app.is_streaming());
    let part = message_part_updated("mock-session-id", "msg-assistant-1", "prt-assistant-1", text_part("Hello"));
    run(&mut app, &mut server, Event::Backend(part));
    assert_eq!(app.partial_parts().len(), 1);
    run(&mut app, &mut server, Event::Backend(assistant_message_updated("mock-session-id", "msg-assistant-1")));
    assert!(!app.is_streaming());
    assert_eq!(app.messages().len(), 2, "user and assistant messages should be visible after finalization");
    assert_eq!(app.partial_parts().len(), 0, "finalized content moves out of partial_parts");
}

#[test]
fn sync_history_replay_finalizes_transcript_and_tracks_cursor() {
    let mut app = AppState::new();
    app.active_session = Some(session("mock-session-id", "Mock"));
    app.is_streaming = true;
    let batch = SyncHistoryBatch {
        envelopes: vec![
            sync_envelope(
                message_part_updated("mock-session-id", "msg-assistant-1", "prt-assistant-1", text_part("from catch-up")),
                "mock-session-id",
                1,
            ),
            sync_envelope(assistant_message_updated("mock-session-id", "msg-assistant-1"), "mock-session-id", 2),
        ],
        known_sequences: Vec::new(),
    };
    app.handle_sync_history_result(Ok(batch));
    assert!(!app.is_streaming());
    assert_eq!(app.messages().len(), 1);
    assert_eq!(lookup_sequence(&app, "mock-session-id"), Some(2));
}

#[test]
fn sync_history_keeps_the_highest_known_sequence() {
    let mut app = AppState::new();
    let batch = SyncHistoryBatch {
        envelopes: Vec::new(),
        known_sequences: vec![("a".into(), 5), ("a".into(), 3), ("b".into(), 1)],
    };
    app.handle_sync_history_result(Ok(batch));
    assert_eq!(lookup_sequence(&app, "a"), Some(5));
    assert_eq!(lookup_sequence(&app, "b"), Some(1));
    app.handle_sync_history_result(Err("offline".into()));
    assert_eq!(app.error(), Some("offline"));
}

#[test]
fn events_of_another_scope_are_ignored() {
    let mut app = AppState::new();
    let mut s = session("mock-session-id", "Mock");
    s.directory = "/work".into();
    app.active_session = Some(s);
    let envelope = EventEnvelope {
        event: message_part_updated("mock-session-id", "m", "p", text_part("elsewhere")),
        scope: EventScope { directory: Some("/other".into()), workspace: None },
        cursor: None,
    };
    assert!(app.apply_live_envelope(envelope));
    assert!(app.partial_parts().is_empty());
}

#[test]
fn message_removed_deletes_loaded_transcript_entry() {
    let mut server = FakeServer::default();
    let mut app = AppState::new();
    app.active_session = Some(session("mock-session-id", "Mock"));
    app.chat.push_message(LoadedMessage {
        id: Some("msg-1".into()),
        session_id: Some("mock-session-id".into()),
        role: MessageRole::Assistant,
        parts: vec![text_part("remove me")],
    });
    run(
        &mut app,
        &mut server,
        Event::Backend(BackendEvent::MessageRemoved {
            session_id: "mock-session-id".into(),
            message_id: "msg-1".into(),
        }),
    );
    assert!(app.messages().is_empty());
}

#[test]
fn message_part_removed_deletes_partial_delta_part() {
    let mut server = FakeServer::default();
    let mut app = AppState::new();
    app.active_session = Some(session("mock-session-id", "Mock"));
    run(&mut app, &mut server, Event::Backend(delta("mock-session-id", "part-1", "temporary")));
    assert_eq!(app.partial_parts().len(), 1);
    run(
        &mut app,
        &mut server,
        Event::Backend(BackendEvent::MessagePartRemoved {
            session_id: "mock-session-id".into(),
            message_id: "msg-1".into(),
            part_id: "part-1".into(),
        }),
    );
    assert!(app.partial_parts().is_empty());
}

#[test]
fn live_stream_close_schedules_sync_history_reconnect() {
    let mut server = FakeServer::default();
    let mut app = AppState::new();
    init(&mut app, &mut server);
    assert!(app.handle_live_stream_closed());
    for _ in 0..5 {
        run(&mut app, &mut server, Event::Tick);
    }
    assert!(server.sync_history_requests >= 2, "startup catch-up plus reconnect catch-up should be requested");
}

#[test]
fn live_stream_error_shows_error_and_plans_reconnect() {
    let mut app = AppState::new();
    assert!(app.handle_live_stream_error("stream broke".into()));
    assert_eq!(app.error(), Some("stream broke"));
    assert_eq!(app.live_reconnect_at_tick, Some(4));
}

#[test]
fn queued_messages_render_after_active_assistant_and_dispatch_in_order() {
    let mut server = FakeServer::default();
    let mut app = AppState::new();
    type_text(&mut app, &mut server, "first");
    run(&mut app, &mut server, enter_key());
    assert_eq!(server.prompt_calls[0].text, "first");
    let part = message_part_updated("mock-session-id", "msg-assistant-1", "prt-assistant-1", text_part("assistant one"));
    run(&mut app, &mut server, Event::Backend(part));
    type_text(&mut app, &mut server, "second");
    run(&mut app, &mut server, enter_key());
    type_text(&mut app, &mut server, "third");
    run(&mut app, &mut server, enter_key());
    assert_eq!(
        app.queued_submissions().iter().map(|s| s.text.as_str()).collect::<Vec<_>>(),
        vec!["second", "third"]
    );
    assert_eq!(app.chat.queued_messages().len(), 2);
    run(&mut app, &mut server, Event::Backend(assistant_message_updated("mock-session-id", "msg-assistant-1")));
    assert_eq!(server.prompt_calls.len(), 2);
    assert_eq!(server.prompt_calls[1].text, "second");
    assert_eq!(app.queued_submissions()[0].text, "third");
}

#[test]
fn response_indicator_survives_while_waiting_for_assistant_finalization() {
    let mut server = FakeServer::default();
    let mut app = AppState::new();
    run(&mut app, &mut server, char_key('h'));
    run(&mut app, &mut server, char_key('i'));
    run(&mut app, &mut server, enter_key());
    assert!(app.is_streaming());
    assert!(app.should_show_response_indicator());
}

#[test]
fn queued_prompt_waits_for_assistant_activity_before_dispatching() {
    let mut server = FakeServer::default();
    let mut app = AppState::new();
    type_text(&mut app, &mut server, "first");
    run(&mut app, &mut server, enter_key());
    assert_eq!(server.prompt_calls[0].text, "first");
    type_text(&mut app, &mut server, "second");
    run(&mut app, &mut server, enter_key());
    assert_eq!(app.queued_submissions().len(), 1);
    run(&mut app, &mut server, Event::Backend(assistant_message_updated("mock-session-id", "msg-assistant-1")));
    assert!(server.prompt_calls.len() == 2, "assistant finalization should dispatch queued prompt");
    assert_eq!(server.prompt_calls[1].text, "second");
}

#[test]
fn bang_command_submits_via_command_backend() {
    let mut server = FakeServer::default();
    let mut app = AppState::new();
    type_text(&mut app, &mut server, "!pwd");
    assert!(run(&mut app, &mut server, enter_key()));
    assert_eq!(server.command_calls.len(), 1);
    assert_eq!(server.command_calls[0].execution_text, "pwd");
    assert_eq!(server.prompt_calls.len(), 0);
    assert_eq!(
        app.active_submission(),
        Some(&Submission {
            kind: SubmissionKind::Command,
            session_id: "mock-session-id".into(),
            text: "!pwd".into(),
            execution_text: "pwd".into(),
            agent: "build".into(),
        })
    );
}

#[test]
fn sse_message_part_updated_accumulates_when_streaming() {
    let mut server = FakeServer::default();
    let mut app = AppState::new();
    run(&mut app, &mut server, char_key('h'));
    run(&mut app, &mut server, char_key('i'));
    run(&mut app, &mut server, enter_key());
    assert!(app.is_streaming(), "should be streaming after send");
    let part = message_part_updated("mock-session-id", "msg-assistant-1", "prt-assistant-1", text_part("Hello from assistant"));
    run(&mut app, &mut server, Event::Backend(part));
    assert_eq!(app.partial_parts().len(), 1, "MessagePartUpdated should push to partial_parts");
    run(&mut app, &mut server, Event::Backend(assistant_message_updated("mock-session-id", "msg-assistant-1")));
    assert!(!app.is_streaming());
    assert_eq!(app.messages().len(), 2);
    assert_eq!(app.partial_parts().len(), 0);
}

#[test]
fn duplicate_sse_part_events_do_not_duplicate_visible_assistant_text() {
    let mut server = FakeServer::default();
    let mut app = AppState::new();
    type_text(&mut app, &mut server, "hello from regression test");
    run(&mut app, &mut server, enter_key());
    let session_id = "mock-session-id";
    for _ in 0..2 {
        let echo = message_part_updated(session_id, "msg-user-echo", "prt-user-echo", text_part("hello from regression test"));
        run(&mut app, &mut server, Event::Backend(echo));
    }
    assert!(app.partial_parts().is_empty(), "echoed user text should not become assistant partials");
    let step_start = Part::StepStart(StepStartPart {
        identity: PartIdentity::empty(),
        snapshot: None,
        session_id: Some(session_id.into()),
    });
    for _ in 0..2 {
        run(
            &mut app,
            &mut server,
            Event::Backend(message_part_updated(session_id, "msg-step-start", "prt-step-start", step_start.clone())),
        );
    }
    for d in ["Hello", "! 👋", " How can I help you today?"] {
        run(&mut app, &mut server, Event::Backend(delta(session_id, "prt1", d)));
    }
    for _ in 0..2 {
        let final_text = text_part("Hello! 👋 How can I help you today?");
        run(&mut app, &mut server, Event::Backend(message_part_updated(session_id, "msg1", "prt1", final_text)));
    }
    let tool = Part::Tool(ToolPart {
        identity: PartIdentity::empty(),
        call_id: String::new(),
        tool: "bash".into(),
        state: ToolState::Pending { input: Vec::new(), raw: String::new() },
    });
    for _ in 0..2 {
        run(&mut app, &mut server, Event::Backend(message_part_updated(session_id, "msg-tool-1", "prt-tool-1", tool.clone())));
    }
    let assistant_text_parts: Vec<&str> = app
        .partial_parts()
        .iter()
        .filter_map(|part| match part {
            Part::Text(text) if !text.text.is_empty() => Some(text.text.as_str()),
            _ => None,
        })
        .collect();
    assert_eq!(assistant_text_parts, vec!["Hello! 👋 How can I help you today?"]);
    assert_eq!(
        app.partial_parts().iter().filter(|part| matches!(part, Part::Tool(_))).count(),
        1,
        "duplicate tool updates should be collapsed"
    );
    assert_eq!(app.messages().len(), 1, "only the user message is committed");
}

#[test]
fn sse_message_part_delta_accumulates_text_when_streaming() {
    let mut server = FakeServer::default();
    let mut app = AppState::new();
    run(&mut app, &mut server, char_key('h'));
    run(&mut app, &mut server, char_key('i'));
    run(&mut app, &mut server, enter_key());
    assert!(app.is_streaming());
    run(&mut app, &mut server, Event::Backend(delta("mock-session-id", "prt1", "Hello ")));
    assert_eq!(app.partial_parts().len(), 1, "first delta should create a text part");
    run(&mut app, &mut server, Event::Backend(delta("mock-session-id", "prt1", "world")));
    assert_eq!(app.partial_parts().len(), 1, "second delta should update existing text part, not add a new one");
    match &app.partial_parts()[0] {
        Part::Text(tp) => assert_eq!(tp.text, "Hello world"),
        _ => panic!("expected text part"),
    }
    run(&mut app, &mut server, Event::Backend(assistant_message_updated("mock-session-id", "msg-assistant-1")));
    assert!(!app.is_streaming());
    assert_eq!(app.messages().len(), 2);
    assert_eq!(app.partial_parts().len(), 0);
}

#[test]
fn reasoning_delta_updates_reasoning_part_in_place() {
    let mut server = FakeServer::default();
    let mut app = AppState::new();
    run(&mut app, &mut server, char_key('h'));
    run(&mut app, &mut server, char_key('i'));
    run(&mut app, &mut server, enter_key());
    let empty = Part::Reasoning(ReasoningPart { identity: PartIdentity::empty(), text: String::new() });
    run(&mut app, &mut server, Event::Backend(message_part_updated("mock-session-id", "msg1", "prt_reasoning", empty)));
    run(&mut app, &mut server, Event::Backend(delta("mock-session-id", "prt_reasoning", "thinking")));
    assert_eq!(app.partial_parts().len(), 1);
    match &app.partial_parts()[0] {
        Part::Reasoning(reasoning) => assert_eq!(reasoning.text, "thinking"),
        other => panic!("expected reasoning part, got {other:?}"),
    }
    let done = Part::Reasoning(ReasoningPart { identity: PartIdentity::empty(), text: "thinking done".into() });
    run(&mut app, &mut server, Event::Backend(message_part_updated("mock-session-id", "msg1", "prt_reasoning", done)));
    assert_eq!(app.partial_parts().len(), 1, "final reasoning update should replace the streaming placeholder");
    match &app.partial_parts()[0] {
        Part::Reasoning(reasoning) => assert_eq!(reasoning.text, "thinking done"),
        other => panic!("expected reasoning part, got {other:?}"),
    }
}

#[test]
fn sse_message_part_updated_ignored_when_not_streaming() {
    let mut server = FakeServer::default();
    let mut app = AppState::new();
    assert!(!app.is_streaming());
    let part = message_part_updated("ses1", "msg-stale", "prt-stale", text_part("Stale event"));
    run(&mut app, &mut server, Event::Backend(part));
    assert_eq!(app.partial_parts().len(), 0, "parts should NOT accumulate when not streaming");
}

#[test]
fn backend_error_during_stream_shows_error_and_clears_stream() {
    let mut server = FakeServer::default();
    let mut app = AppState::new();
    init(&mut app, &mut server);
    run(&mut app, &mut server, char_key('h'));
    run(&mut app, &mut server, enter_key());
    assert!(app.is_streaming());
    run(&mut app, &mut server, Event::Backend(BackendEvent::Error { message: "connection lost".into() }));
    assert!(!app.is_streaming());
    assert!(app.error().unwrap_or("").contains("connection lost"));
}

#[test]
fn session_creation_error_shows_error_and_stays_on_start_page() {
    let mut server = FakeServer { fail_create_session: Some("API error 500: server error".into()), ..Default::default() };
    let mut app = AppState::new();
    run(&mut app, &mut server, char_key('h'));
    assert!(run(&mut app, &mut server, enter_key()));
    assert_eq!(app.active_mode(), AppMode::StartPage, "should stay on StartPage on error");
    assert!(app.error().unwrap_or("").contains("server error"), "error should contain failure message");
}

#[test]
fn typing_enter_creates_session_and_switches_to_chat() {
    let mut server = FakeServer::default();
    let mut app = AppState::new();
    assert_eq!(app.active_mode(), AppMode::StartPage);
    run(&mut app, &mut server, char_key('h'));
    run(&mut app, &mut server, char_key('i'));
    assert!(run(&mut app, &mut server, enter_key()));
    assert_eq!(server.sessions.len(), 1, "a session should have been created");
    assert_eq!(app.active_mode(), AppMode::Chat);
    assert_eq!(app.draft(), Some("hi"));
}

#[test]
fn enter_on_empty_input_does_nothing() {
    let mut server = FakeServer::default();
    let mut app = AppState::new();
    assert!(run(&mut app, &mut server, enter_key()));
    assert_eq!(app.active_mode(), AppMode::StartPage);
    assert_eq!(server.sessions.len(), 0);
}

#[test]
fn session_list_shows_sessions_from_backend() {
    let mut server = FakeServer {
        sessions: vec![session("s1", "First session"), session("s2", "Second session")],
        ..Default::default()
    };
    let mut app = AppState::new();
    run(&mut app, &mut server, ctrl('x'));
    run(&mut app, &mut server, char_key('l'));
    match app.active_modal() {
        Some(ocpncord_tui::app::ActiveModal::SessionList(m)) => {
            assert_eq!(m.sessions.len(), 2);
            assert_eq!(m.sessions[0].title, "First session");
        }
        _ => panic!("session list should be open"),
    }
}

#[test]
fn session_list_shows_empty_state() {
    let mut server = FakeServer::default();
    let mut app = AppState::new();
    run(&mut app, &mut server, ctrl('x'));
    run(&mut app, &mut server, char_key('l'));
    match app.active_modal() {
        Some(ocpncord_tui::app::ActiveModal::SessionList(m)) => {
            assert_eq!(m.state, ocpncord_tui::modal::SessionListState::Empty)
        }
        _ => panic!("session list should be open"),
    }
}

#[test]
fn ctrl_x_l_opens_session_list_modal() {
    let mut server = FakeServer::default();
    let mut app = AppState::new();
    run(&mut app, &mut server, ctrl('x'));
    run(&mut app, &mut server, char_key('l'));
    assert!(app.active_modal().is_some(), "Ctrl+X L should open session list modal");
}

#[test]
fn escape_closes_active_modal() {
    let mut server = FakeServer::default();
    let mut app = AppState::new();
    app.set_active_modal(ocpncord_tui::app::ActiveModal::SessionList(
        ocpncord_tui::modal::SessionListModal::new(),
    ));
    assert!(app.active_modal().is_some(), "modal should be active after set");
    run(&mut app, &mut server, escape_key());
    assert!(app.active_modal().is_none(), "Escape should close the modal");
}

#[test]
fn slash_sessions_opens_modal() {
    let mut server = FakeServer::default();
    let mut app = AppState::new();
    type_text(&mut app, &mut server, "/sessions");
    run(&mut app, &mut server, enter_key());
    assert!(app.active_modal().is_some(), "/sessions should open the session list modal");
}

#[test]
fn slash_server_opens_server_config_modal() {
    let mut server = FakeServer::default();
    let mut app = AppState::new();
    type_text(&mut app, &mut server, "/server");
    run(&mut app, &mut server, enter_key());
    assert_eq!(modal_title(&app).as_deref(), Some("Server Connection"));
}

#[test]
fn slash_display_opens_display_config_modal() {
    let mut server = FakeServer::default();
    let mut app = AppState::new();
    type_text(&mut app, &mut server, "/display");
    run(&mut app, &mut server, enter_key());
    assert_eq!(modal_title(&app).as_deref(), Some("Display"));
}

#[test]
fn display_policy_changes_current_rendering() {
    let mut app = AppState::new();
    app.active_mode = AppMode::Chat;
    app.chat.push_message(LoadedMessage {
        id: Some("msg-file".into()),
        session_id: Some("session".into()),
        role: MessageRole::Assistant,
        parts: vec![Part::File(FilePart {
            identity: PartIdentity::empty(),
            mime: "text/plain".into(),
            url: "file:///tmp/report.txt".into(),
            filename: Some("report.txt".into()),
        })],
    });
    let shown = render_part_with_policy(&app.messages()[0].parts[0], &app.display_policy);
    assert!(shown.iter().any(|l| l.text.contains("report.txt")));
    app.apply_action(Some(Action::SetDisplayMode(PartKind::File, PartDisplayMode::Hidden)));
    let shown = render_part_with_policy(&app.messages()[0].parts[0], &app.display_policy);
    assert!(!shown.iter().any(|l| l.text.contains("report.txt")));
}

#[test]
fn display_dialog_enter_updates_policy_and_dialog() {
    let mut server = FakeServer::default();
    let mut app = AppState::new();
    type_text(&mut app, &mut server, "/display");
    run(&mut app, &mut server, enter_key());
    for _ in 0..4 {
        run(&mut app, &mut server, plain(Scancode::Down));
    }
    run(&mut app, &mut server, enter_key());
    assert_eq!(app.display_policy.mode_for_kind(PartKind::File), PartDisplayMode::Summary);
    match app.active_modal() {
        Some(ocpncord_tui::app::ActiveModal::DisplayConfig(m)) => {
            assert_eq!(m.policy.mode_for_kind(PartKind::File), PartDisplayMode::Summary)
        }
        _ => panic!("display dialog should stay open"),
    }
}

#[test]
fn applying_server_url_resets_state_and_reconnects() {
    let mut server = FakeServer { server_url: "http://old:4096".into(), ..Default::default() };
    let mut app = AppState::new();
    app.active_session = Some(session("old-session", "Old"));
    app.sync_known_sequences.push(("old-session".into(), 10));
    app.set_active_modal(ocpncord_tui::app::ActiveModal::ServerConfig(
        ocpncord_tui::modal::ServerConfigModal::new("http://new:4096".into()),
    ));
    app.apply_action(Some(Action::ApplyServerUrl("http://new:4096/".into())));
    drain(&mut app, &mut server);
    assert_eq!(server.server_url, "http://new:4096");
    assert!(app.active_modal().is_none());
    assert!(app.active_session.is_none());
    assert!(app.sync_known_sequences.is_empty());
    assert!(server.sync_history_requests > 0, "server switch should queue startup reconnect work");
}

#[test]
fn applying_invalid_server_url_keeps_modal_and_existing_backend() {
    let mut server = FakeServer { server_url: "http://old:4096".into(), fail_apply: true, ..Default::default() };
    let mut app = AppState::new();
    app.set_active_modal(ocpncord_tui::app::ActiveModal::ServerConfig(
        ocpncord_tui::modal::ServerConfigModal::new("http://bad:4096".into()),
    ));
    app.apply_action(Some(Action::ApplyServerUrl("http://bad:4096".into())));
    drain(&mut app, &mut server);
    assert_eq!(server.server_url, "http://old:4096");
    assert_eq!(modal_title(&app).as_deref(), Some("Server Connection"));
}

#[test]
fn unknown_slash_command_submits_as_message() {
    let mut server = FakeServer::default();
    let mut app = AppState::new();
    init(&mut app, &mut server);
    type_text(&mut app, &mut server, "/unknown");
    run(&mut app, &mut server, enter_key());
    assert_eq!(app.active_mode(), AppMode::Chat, "unknown command should transition to chat");
    assert!(app.messages().len() > 0, "unknown command should add a message");
    assert_eq!(server.prompt_calls[0].text, "/unknown");
}

#[test]
fn new_command_creates_session_and_stays_on_chat() {
    let mut server = FakeServer::default();
    let mut app = AppState::new();
    run(&mut app, &mut server, char_key('h'));
    run(&mut app, &mut server, char_key('i'));
    run(&mut app, &mut server, enter_key());
    assert_eq!(app.active_mode(), AppMode::Chat);
    run(&mut app, &mut server, Event::Backend(assistant_message_updated("mock-session-id", "msg-assistant-1")));
    let before = server.sessions.len();
    type_text(&mut app, &mut server, "/new");
    run(&mut app, &mut server, enter_key());
    assert_eq!(app.active_mode(), AppMode::Chat);
    assert_eq!(server.sessions.len(), before + 1, "/new should create a new session");
    assert!(app.messages().is_empty());
}

#[test]
fn slash_models_opens_modal() {
    let mut server = FakeServer::default();
    let mut app = AppState::new();
    type_text(&mut app, &mut server, "/models");
    run(&mut app, &mut server, enter_key());
    assert!(app.active_modal().is_some(), "/models should open the model picker modal");
}

#[test]
fn slash_help_opens_modal() {
    let mut server = FakeServer::default();
    let mut app = AppState::new();
    type_text(&mut app, &mut server, "/help");
    run(&mut app, &mut server, enter_key());
    assert!(app.active_modal().is_some(), "/help should open the help modal");
}

#[test]
fn slash_todos_selects_todos_panel_and_clears_prompt() {
    let mut server = FakeServer::default();
    let mut app = AppState::new();
    type_text(&mut app, &mut server, "/todos");
    run(&mut app, &mut server, enter_key());
    assert!(app.side_panel_visible, "/todos should open the side panel");
    assert_eq!(app.side_panel_tab, Tab::Todos);
    assert_eq!(app.prompt_text(), "", "/todos should clear the prompt");
}

#[test]
fn ctrl_x_o_toggles_todos_panel() {
    let mut server = FakeServer::default();
    let mut app = AppState::new();
    run(&mut app, &mut server, ctrl('x'));
    run(&mut app, &mut server, char_key('o'));
    assert!(app.side_panel_visible);
    assert_eq!(app.side_panel_tab, Tab::Todos);
    run(&mut app, &mut server, ctrl('x'));
    run(&mut app, &mut server, char_key('o'));
    assert!(!app.side_panel_visible);
    assert_eq!(app.side_panel_tab, Tab::Todos);
}

#[test]
fn ctrl_x_d_selects_diagnostics_when_todos_panel_is_open() {
    let mut server = FakeServer::default();
    let mut app = AppState::new();
    run(&mut app, &mut server, ctrl('x'));
    run(&mut app, &mut server, char_key('o'));
    assert_eq!(app.side_panel_tab, Tab::Todos);
    run(&mut app, &mut server, ctrl('x'));
    run(&mut app, &mut server, char_key('d'));
    assert!(app.side_panel_visible);
    assert_eq!(app.side_panel_tab, Tab::Diagnostics);
}

#[test]
fn ctrl_x_m_opens_model_picker_modal() {
    let mut server = FakeServer::default();
    let mut app = AppState::new();
    run(&mut app, &mut server, ctrl('x'));
    run(&mut app, &mut server, char_key('m'));
    assert!(app.active_modal().is_some(), "Ctrl+X M should open the model picker modal");
}

#[test]
fn model_picker_reuses_cached_model_list() {
    let mut server = FakeServer {
        models: Some(vec![ModelSummary {
            id: "sage-pro".into(),
            provider_id: "acme".into(),
            name: Some("Sage Pro".into()),
            family: None,
        }]),
        ..Default::default()
    };
    let mut app = AppState::new();
    run(&mut app, &mut server, ctrl('x'));
    run(&mut app, &mut server, char_key('m'));
    assert_eq!(server.list_models_calls, 1);
    run(&mut app, &mut server, escape_key());
    run(&mut app, &mut server, ctrl('x'));
    run(&mut app, &mut server, char_key('m'));
    assert_eq!(server.list_models_calls, 1);
}

#[test]
fn model_picker_reports_model_catalog_errors() {
    let mut server = FakeServer::default();
    let mut app = AppState::new();
    run(&mut app, &mut server, ctrl('x'));
    run(&mut app, &mut server, char_key('m'));
    match app.active_modal() {
        Some(ocpncord_tui::app::ActiveModal::ModelPicker(m)) => {
            assert_eq!(m.error.as_deref(), Some("no model catalog stub"))
        }
        _ => panic!("model picker should be open"),
    }
}

#[test]
fn select_model_updates_backend_config() {
    let mut server = FakeServer {
        config: Some(Config {
            model: Some("openrouter/old".into()),
            provider: vec![(
                "openrouter".into(),
                ProviderConfig {
                    models: vec![(
                        "new".into(),
                        ModelConfig { id: None, name: Some("New Model".into()), family: None },
                    )],
                },
            )],
            agent: Vec::new(),
        }),
        models: Some(Vec::new()),
        ..Default::default()
    };
    let mut app = AppState::new();
    run(&mut app, &mut server, ctrl('x'));
    run(&mut app, &mut server, char_key('m'));
    run(&mut app, &mut server, enter_key());
    assert_eq!(server.config.as_ref().and_then(|c| c.model.as_deref()), Some("openrouter/new"));
}

#[test]
fn selecting_model_preserves_picker_search_after_config_update() {
    let mut server = FakeServer {
        models: Some(vec![
            ModelSummary { id: "sage-pro".into(), provider_id: "acme".into(), name: Some("Sage Pro".into()), family: None },
            ModelSummary { id: "qwen3.6".into(), provider_id: "qwen".into(), name: Some("Qwen3.6".into()), family: None },
        ]),
        ..Default::default()
    };
    let mut app = AppState::new();
    run(&mut app, &mut server, ctrl('x'));
    run(&mut app, &mut server, char_key('m'));
    type_text(&mut app, &mut server, "qwen");
    run(&mut app, &mut server, enter_key());
    match app.active_modal() {
        Some(ocpncord_tui::app::ActiveModal::ModelPicker(m)) => {
            assert_eq!(m.search(), "qwen");
            assert_eq!(m.filtered_len(), 1);
            assert_eq!(m.current_model.as_deref(), Some("qwen/qwen3.6"));
        }
        _ => panic!("model picker should stay open"),
    }
}

#[test]
fn ctrl_x_h_opens_help_modal() {
    let mut server = FakeServer::default();
    let mut app = AppState::new();
    run(&mut app, &mut server, ctrl('x'));
    run(&mut app, &mut server, char_key('h'));
    assert!(app.active_modal().is_some(), "Ctrl+X H should open the help modal");
}

#[test]
fn escape_closes_help_modal() {
    let mut server = FakeServer::default();
    let mut app = AppState::new();
    run(&mut app, &mut server, ctrl('x'));
    run(&mut app, &mut server, char_key('h'));
    assert!(app.active_modal().is_some(), "help modal should be open");
    run(&mut app, &mut server, escape_key());
    assert!(app.active_modal().is_none(), "Escape should close the help modal");
}

#[test]
fn ctrl_x_leader_does_not_leak_to_prompt_bar() {
    let mut server = FakeServer::default();
    let mut app = AppState::new();
    type_text(&mut app, &mut server, "hello");
    assert_eq!(app.prompt_text(), "hello", "should have typed hello");
    run(&mut app, &mut server, ctrl('x'));
    assert_eq!(app.prompt_text(), "hello", "ctrl+x should not leak 'x' to prompt bar");
    run(&mut app, &mut server, char_key('h'));
    assert!(app.active_modal().is_some(), "help modal should open after ctrl+x h");
    run(&mut app, &mut server, escape_key());
    assert_eq!(app.prompt_text(), "hello", "prompt bar should preserve input through modal lifecycle");
}

#[test]
fn ctrl_x_t_toggles_terminal_screen() {
    let mut server = FakeServer::default();
    let mut app = AppState::new();
    assert_eq!(app.active_mode(), AppMode::StartPage);
    run(&mut app, &mut server, ctrl('x'));
    run(&mut app, &mut server, char_key('t'));
    assert_eq!(app.active_mode(), AppMode::Terminal, "ctrl+x t should switch to terminal");
    run(&mut app, &mut server, ctrl('x'));
    run(&mut app, &mut server, char_key('t'));
    assert_eq!(app.active_mode(), AppMode::StartPage, "ctrl+x t again should return to start page");
}

#[test]
fn terminal_screen_plain_keys_do_not_mutate_prompt() {
    let mut server = FakeServer::default();
    let mut app = AppState::new();
    run(&mut app, &mut server, ctrl('x'));
    run(&mut app, &mut server, char_key('t'));
    assert_eq!(app.active_mode(), AppMode::Terminal);
    run(&mut app, &mut server, char_key('a'));
    run(&mut app, &mut server, char_key('b'));
    assert_eq!(app.prompt_text(), "");
}

#[test]
fn terminal_screen_scrolls_from_bottom_with_arrow_and_page_keys() {
    let mut server = FakeServer::default();
    let mut app = AppState::new();
    app.terminal.pty_id = Some("pty-1".into());
    app.terminal.command = "sh".into();
    for idx in 0..12 {
        app.terminal.push_line(TermLine { content: format!("line-{idx}"), is_error: false });
    }
    run(&mut app, &mut server, ctrl('x'));
    run(&mut app, &mut server, char_key('t'));
    assert_eq!(app.active_mode(), AppMode::Terminal);
    app.terminal_view_height = 5;
    run(&mut app, &mut server, plain(Scancode::Up));
    assert_eq!(app.terminal.scroll, 1);
    run(&mut app, &mut server, plain(Scancode::PageUp));
    assert_eq!(app.terminal.scroll, 5);
    run(&mut app, &mut server, plain(Scancode::PageUp));
    assert_eq!(app.terminal.scroll, 7, "scrolling stops at the top of the output");
    run(&mut app, &mut server, plain(Scancode::Down));
    assert_eq!(app.terminal.scroll, 6);
}

#[test]
fn escape_clears_prompt_when_no_modal_is_open() {
    let mut server = FakeServer::default();
    let mut app = AppState::new();
    run(&mut app, &mut server, char_key('h'));
    run(&mut app, &mut server, char_key('i'));
    assert_eq!(app.prompt_text(), "hi");
    run(&mut app, &mut server, escape_key());
    assert_eq!(app.prompt_text(), "");
}

#[test]
fn command_palette_enter_closes_palette_before_applying_action() {
    let mut server = FakeServer::default();
    let mut app = AppState::new();
    run(&mut app, &mut server, ctrl('p'));
    assert_eq!(modal_title(&app).as_deref(), Some("Command Palette"));
    run(&mut app, &mut server, enter_key());
    assert_eq!(modal_title(&app).as_deref(), Some("Help"));
}

#[test]
fn ctrl_c_during_streaming_interrupts_not_quits() {
    let mut server = FakeServer::default();
    let mut app = AppState::new();
    init(&mut app, &mut server);
    run(&mut app, &mut server, char_key('h'));
    run(&mut app, &mut server, enter_key());
    assert!(app.is_streaming(), "should be streaming after send");
    let running = run(&mut app, &mut server, ctrl('c'));
    assert!(running, "ctrl+c during streaming should interrupt, not quit");
    assert!(!app.is_streaming(), "streaming should be stopped");
}

#[test]
fn toast_renderer_handles_narrow_terminals_and_storage_cap() {
    let mut app = AppState::new();
    for idx in 0..20 {
        app.push_toast(Toast {
            title: Some(format!("T{idx}")),
            message: "very long message that should be clipped".into(),
            variant: ToastVariant::Info,
            created_at: 0,
            duration: 10,
        });
    }
    assert_eq!(app.toasts.len(), MAX_STORED_TOASTS);
    assert_eq!(app.toasts.front().and_then(|t| t.title.as_deref()), Some("T4"));
}

#[test]
fn tick_expires_toasts_and_modal_suppresses_rendering() {
    let mut server = FakeServer::default();
    let mut app = AppState::new();
    app.push_toast(Toast {
        title: Some("HiddenToast".into()),
        message: "toast message".into(),
        variant: ToastVariant::Info,
        created_at: 0,
        duration: 0,
    });
    run(&mut app, &mut server, Event::Tick);
    assert!(app.toasts.is_empty(), "expired toast should be pruned");
}

#[test]
fn permission_request_opens_modal_and_enter_replies_once() {
    let mut server = FakeServer::default();
    let mut app = AppState::new();
    run(&mut app, &mut server, Event::Backend(BackendEvent::PermissionAsked { request: permission_request("perm-1") }));
    assert_eq!(modal_title(&app).as_deref(), Some("Permission Request"));
    assert!(matches!(
        app.active_blocking_prompt.as_ref(),
        Some(ActiveBlockingPrompt::Permission(id)) if id == "perm-1"
    ));
    run(&mut app, &mut server, enter_key());
    assert!(app.active_modal().is_none(), "modal should close after reply");
    assert_eq!(server.permission_replies.len(), 1);
    assert_eq!(server.permission_replies[0].request_id, "perm-1");
    assert_eq!(server.permission_replies[0].reply, "once");
    assert_eq!(app.toasts.back().map(|t| t.message.as_str()), Some("Permission allowed once"));
}

#[test]
fn permission_escape_rejects_and_opens_next_queued_request() {
    let mut server = FakeServer::default();
    let mut app = AppState::new();
    run(&mut app, &mut server, Event::Backend(BackendEvent::PermissionAsked { request: permission_request("perm-1") }));
    run(&mut app, &mut server, Event::Backend(BackendEvent::PermissionAsked { request: permission_request("perm-2") }));
    run(&mut app, &mut server, escape_key());
    assert_eq!(server.permission_replies.len(), 1);
    assert_eq!(server.permission_replies[0].request_id, "perm-1");
    assert_eq!(server.permission_replies[0].reply, "reject");
    assert_eq!(app.pending_permissions.len(), 1);
    assert_eq!(app.pending_permissions.front().map(|r| r.id.as_str()), Some("perm-2"));
    assert!(matches!(
        app.active_blocking_prompt.as_ref(),
        Some(ActiveBlockingPrompt::Permission(id)) if id == "perm-2"
    ));
}

#[test]
fn external_permission_reply_removes_matching_id_without_popping_front() {
    let mut server = FakeServer::default();
    let mut app = AppState::new();
    run(&mut app, &mut server, Event::Backend(BackendEvent::PermissionAsked { request: permission_request("perm-1") }));
    run(&mut app, &mut server, Event::Backend(BackendEvent::PermissionAsked { request: permission_request("perm-2") }));
    run(
        &mut app,
        &mut server,
        Event::Backend(BackendEvent::PermissionReplied {
            session_id: "session-1".into(),
            request_id: "perm-2".into(),
            reply: "always".into(),
        }),
    );
    assert_eq!(app.pending_permissions.len(), 1);
    assert_eq!(app.pending_permissions.front().map(|r| r.id.as_str()), Some("perm-1"));
    assert!(matches!(
        app.active_blocking_prompt.as_ref(),
        Some(ActiveBlockingPrompt::Permission(id)) if id == "perm-1"
    ));
}

#[test]
fn question_request_submits_nested_answers_and_escape_rejects() {
    let mut server = FakeServer::default();
    let mut app = AppState::new();
    run(&mut app, &mut server, Event::Backend(BackendEvent::QuestionAsked { request: question_request("question-1") }));
    run(&mut app, &mut server, enter_key());
    assert_eq!(server.question_replies.len(), 1);
    assert_eq!(server.question_replies[0].answers, vec![vec!["Yes".to_string()]]);
    run(&mut app, &mut server, Event::Backend(BackendEvent::QuestionAsked { request: question_request("question-2") }));
    run(&mut app, &mut server, escape_key());
    assert_eq!(server.rejected_questions, vec!["question-2".to_string()]);
    assert!(app.active_modal().is_none(), "question modal should close after reject");
}

#[test]
fn pty_exit_shows_exit_code_toast() {
    let mut server = FakeServer::default();
    let mut app = AppState::new();
    run(&mut app, &mut server, Event::Backend(BackendEvent::PtyExited { id: "p".into(), exit_code: -3 }));
    let toast = app.toasts.back().expect("a toast");
    assert_eq!(toast.message, "exit code: -3");
    assert_eq!(toast.variant, ToastVariant::Error);
    run(&mut app, &mut server, Event::Backend(BackendEvent::PtyExited { id: "p".into(), exit_code: 0 }));
    let toast = app.toasts.back().expect("a toast");
    assert_eq!(toast.message, "exit code: 0");
    assert_eq!(toast.variant, ToastVariant::Success);
    assert_eq!(app.terminal.exit_code, Some(0));
}

#[test]
fn server_toasts_carry_their_variant_and_duration() {
    let mut server = FakeServer::default();
    let mut app = AppState::new();
    run(
        &mut app,
        &mut server,
        Event::Backend(BackendEvent::TuiToastShow {
            title: None,
            message: "careful".into(),
            variant: "warning".into(),
            duration: None,
        }),
    );
    let toast = app.toasts.back().expect("a toast");
    assert_eq!(toast.variant, ToastVariant::Warning);
    assert_eq!(toast.duration, 6);
    run(
        &mut app,
        &mut server,
        Event::Backend(BackendEvent::CommandExecuted {
            name: "build".into(),
            arguments: "--release".into(),
            session_id: "s".into(),
        }),
    );
    assert_eq!(app.toasts.back().map(|t| t.message.as_str()), Some("build --release"));
}

#[test]
fn session_error_is_shown_quoted() {
    let mut server = FakeServer::default();
    let mut app = AppState::new();
    run(
        &mut app,
        &mut server,
        Event::Backend(BackendEvent::SessionError { session_id: None, error: "boom".into() }),
    );
    assert_eq!(app.error(), Some("Session error: \"boom\""));
}

#[test]
fn server_command_event_runs_client_command() {
    let mut server = FakeServer::default();
    let mut app = AppState::new();
    assert!(run(&mut app, &mut server, Event::Backend(BackendEvent::TuiCommandExecute { command: "/help".into() })));
    assert_eq!(modal_title(&app).as_deref(), Some("Help"));
    assert!(!run(&mut app, &mut server, Event::Backend(BackendEvent::TuiCommandExecute { command: "/exit".into() })));
}

#[test]
fn reset_for_server_switch_queues_startup_work() {
    let mut app = AppState::new();
    app.reset_for_server_switch("http://other:4096".into());
    assert_eq!(app.current_server_url, "http://other:4096");
    assert_eq!(app.pending_ops.len(), 3);
    assert_eq!(app.pending_ops[0], BackendOp::LoadAgents);
    assert_eq!(app.pending_ops[2], BackendOp::Subscribe);
}

#[test]
fn selecting_model_keeps_populated_picker_while_request_is_pending() {
    let mut server = FakeServer {
        models: Some(vec![ModelSummary {
            id: "sage-pro".into(),
            provider_id: "acme".into(),
            name: Some("Sage Pro".into()),
            family: None,
        }]),
        ..Default::default()
    };
    let mut app = AppState::new();
    run(&mut app, &mut server, ctrl('x'));
    run(&mut app, &mut server, char_key('m'));
    assert!(app.handle_event(enter_key()));
    match app.active_modal() {
        Some(ocpncord_tui::app::ActiveModal::ModelPicker(m)) => {
            assert!(m.models.iter().any(|c| c.label.contains("Sage Pro")));
            assert_eq!(m.visible_model_count(), 1);
        }
        _ => panic!("the populated picker should stay open"),
    }
    assert!(matches!(app.pending_ops.back(), Some(BackendOp::SelectModel { .. })));
}

#[test]
fn known_sequences_keep_one_entry_per_key_in_key_order() {
    let mut known: Vec<(String, u64)> = Vec::new();
    raise_sequence(&mut known, "b".into(), 3);
    raise_sequence(&mut known, "a".into(), 5);
    raise_sequence(&mut known, "b".into(), 2);
    raise_sequence(&mut known, "c".into(), 1);
    raise_sequence(&mut known, "a".into(), 7);
    assert_eq!(
        known,
        vec![("a".to_string(), 7), ("b".to_string(), 3), ("c".to_string(), 1)]
    );
}

#[test]
fn terminal_pane_keeps_the_latest_lines() {
    let mut pane = TerminalPane::new();
    for idx in 0..=MAX_TERMINAL_LINES {
        pane.push_line(TermLine { content: format!("line-{idx}"), is_error: false });
    }
    assert_eq!(pane.lines.len(), MAX_TERMINAL_LINES);
    assert_eq!(pane.lines.front().map(|l| l.content.as_str()), Some("line-1"));
    assert_eq!(pane.lines.back().map(|l| l.content.as_str()), Some("line-2000"));
}
