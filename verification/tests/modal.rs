use ocpncord_tui::app::{Action, PermissionReplyAction};
use ocpncord_tui::chat::{ChatDisplayPolicy, PartDisplayMode, PartKind};
use ocpncord_tui::event::{Event, KeyEvent, Modifiers, Scancode};
use ocpncord_tui::modal::{
    fit_with_ellipsis, model_picker_lines, session_list_lines, short_id, DisplayConfigModal, HelpModal, Modal, ModelPickerModal,
    PermissionModal, QuestionModal, ServerConfigModal, SessionListModal, SessionListState,
    HELP_LINE_COUNT,
};
use ocpncord_tui::transcript::{LineStyle, StyledLine};
use ocpncord_tui::model::AgentConfig;
use ocpncord_tui::modal::ConnectionTier;
use ocpncord_tui::model::{
    Config, ModelConfig, ModelSummary, PermissionRequest, ProviderConfig, QuestionInfo,
    QuestionOption, QuestionRequest, ServerConnection, Session, ToolCallRef,
};

struct TestModal;

impl Modal for TestModal {
    fn handle_event(&mut self, event: Event) -> Action {
        match event {
            Event::Key(ke) if ke.scancode == Scancode::Escape => Action::CloseModal,
            _ => Action::NoAction,
        }
    }
    fn title(&self) -> &str {
        "Test Modal"
    }
}

fn key(scancode: Scancode) -> Event {
    Event::Key(KeyEvent { scancode, modifiers: Modifiers::default() })
}

fn permission_request(id: &str) -> PermissionRequest {
    PermissionRequest {
        id: id.into(),
        session_id: "session-1".into(),
        permission: "bash".into(),
        patterns: vec!["/tmp/**".into()],
        metadata: Vec::new(),
        always: Vec::new(),
        tool: Some(ToolCallRef { message_id: "m1".into(), call_id: "c1".into() }),
    }
}

fn option(label: &str, description: &str) -> QuestionOption {
    QuestionOption { label: label.into(), description: description.into() }
}

fn single_question_request(id: &str) -> QuestionRequest {
    QuestionRequest {
        id: id.into(),
        session_id: "session-1".into(),
        questions: vec![QuestionInfo {
            question: "Proceed?".into(),
            header: "Confirm".into(),
            options: vec![option("A", "first"), option("B", "second")],
            multiple: false,
            custom: false,
        }],
        tool: None,
    }
}

fn summary(id: &str, provider: &str, name: &str, family: Option<&str>) -> ModelSummary {
    ModelSummary {
        id: id.into(),
        provider_id: provider.into(),
        name: Some(name.into()),
        family: family.map(|f| f.to_string()),
    }
}

fn empty_config() -> Config {
    Config { model: None, provider: Vec::new(), agent: Vec::new() }
}

fn model_config(name: Option<&str>, family: Option<&str>) -> ModelConfig {
    ModelConfig { id: None, name: name.map(|n| n.to_string()), family: family.map(|f| f.to_string()) }
}

fn make_session(id: &str, title: &str) -> Session {
    Session { id: id.into(), title: title.into(), directory: "/".into(), workspace_id: None }
}

#[test]
fn modal_trait_title_works() {
    let modal = TestModal;
    assert_eq!(modal.title(), "Test Modal");
}

#[test]
fn help_modal_clamps_scroll_at_bottom() {
    let mut modal = HelpModal::new();
    modal.set_visible_height(20);
    for _ in 0..40 {
        modal.handle_event(key(Scancode::Down));
    }
    assert_eq!(modal.scroll_offset(), HELP_LINE_COUNT - 20);
    modal.handle_event(key(Scancode::Up));
    assert_eq!(modal.scroll_offset(), HELP_LINE_COUNT - 21);
}

#[test]
fn help_modal_lists_commands_keys_and_prefixes() {
    let modal = HelpModal::new();
    let lines = modal.lines();
    assert_eq!(lines.len(), 31);
    assert_eq!(lines[0].text, "Slash Commands");
    assert_eq!(lines[0].style, ocpncord_tui::transcript::LineStyle::TextAccent);
    assert_eq!(lines[1].text, "  /help         Show this help");
    assert_eq!(lines[30].text, "  #             Tool reference");
}

#[test]
fn help_modal_escape_closes() {
    let mut modal = HelpModal::new();
    assert_eq!(modal.handle_event(key(Scancode::Escape)), Action::CloseModal);
}

#[test]
fn permission_modal_escape_returns_reject_reply() {
    let mut modal = PermissionModal::new(permission_request("permission-1"));
    let action = modal.handle_event(key(Scancode::Escape));
    assert!(matches!(
        action,
        Action::ReplyPermission(session_id, request_id, PermissionReplyAction::Reject)
            if session_id == "session-1" && request_id == "permission-1"
    ));
}

#[test]
fn permission_modal_enter_replies_with_selected_button() {
    let mut modal = PermissionModal::new(permission_request("permission-2"));
    modal.handle_event(key(Scancode::Right));
    let action = modal.handle_event(key(Scancode::Enter));
    assert_eq!(
        action,
        Action::ReplyPermission("session-1".into(), "permission-2".into(), PermissionReplyAction::Always)
    );
}

#[test]
fn question_modal_single_select_returns_nested_answer() {
    let mut modal = QuestionModal::new(single_question_request("question-1"));
    let action = modal.handle_event(key(Scancode::Enter));
    assert!(matches!(
        action,
        Action::ReplyQuestion(session_id, request_id, answers)
            if session_id == "session-1"
                && request_id == "question-1"
                && answers == vec![vec!["A".to_string()]]
    ));
}

#[test]
fn question_modal_escape_returns_reject_action() {
    let mut modal = QuestionModal::new(single_question_request("question-escape"));
    let action = modal.handle_event(key(Scancode::Escape));
    assert!(matches!(action, Action::RejectQuestion(request_id) if request_id == "question-escape"));
}

#[test]
fn question_modal_multi_select_collects_toggled_answers() {
    let request = QuestionRequest {
        id: "question-1".into(),
        session_id: "session-1".into(),
        questions: vec![QuestionInfo {
            question: "Choose several".into(),
            header: "Multi".into(),
            options: vec![option("A", "first"), option("B", "second")],
            multiple: true,
            custom: false,
        }],
        tool: None,
    };
    let mut modal = QuestionModal::new(request);
    assert!(matches!(modal.handle_event(key(Scancode::Char(' '))), Action::NoAction));
    assert!(matches!(modal.handle_event(key(Scancode::Down)), Action::NoAction));
    assert!(matches!(modal.handle_event(key(Scancode::Char(' '))), Action::NoAction));
    let action = modal.handle_event(key(Scancode::Enter));
    assert!(matches!(
        action,
        Action::ReplyQuestion(_, _, answers) if answers == vec![vec!["A".to_string(), "B".to_string()]]
    ));
}

#[test]
fn question_modal_custom_input_returns_custom_answer() {
    let request = QuestionRequest {
        id: "question-1".into(),
        session_id: "session-1".into(),
        questions: vec![QuestionInfo {
            question: "Type your answer".into(),
            header: "Custom".into(),
            options: Vec::new(),
            multiple: false,
            custom: true,
        }],
        tool: None,
    };
    let mut modal = QuestionModal::new(request);
    assert!(matches!(modal.handle_event(key(Scancode::Char('o'))), Action::NoAction));
    assert!(matches!(modal.handle_event(key(Scancode::Char('k'))), Action::NoAction));
    let action = modal.handle_event(key(Scancode::Enter));
    assert!(matches!(
        action,
        Action::ReplyQuestion(_, _, answers) if answers == vec![vec!["ok".to_string()]]
    ));
}

#[test]
fn question_modal_supports_multiple_questions_and_back_navigation() {
    let request = QuestionRequest {
        id: "question-1".into(),
        session_id: "session-1".into(),
        questions: vec![
            QuestionInfo {
                question: "First".into(),
                header: "One".into(),
                options: vec![option("A", "first"), option("B", "second")],
                multiple: false,
                custom: false,
            },
            QuestionInfo {
                question: "Second".into(),
                header: "Two".into(),
                options: vec![option("C", "third"), option("D", "fourth")],
                multiple: false,
                custom: false,
            },
        ],
        tool: None,
    };
    let mut modal = QuestionModal::new(request);
    assert!(matches!(modal.handle_event(key(Scancode::Enter)), Action::NoAction));
    assert_eq!(modal.current_q, 1);
    assert!(matches!(modal.handle_event(key(Scancode::Left)), Action::NoAction));
    assert_eq!(modal.current_q, 0);
    assert!(matches!(modal.handle_event(key(Scancode::Right)), Action::NoAction));
    assert_eq!(modal.current_q, 1);
    assert!(matches!(modal.handle_event(key(Scancode::Down)), Action::NoAction));
    let action = modal.handle_event(key(Scancode::Enter));
    assert!(matches!(
        action,
        Action::ReplyQuestion(_, _, answers)
            if answers == vec![vec!["A".to_string()], vec!["D".to_string()]]
    ));
}

#[test]
fn server_config_modal_edits_url_and_applies() {
    let mut modal = ServerConfigModal::new("http://localhost:4096".into());
    modal.handle_event(key(Scancode::Char('/')));
    modal.handle_event(key(Scancode::Char('v')));
    assert_eq!(modal.url(), "http://localhost:4096/v");
    modal.handle_event(key(Scancode::Backspace));
    assert_eq!(modal.url(), "http://localhost:4096/");
    let action = modal.handle_event(key(Scancode::Enter));
    assert_eq!(action, Action::NoAction);
    let action = modal.handle_event(key(Scancode::Enter));
    assert_eq!(
        action,
        Action::ApplyServerConnection(ServerConnection::new("http://localhost:4096/".into(), None, None))
    );
}

#[test]
fn server_config_modal_enter_while_typing_does_not_apply() {
    let mut modal = ServerConfigModal::new("http://localhost:4096".into());
    modal.handle_event(key(Scancode::Char('/')));
    let action = modal.handle_event(key(Scancode::Enter));
    assert_eq!(action, Action::NoAction, "Enter mid-edit must not switch the connection");
    let action = modal.handle_event(key(Scancode::Enter));
    assert_eq!(
        action,
        Action::ApplyServerConnection(ServerConnection::new("http://localhost:4096/".into(), None, None))
    );
}

#[test]
fn server_config_modal_apply_button_returns_apply_action() {
    let mut modal = ServerConfigModal::new("http://localhost:4096".into());
    modal.handle_event(key(Scancode::Tab));
    modal.handle_event(key(Scancode::Tab));
    modal.handle_event(key(Scancode::Tab));
    let action = modal.handle_event(key(Scancode::Enter));
    assert_eq!(
        action,
        Action::ApplyServerConnection(ServerConnection::new("http://localhost:4096".into(), None, None))
    );
}

#[test]
fn server_config_modal_masks_password_and_returns_auth() {
    let mut modal = ServerConfigModal::new_with_connection(ServerConnection::new(
        "http://localhost:4096".into(),
        Some("user".into()),
        Some("secret".into()),
    ));
    assert_eq!(modal.username(), "user");
    assert_eq!(modal.password(), "secret");
    modal.handle_event(key(Scancode::Tab));
    modal.handle_event(key(Scancode::Tab));
    modal.handle_event(key(Scancode::Tab));
    let action = modal.handle_event(key(Scancode::Enter));
    assert_eq!(
        action,
        Action::ApplyServerConnection(ServerConnection::new(
            "http://localhost:4096".into(),
            Some("user".into()),
            Some("secret".into()),
        ))
    );
}

#[test]
fn display_config_modal_cycles_selected_part_mode() {
    let mut modal = DisplayConfigModal::new(ChatDisplayPolicy::default());
    let action = modal.handle_event(key(Scancode::Enter));
    assert_eq!(action, Action::SetDisplayMode(PartKind::Text, PartDisplayMode::Summary));
}

#[test]
fn display_config_modal_moves_between_kinds() {
    let mut modal = DisplayConfigModal::new(ChatDisplayPolicy::default());
    modal.handle_event(key(Scancode::Down));
    modal.handle_event(key(Scancode::Down));
    modal.handle_event(key(Scancode::Down));
    assert_eq!(modal.selected_kind(), PartKind::Step);
    let action = modal.handle_event(key(Scancode::Enter));
    assert_eq!(action, Action::SetDisplayMode(PartKind::Step, PartDisplayMode::Full));
}

#[test]
fn session_list_starts_in_loading_state() {
    let modal = SessionListModal::new();
    assert_eq!(modal.state, SessionListState::Loading);
    assert_eq!(modal.title(), "Sessions");
}

#[test]
fn session_list_scrolls_long_lists_to_selected_item() {
    let mut modal = SessionListModal::new();
    let sessions = (0..12).map(|idx| make_session(&format!("s{idx}"), &format!("Session {idx}"))).collect();
    modal.set_sessions(sessions);
    for _ in 0..9 {
        modal.handle_event(key(Scancode::Down));
    }
    assert_eq!(modal.selected_index(), 9);
    assert!(modal.scroll_offset() > 0);
}

#[test]
fn session_list_enter_loads_selected_session() {
    let mut modal = SessionListModal::new();
    modal.set_sessions(vec![make_session("a", "A"), make_session("b", "B")]);
    modal.handle_event(key(Scancode::Down));
    assert_eq!(modal.handle_event(key(Scancode::Enter)), Action::LoadSession("b".into()));
}

#[test]
fn model_picker_search_filters_by_name_provider_id_and_family() {
    let mut modal = ModelPickerModal::new();
    modal.set_models_from_config(
        empty_config(),
        &[
            summary("sage-pro", "acme", "Sage Pro", Some("sage")),
            summary("orbit-4", "globex", "Orbit-4", Some("orbit")),
        ],
    );
    modal.handle_event(key(Scancode::Char('s')));
    modal.handle_event(key(Scancode::Char('a')));
    assert_eq!(modal.search(), "sa");
    assert_eq!(modal.visible_model_count(), 1);
    assert!(modal.search_matches("acme/sage-pro"));
    assert!(!modal.search_matches("globex/orbit-4"));
}

#[test]
fn model_picker_search_backspace_restores_matches() {
    let mut modal = ModelPickerModal::new();
    modal.set_models_from_config(
        empty_config(),
        &[
            summary("sage-pro", "acme", "Sage Pro", None),
            summary("orbit-4", "globex", "Orbit-4", None),
        ],
    );
    modal.handle_event(key(Scancode::Char('z')));
    assert_eq!(modal.visible_model_count(), 0);
    modal.handle_event(key(Scancode::Backspace));
    assert_eq!(modal.search(), "");
    assert_eq!(modal.visible_model_count(), 2);
}

#[test]
fn model_picker_includes_custom_config_models_when_api_models_are_available() {
    let mut modal = ModelPickerModal::new();
    modal.set_models_from_config(
        Config {
            model: None,
            provider: vec![(
                "openrouter-shortcut".into(),
                ProviderConfig {
                    models: vec![("big-pickle".into(), model_config(Some("Big Pickle"), Some("pickle")))],
                },
            )],
            agent: Vec::new(),
        },
        &[summary("sage-pro", "acme", "Sage Pro", None)],
    );
    for c in "pickle".chars() {
        modal.handle_event(key(Scancode::Char(c)));
    }
    assert_eq!(modal.visible_model_count(), 1);
    assert!(modal.search_matches("openrouter-shortcut/big-pickle"));
}

#[test]
fn model_picker_page_down_uses_visible_row_count() {
    let models: Vec<ModelSummary> = (0..20)
        .map(|idx| summary(&format!("model-{idx:02}"), "provider", &format!("Model {idx:02}"), None))
        .collect();
    let mut modal = ModelPickerModal::new();
    modal.set_models_from_config(empty_config(), &models);
    modal.set_visible_rows(5);
    modal.handle_event(key(Scancode::PageDown));
    assert_eq!(modal.selected_index(), 5);
    assert_eq!(modal.scroll_offset(), 1);
}

#[test]
fn model_picker_enter_returns_selected_model() {
    let mut modal = ModelPickerModal::new();
    modal.set_config(Config {
        model: Some("acme/sage-base".into()),
        provider: vec![(
            "acme".into(),
            ProviderConfig {
                models: vec![
                    ("sage-base".into(), model_config(None, None)),
                    ("sage-pro".into(), model_config(None, None)),
                ],
            },
        )],
        agent: Vec::new(),
    });
    modal.handle_event(key(Scancode::Down));
    assert_eq!(modal.selected_index(), 1);
    let action = modal.handle_event(key(Scancode::Enter));
    assert_eq!(action, Action::SelectModel("acme/sage-pro".into()));
}

#[test]
fn model_picker_shows_error_state() {
    let mut modal = ModelPickerModal::new();
    modal.set_error("catalog unavailable".into());
    assert_eq!(modal.error, Some("catalog unavailable".to_string()));
    assert_eq!(modal.handle_event(key(Scancode::Escape)), Action::CloseModal);
}

#[test]
fn fit_with_ellipsis_shortens_long_text() {
    assert_eq!(fit_with_ellipsis("abcdefgh".into(), 6), "abc...");
    assert_eq!(fit_with_ellipsis("abc".into(), 6), "abc");
    assert_eq!(fit_with_ellipsis("abcdef".into(), 2), "..");
}

#[test]
fn short_id_keeps_the_start_of_long_ids() {
    assert_eq!(short_id("abcdefghijklmnop"), "abcdef...mnop");
    assert_eq!(short_id("session-1"), "session-1");
}

#[test]
fn help_modal_renders_title() {
    let modal = HelpModal::new();
    assert_eq!(modal.title(), "Help");
    let text: Vec<String> = modal.lines().into_iter().map(|l| l.text).collect();
    assert!(text.iter().any(|l| l.contains("Slash Commands")));
}

#[test]
fn help_modal_shows_all_sections() {
    let modal = HelpModal::new();
    let screen = modal.lines().into_iter().map(|l| l.text).collect::<Vec<_>>().join("\n");
    assert!(screen.contains("Ctrl+P"), "Should show Ctrl+P. Screen: {screen}");
    assert!(screen.contains("Tab"), "Should show Tab. Screen: {screen}");
    assert!(screen.contains("Escape"), "Should show Escape. Screen: {screen}");
    assert!(screen.contains("Command mode"), "Should show Command mode. Screen: {screen}");
    assert!(screen.contains("Shell mode"), "Should show Shell mode. Screen: {screen}");
    assert!(screen.contains("File reference"), "Should show File reference. Screen: {screen}");
}

#[test]
fn model_picker_shows_model_from_config() {
    let mut modal = ModelPickerModal::new();
    modal.set_config(Config {
        model: Some("openrouter/orbit-4".into()),
        provider: vec![(
            "openrouter".into(),
            ProviderConfig { models: vec![("orbit-4".into(), model_config(Some("Orbit-4"), None))] },
        )],
        agent: Vec::new(),
    });
    assert!(modal.models.iter().any(|m| m.label.contains("Orbit-4")));
    assert_eq!(modal.current_model.as_deref(), Some("openrouter/orbit-4"));
}

#[test]
fn model_picker_shows_models_from_catalog() {
    let models = vec![summary("acme/sage-pro-4", "openrouter", "Sage Pro 4", None)];
    let mut modal = ModelPickerModal::new();
    modal.set_models_from_config(
        Config { model: Some("openrouter/acme/sage-pro-4".into()), provider: Vec::new(), agent: Vec::new() },
        &models,
    );
    assert!(modal.models.iter().any(|m| m.label.contains("Sage Pro 4")));
    assert_eq!(modal.visible_model_count(), 1);
}

#[test]
fn model_picker_current_display_names_label_and_provider() {
    let mut modal = ModelPickerModal::new();
    assert_eq!(modal.current_display(), "No model configured");
    modal.set_config(Config {
        model: Some("acme/sage-base".into()),
        provider: vec![("acme".into(), ProviderConfig { models: vec![("sage-base".into(), model_config(Some("Sage Base"), None))] })],
        agent: Vec::new(),
    });
    assert_eq!(modal.current_display(), "Sage Base  [acme]");
    modal.set_config(Config { model: Some("other/unlisted".into()), provider: Vec::new(), agent: Vec::new() });
    assert_eq!(modal.current_display(), "other/unlisted");
}

fn line_pairs(lines: &[StyledLine]) -> Vec<(String, LineStyle)> {
    lines.iter().map(|l| (l.text.clone(), l.style)).collect()
}

fn picker_with_current() -> ModelPickerModal {
    let mut modal = ModelPickerModal::new();
    modal.set_models_from_config(
        Config { model: Some("acme/sage-pro".into()), provider: Vec::new(), agent: Vec::new() },
        &[summary("orbit-4", "globex", "Orbit-4", None), summary("sage-pro", "acme", "Sage Pro", None)],
    );
    modal
}

#[test]
fn model_picker_lines_mark_current_and_show_provider() {
    let modal = picker_with_current();
    assert_eq!(
        line_pairs(&model_picker_lines(&modal, 80)),
        vec![
            ("Current: Sage Pro  [acme]".to_string(), LineStyle::TextDim),
            ("Search: ".to_string(), LineStyle::Text),
            (String::new(), LineStyle::Text),
            ("* Sage Pro  [acme]".to_string(), LineStyle::Selection),
            ("  Orbit-4  [globex]".to_string(), LineStyle::Text),
        ]
    );
}

#[test]
fn model_picker_lines_cut_rows_to_width() {
    let modal = picker_with_current();
    let lines = model_picker_lines(&modal, 12);
    assert_eq!(lines[0].text, "Current: ...");
    assert_eq!(lines[3].text, "* Sage Pr...");
    assert_eq!(lines[4].text, "  Orbit-4...");
}

#[test]
fn model_picker_lines_explain_an_empty_list() {
    let mut modal = ModelPickerModal::new();
    modal.set_models_from_config(empty_config(), &[]);
    let lines = model_picker_lines(&modal, 80);
    assert_eq!(lines.len(), 4);
    assert_eq!(lines[0].text, "Current: No model configured");
    assert_eq!(lines[3].text, "No models found in server config");

    let mut modal = picker_with_current();
    modal.handle_event(key(Scancode::Char('z')));
    let lines = model_picker_lines(&modal, 80);
    assert_eq!(lines.len(), 4);
    assert_eq!(lines[1].text, "Search: z");
    assert_eq!(lines[3].text, "No models match search");
    assert_eq!(lines[3].style, LineStyle::TextDim);
}

#[test]
fn model_picker_lines_show_only_the_error() {
    let mut modal = picker_with_current();
    modal.set_error("catalog unavailable".into());
    assert_eq!(
        line_pairs(&model_picker_lines(&modal, 80)),
        vec![("catalog unavailable".to_string(), LineStyle::TextError)]
    );
}

#[test]
fn session_list_lines_follow_the_state() {
    let mut modal = SessionListModal::new();
    assert_eq!(
        line_pairs(&session_list_lines(&modal, 80, 10)),
        vec![("Loading sessions...".to_string(), LineStyle::TextDim)]
    );
    modal.set_sessions(Vec::new());
    assert_eq!(
        line_pairs(&session_list_lines(&modal, 80, 10)),
        vec![("No sessions yet".to_string(), LineStyle::TextDim)]
    );
    modal.set_sessions(vec![make_session("abcdefghijklmnop", "First"), make_session("b", "Second")]);
    assert_eq!(
        line_pairs(&session_list_lines(&modal, 80, 10)),
        vec![
            ("> First  [abcdef...mnop]".to_string(), LineStyle::Selection),
            ("  Second  [b]".to_string(), LineStyle::Text),
        ]
    );
}

#[test]
fn session_list_lines_ask_to_confirm_a_delete() {
    let mut modal = SessionListModal::new();
    modal.set_sessions(vec![make_session("a", "A"), make_session("b", "B")]);
    modal.handle_event(key(Scancode::Down));
    modal.handle_event(key(Scancode::Delete));
    assert_eq!(
        line_pairs(&session_list_lines(&modal, 80, 10)),
        vec![
            ("Press Delete again to confirm, Escape to cancel".to_string(), LineStyle::TextError),
            ("  A  [a]".to_string(), LineStyle::Text),
            ("> B  [b]".to_string(), LineStyle::Selection),
        ]
    );
}

#[test]
fn model_picker_falls_back_to_the_agent_first_by_name() {
    let agents = vec![
        ("zeta".to_string(), AgentConfig { model: Some("p/zeta-model".into()) }),
        ("plan".to_string(), AgentConfig { model: None }),
        ("alpha".to_string(), AgentConfig { model: Some("p/alpha-model".into()) }),
    ];
    let mut modal = ModelPickerModal::new();
    modal.set_config(Config { model: None, provider: Vec::new(), agent: agents.clone() });
    assert_eq!(modal.current_display(), "p/alpha-model");

    let mut with_build = agents;
    with_build.push(("build".to_string(), AgentConfig { model: Some("p/build-model".into()) }));
    modal.set_config(Config { model: None, provider: Vec::new(), agent: with_build });
    assert_eq!(modal.current_display(), "p/build-model");
}

#[test]
fn a_new_server_dialog_waits_for_the_first_event() {
    let modal = ServerConfigModal::new("http://localhost:4096".into());
    assert_eq!(modal.active_connection.tier, ConnectionTier::Yellow);
    assert_eq!(modal.active_connection.summary, "connecting");
    assert_eq!(modal.active_connection.detail, "Waiting for the first live event from the active server");
}

#[test]
fn permission_buttons_follow_the_right_presses() {
    for (presses, expected) in [(0, PermissionReplyAction::Once), (1, PermissionReplyAction::Always), (2, PermissionReplyAction::Reject), (5, PermissionReplyAction::Reject)] {
        let mut modal = PermissionModal::new(permission_request("permission-1"));
        for _ in 0..presses {
            assert_eq!(modal.handle_event(key(Scancode::Right)), Action::NoAction);
        }
        assert_eq!(
            modal.handle_event(key(Scancode::Enter)),
            Action::ReplyPermission("session-1".into(), "permission-1".into(), expected)
        );
    }
}

#[test]
fn a_fresh_question_prompt_answers_its_first_option() {
    let request = QuestionRequest {
        id: "question-1".into(),
        session_id: "session-1".into(),
        questions: vec![QuestionInfo {
            question: "Proceed?".into(),
            header: "Confirm".into(),
            options: vec![option("A", "first"), option("B", "second")],
            multiple: false,
            custom: false,
        }],
        tool: None,
    };
    let mut modal = QuestionModal::new(request);
    assert_eq!(
        modal.handle_event(key(Scancode::Enter)),
        Action::ReplyQuestion("session-1".into(), "question-1".into(), vec![vec!["A".to_string()]])
    );
}
