use ocpncord_tui::chat::{
    user_loaded_message, ChatDisplayPolicy, ChatState, LoadedMessage, PartDisplayMode, PartKind,
};
use ocpncord_tui::model::{
    FilePart, Message, MessageRole, Part, PartIdentity, PatchPart, ReasoningPart, StepFinishPart,
    StepStartPart, SubtaskPart, TextPart, ToolPart, ToolState,
};
use ocpncord_tui::transcript::{
    render_part_with_mode, render_part_with_policy, LineStyle, StyledLine,
};

fn render_part(part: &Part, show_details: bool) -> Vec<StyledLine> {
    let mode = if show_details {
        ChatDisplayPolicy::default().mode_for_part(part)
    } else {
        PartDisplayMode::Summary
    };
    render_part_with_mode(part, mode)
}

fn text(t: &str) -> Part {
    Part::Text(TextPart { identity: PartIdentity::empty(), text: t.into() })
}

fn tool(name: &str, state: ToolState) -> Part {
    Part::Tool(ToolPart { identity: PartIdentity::empty(), call_id: String::new(), tool: name.into(), state })
}

fn joined(lines: &[StyledLine]) -> String {
    lines.iter().map(|l| l.text.as_str()).collect::<Vec<_>>().join("\n")
}

#[test]
fn chat_text_part_renders_with_part_text_style() {
    let lines = render_part(&text("hello world"), true);
    assert_eq!(lines.len(), 1);
    assert_eq!(lines[0].text, "hello world");
    assert_eq!(lines[0].style, LineStyle::PartText);
}

#[test]
fn chat_text_part_newlines_render_as_distinct_lines() {
    let lines = render_part(&text("hello\nworld"), true);
    assert_eq!(lines.len(), 2);
    assert_eq!(lines[0].text, "hello");
    assert_eq!(lines[1].text, "world");
}

#[test]
fn chat_reasoning_part_shows_full_when_details_on() {
    let part = Part::Reasoning(ReasoningPart { identity: PartIdentity::empty(), text: "thinking...".into() });
    let lines = render_part(&part, true);
    assert_eq!(lines.len(), 1);
    assert_eq!(lines[0].text, "... reasoning: thinking...");
}

#[test]
fn empty_reasoning_part_has_stable_placeholder_line() {
    let part = Part::Reasoning(ReasoningPart { identity: PartIdentity::empty(), text: String::new() });
    let lines = render_part(&part, true);
    assert_eq!(lines.len(), 1);
    assert_eq!(lines[0].text, "... reasoning");
}

#[test]
fn chat_reasoning_part_collapsed_when_details_off() {
    let part = Part::Reasoning(ReasoningPart { identity: PartIdentity::empty(), text: "thinking...".into() });
    let lines = render_part(&part, false);
    assert_eq!(lines.len(), 1);
    assert_eq!(lines[0].text, "reasoning hidden");
}

#[test]
fn chat_tool_pending_shows_idle_style() {
    let part = tool("read", ToolState::Pending { input: Vec::new(), raw: "".into() });
    let lines = render_part(&part, true);
    assert_eq!(lines.len(), 1);
    assert!(lines[0].text.contains("read"));
    assert_eq!(lines[0].style, LineStyle::ToolIdle);
}

#[test]
fn chat_tool_running_shows_running_style() {
    let part = tool("write", ToolState::Running { input: Vec::new(), title: None, metadata: None, start: None });
    let lines = render_part(&part, true);
    assert_eq!(lines.len(), 1);
    assert!(lines[0].text.contains("write"));
    assert_eq!(lines[0].style, LineStyle::ToolRunning);
}

#[test]
fn chat_tool_completed_shows_output() {
    let part = tool(
        "grep",
        ToolState::Completed {
            input: vec![("command".into(), "git status --short".into())],
            output: "found 3 matches\nsrc/lib.rs".into(),
            title: "grep".into(),
            metadata: Vec::new(),
            start: 0,
            end: 1,
            attachments: Vec::new(),
        },
    );
    let rendered = joined(&render_part(&part, true));
    assert!(rendered.contains("git status --short"), "{rendered}");
    assert!(rendered.contains("found 3 matches"), "{rendered}");
    assert!(rendered.contains("src/lib.rs"), "{rendered}");
    assert_eq!(
        rendered,
        "[ok] grep - done\n  title: grep\n  input:\n    command: git status --short\n  output:\n    found 3 matches\n    src/lib.rs"
    );
}

#[test]
fn running_tool_with_output_metadata_is_completed_on_finalize() {
    let mut state = ChatState::new();
    state.merge_stream_part(
        Some("tool-1".into()),
        Part::Tool(ToolPart {
            identity: PartIdentity { id: Some("tool-1".into()), message_id: None, session_id: None },
            call_id: String::new(),
            tool: "bash".into(),
            state: ToolState::Running {
                input: vec![("command".into(), "pwd".into())],
                title: Some("Print working directory".into()),
                metadata: Some(vec![("output".into(), "/tmp/project".into())]),
                start: Some(7),
            },
        }),
    );
    state.complete_running_tools_with_output();
    match &state.partial_parts()[0] {
        Part::Tool(tool) => match &tool.state {
            ToolState::Completed { output, title, start, end, .. } => {
                assert_eq!(output, "/tmp/project");
                assert_eq!(title, "Print working directory");
                assert_eq!((*start, *end), (7, 7));
            }
            other => panic!("expected completed tool, got {other:?}"),
        },
        other => panic!("expected tool part, got {other:?}"),
    }
}

#[test]
fn chat_tool_error_shows_error_message() {
    let part = tool(
        "curl",
        ToolState::Error { input: vec![("file".into(), "src/main.rs".into())], error: "timeout".into(), metadata: None },
    );
    let rendered = joined(&render_part(&part, true));
    assert!(rendered.contains("src/main.rs"), "{rendered}");
    assert!(rendered.contains("timeout"), "{rendered}");
}

#[test]
fn tool_summary_hides_full_output() {
    let part = tool(
        "bash",
        ToolState::Completed {
            input: Vec::new(),
            output: "line one\nline two".into(),
            title: "git diff --stat".into(),
            metadata: Vec::new(),
            start: 0,
            end: 1,
            attachments: Vec::new(),
        },
    );
    let lines = render_part_with_mode(&part, PartDisplayMode::Summary);
    assert_eq!(lines.len(), 1);
    assert!(lines[0].text.contains("git diff --stat"));
    assert!(!lines[0].text.contains("line one"));
}

#[test]
fn display_policy_can_hide_files() {
    let mut policy = ChatDisplayPolicy::default();
    policy.set_mode(PartKind::File, PartDisplayMode::Hidden);
    let part = Part::File(FilePart {
        identity: PartIdentity::empty(),
        mime: "text/plain".into(),
        url: "file:///tmp/report.txt".into(),
        filename: Some("report.txt".into()),
    });
    assert!(render_part_with_policy(&part, &policy).is_empty());
}

#[test]
fn file_part_in_full_shows_url_and_mime() {
    let part = Part::File(FilePart {
        identity: PartIdentity::empty(),
        mime: "text/plain".into(),
        url: "file:///tmp/report.txt".into(),
        filename: None,
    });
    let lines = render_part_with_mode(&part, PartDisplayMode::Full);
    assert_eq!(
        joined(&lines),
        "[file] file:///tmp/report.txt\n  url: file:///tmp/report.txt\n  mime: text/plain"
    );
}

#[test]
fn patch_part_counts_files() {
    let part = Part::Patch(PatchPart {
        identity: PartIdentity::empty(),
        hash: "abc123".into(),
        files: vec!["src/lib.rs".into(), "src/app.rs".into()],
    });
    assert_eq!(joined(&render_part_with_mode(&part, PartDisplayMode::Summary)), "[patch] 2 files abc123");
    assert_eq!(
        joined(&render_part_with_mode(&part, PartDisplayMode::Full)),
        "[patch] 2 files abc123\n  src/lib.rs\n  src/app.rs"
    );
}

#[test]
fn stream_tool_updates_with_same_part_id_replace_previous_state() {
    let mut state = ChatState::new();
    let input = vec![("command".to_string(), "git status --short".to_string())];
    state.merge_stream_part(
        Some("tool-1".into()),
        tool("bash", ToolState::Pending { input: input.clone(), raw: "git status --short".into() }),
    );
    state.merge_stream_part(
        Some("tool-1".into()),
        tool(
            "bash",
            ToolState::Completed {
                input,
                output: " M tui/src/chat.rs".into(),
                title: "git status --short".into(),
                metadata: Vec::new(),
                start: 0,
                end: 1,
                attachments: Vec::new(),
            },
        ),
    );
    assert_eq!(state.partial_parts().len(), 1);
    match &state.partial_parts()[0] {
        Part::Tool(tool) => match &tool.state {
            ToolState::Completed { output, .. } => assert!(output.contains("tui/src/chat.rs")),
            other => panic!("expected completed tool, got {other:?}"),
        },
        other => panic!("expected tool part, got {other:?}"),
    }
}

#[test]
fn duplicate_completed_tool_update_does_not_duplicate_output() {
    let mut state = ChatState::new();
    let part = tool(
        "bash",
        ToolState::Completed {
            input: Vec::new(),
            output: "done".into(),
            title: "echo done".into(),
            metadata: Vec::new(),
            start: 0,
            end: 1,
            attachments: Vec::new(),
        },
    );
    state.merge_stream_part(Some("tool-1".into()), part.clone());
    state.merge_stream_part(Some("tool-1".into()), part);
    assert_eq!(state.partial_parts().len(), 1);
}

#[test]
fn unkeyed_file_updates_with_same_url_replace_previous_state() {
    let mut state = ChatState::new();
    state.merge_stream_part(
        None,
        Part::File(FilePart {
            identity: PartIdentity::empty(),
            mime: "text/plain".into(),
            url: "file:///tmp/report.txt".into(),
            filename: Some("old.txt".into()),
        }),
    );
    state.merge_stream_part(
        None,
        Part::File(FilePart {
            identity: PartIdentity::empty(),
            mime: "text/markdown".into(),
            url: "file:///tmp/report.txt".into(),
            filename: Some("report.md".into()),
        }),
    );
    assert_eq!(state.partial_parts().len(), 1);
    match &state.partial_parts()[0] {
        Part::File(file) => {
            assert_eq!(file.filename.as_deref(), Some("report.md"));
            assert_eq!(file.mime, "text/markdown");
        }
        other => panic!("expected file part, got {other:?}"),
    }
}

#[test]
fn unkeyed_patch_updates_with_same_hash_replace_previous_state() {
    let mut state = ChatState::new();
    state.merge_stream_part(
        None,
        Part::Patch(PatchPart { identity: PartIdentity::empty(), hash: "abc123".into(), files: vec!["src/lib.rs".into()] }),
    );
    state.merge_stream_part(
        None,
        Part::Patch(PatchPart {
            identity: PartIdentity::empty(),
            hash: "abc123".into(),
            files: vec!["src/lib.rs".into(), "src/app.rs".into()],
        }),
    );
    assert_eq!(state.partial_parts().len(), 1);
    match &state.partial_parts()[0] {
        Part::Patch(patch) => assert_eq!(patch.files.len(), 2),
        other => panic!("expected patch part, got {other:?}"),
    }
}

#[test]
fn unkeyed_subtask_updates_with_same_agent_and_description_replace_previous_state() {
    let mut state = ChatState::new();
    state.merge_stream_part(
        None,
        Part::Subtask(SubtaskPart {
            identity: PartIdentity::empty(),
            prompt: "first prompt".into(),
            description: "review renderer".into(),
            agent: "build".into(),
        }),
    );
    state.merge_stream_part(
        None,
        Part::Subtask(SubtaskPart {
            identity: PartIdentity::empty(),
            prompt: "updated prompt".into(),
            description: "review renderer".into(),
            agent: "build".into(),
        }),
    );
    assert_eq!(state.partial_parts().len(), 1);
    match &state.partial_parts()[0] {
        Part::Subtask(subtask) => assert_eq!(subtask.prompt, "updated prompt"),
        other => panic!("expected subtask part, got {other:?}"),
    }
}

#[test]
fn empty_keyed_text_update_does_not_clear_accumulated_delta() {
    let mut state = ChatState::new();
    state.merge_stream_delta("text-1".into(), "hello".into());
    state.merge_stream_part(Some("text-1".into()), text(""));
    match &state.partial_parts()[0] {
        Part::Text(t) => assert_eq!(t.text, "hello"),
        other => panic!("expected text part, got {other:?}"),
    }
}

#[test]
fn step_start_is_hidden_in_chat() {
    let part = Part::StepStart(StepStartPart { identity: PartIdentity::empty(), snapshot: None, session_id: None });
    assert!(render_part(&part, true).is_empty());
}

#[test]
fn step_start_with_snapshot_is_hidden_in_chat() {
    let part = Part::StepStart(StepStartPart {
        identity: PartIdentity::empty(),
        snapshot: Some("planning".into()),
        session_id: None,
    });
    assert!(render_part(&part, true).is_empty());
}

#[test]
fn step_finish_with_reason_is_hidden_in_chat() {
    let part = Part::StepFinish(StepFinishPart {
        identity: PartIdentity::empty(),
        reason: Some("done".into()),
        snapshot: None,
        session_id: None,
    });
    assert!(render_part(&part, true).is_empty());
}

#[test]
fn step_finish_without_reason_is_hidden_in_chat() {
    let part = Part::StepFinish(StepFinishPart {
        identity: PartIdentity::empty(),
        reason: None,
        snapshot: None,
        session_id: None,
    });
    assert!(render_part(&part, true).is_empty());
}

#[test]
fn step_finish_in_full_lists_its_reason() {
    let part = Part::StepFinish(StepFinishPart {
        identity: PartIdentity::empty(),
        reason: Some("done".into()),
        snapshot: None,
        session_id: Some("s1".into()),
    });
    assert_eq!(
        joined(&render_part_with_mode(&part, PartDisplayMode::Full)),
        "[step] finished\n  reason: done\n  session: s1"
    );
}

#[test]
fn deltas_accumulate_under_one_key() {
    let mut state = ChatState::new();
    state.merge_stream_delta("p".into(), "ab".into());
    state.merge_stream_delta("p".into(), "cd".into());
    assert_eq!(state.partial_parts().len(), 1);
    assert_eq!(state.latest_text_part_index, Some(0));
    match &state.partial_parts()[0] {
        Part::Text(t) => assert_eq!(t.text, "abcd"),
        other => panic!("expected text part, got {other:?}"),
    }
}

#[test]
fn removing_a_stream_part_shifts_later_positions() {
    let mut state = ChatState::new();
    state.merge_stream_delta("a".into(), "first".into());
    state.merge_stream_part(Some("b".into()), Part::Patch(PatchPart {
        identity: PartIdentity::empty(),
        hash: "h".into(),
        files: Vec::new(),
    }));
    state.merge_stream_delta("c".into(), "third".into());
    assert_eq!(state.partial_parts().len(), 2);
    state.remove_stream_part("a");
    assert_eq!(state.partial_parts().len(), 1);
    assert!(matches!(&state.partial_parts()[0], Part::Patch(_)));
}

#[test]
fn assistant_update_stores_streamed_parts_as_message() {
    let mut state = ChatState::new();
    state.push_message(user_loaded_message("hi"));
    state.merge_stream_part(Some("p1".into()), text("hello"));
    let done = state.apply_message_updated(Message {
        id: "m1".into(),
        session_id: "s1".into(),
        role: MessageRole::Assistant,
        created: 0,
        completed: Some(2),
    });
    assert!(done);
    assert!(!state.has_partial_response());
    assert_eq!(state.messages().len(), 2);
    assert_eq!(state.messages()[1].id.as_deref(), Some("m1"));
    assert_eq!(state.messages()[1].parts.len(), 1);
}

#[test]
fn user_update_attaches_id_to_optimistic_message() {
    let mut state = ChatState::new();
    state.push_message(user_loaded_message("hi"));
    let done = state.apply_message_updated(Message {
        id: "u1".into(),
        session_id: "s1".into(),
        role: MessageRole::User,
        created: 0,
        completed: None,
    });
    assert!(!done);
    assert_eq!(state.messages()[0].id.as_deref(), Some("u1"));
    assert_eq!(state.messages()[0].session_id.as_deref(), Some("s1"));
}

#[test]
fn flush_keeps_partial_response_as_message() {
    let mut state = ChatState::new();
    state.merge_stream_part(None, text("partial"));
    state.flush_partial_response(Some("s1".into()));
    assert!(!state.has_partial_response());
    let m: &LoadedMessage = &state.messages()[0];
    assert_eq!(m.role, MessageRole::Assistant);
    assert_eq!(m.id, None);
    assert_eq!(m.session_id.as_deref(), Some("s1"));
}

#[test]
fn display_mode_cycles_through_three_modes() {
    assert_eq!(PartDisplayMode::Full.next(), PartDisplayMode::Summary);
    assert_eq!(PartDisplayMode::Summary.next(), PartDisplayMode::Hidden);
    assert_eq!(PartDisplayMode::Hidden.next(), PartDisplayMode::Full);
    assert_eq!(PartKind::Tool.label(), "Tools");
}
