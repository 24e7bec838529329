use ocpncord_tui::model::{
    Part, PartIdentity, ReasoningPart, RetryPart, StepFinishPart, StepStartPart, TextPart, ToolPart,
    ToolState,
};
use ocpncord_tui::part_renderer::render_part;
use ocpncord_tui::transcript::LineStyle;

fn tool(name: &str, state: ToolState) -> Part {
    Part::Tool(ToolPart { identity: PartIdentity::empty(), call_id: String::new(), tool: name.into(), state })
}

#[test]
fn part_renderer_text_part_renders_with_part_text_style() {
    let part = Part::Text(TextPart { identity: PartIdentity::empty(), text: "hello world".into() });
    let lines = render_part(&part, true);
    assert_eq!(lines.len(), 1);
    assert_eq!(lines[0].text, "hello world");
    assert_eq!(lines[0].style, LineStyle::PartText);
}

#[test]
fn part_renderer_text_part_newlines_render_as_distinct_lines() {
    let part = Part::Text(TextPart { identity: PartIdentity::empty(), text: "hello\nworld".into() });
    let lines = render_part(&part, true);
    assert_eq!(lines.len(), 2);
    assert_eq!(lines[0].text, "hello");
    assert_eq!(lines[1].text, "world");
}

#[test]
fn part_renderer_reasoning_part_shows_full_when_details_on() {
    let part = Part::Reasoning(ReasoningPart { identity: PartIdentity::empty(), text: "thinking...".into() });
    let lines = render_part(&part, true);
    assert_eq!(lines.len(), 1);
    assert_eq!(lines[0].text, "thinking...");
}

#[test]
fn part_renderer_reasoning_part_collapsed_when_details_off() {
    let part = Part::Reasoning(ReasoningPart { identity: PartIdentity::empty(), text: "thinking...".into() });
    let lines = render_part(&part, false);
    assert_eq!(lines.len(), 1);
    assert_eq!(lines[0].text, "reasoning hidden");
}

#[test]
fn part_renderer_tool_pending_shows_idle_style() {
    let part = tool("read", ToolState::Pending { input: Vec::new(), raw: "".into() });
    let lines = render_part(&part, true);
    assert_eq!(lines.len(), 1);
    assert!(lines[0].text.contains("read"));
    assert_eq!(lines[0].style, LineStyle::ToolIdle);
}

#[test]
fn part_renderer_tool_running_shows_running_style() {
    let part = tool("write", ToolState::Running { input: Vec::new(), title: None, metadata: None, start: None });
    let lines = render_part(&part, true);
    assert_eq!(lines.len(), 1);
    assert!(lines[0].text.contains("write"));
    assert_eq!(lines[0].style, LineStyle::ToolRunning);
}

#[test]
fn part_renderer_tool_completed_shows_output() {
    let part = tool(
        "grep",
        ToolState::Completed {
            input: Vec::new(),
            output: "found 3 matches".into(),
            title: "grep".into(),
            metadata: Vec::new(),
            start: 0,
            end: 1,
            attachments: Vec::new(),
        },
    );
    let lines = render_part(&part, true);
    assert_eq!(lines.len(), 1);
    assert!(lines[0].text.contains("found 3 matches"));
    assert_eq!(lines[0].text, "[ok] grep - done: found 3 matches");
}

#[test]
fn part_renderer_tool_error_shows_error_message() {
    let part = tool("curl", ToolState::Error { input: Vec::new(), error: "timeout".into(), metadata: None });
    let lines = render_part(&part, true);
    assert_eq!(lines.len(), 1);
    assert!(lines[0].text.contains("timeout"));
}

#[test]
fn step_start_renders_divider() {
    let part = Part::StepStart(StepStartPart { identity: PartIdentity::empty(), snapshot: None, session_id: None });
    let lines = render_part(&part, true);
    assert_eq!(lines.len(), 1);
    assert_eq!(lines[0].text, "--- step start ---");
}

#[test]
fn step_start_with_snapshot() {
    let part = Part::StepStart(StepStartPart {
        identity: PartIdentity::empty(),
        snapshot: Some("planning".into()),
        session_id: None,
    });
    let lines = render_part(&part, true);
    assert_eq!(lines.len(), 1);
    assert!(lines[0].text.contains("planning"));
}

#[test]
fn step_finish_with_reason() {
    let part = Part::StepFinish(StepFinishPart {
        identity: PartIdentity::empty(),
        reason: Some("done".into()),
        snapshot: None,
        session_id: None,
    });
    let lines = render_part(&part, true);
    assert_eq!(lines.len(), 1);
    assert!(lines[0].text.contains("done"));
}

#[test]
fn step_finish_without_reason() {
    let part = Part::StepFinish(StepFinishPart {
        identity: PartIdentity::empty(),
        reason: None,
        snapshot: None,
        session_id: None,
    });
    let lines = render_part(&part, true);
    assert_eq!(lines.len(), 1);
}

#[test]
fn retry_shows_attempt_number() {
    let part = Part::Retry(RetryPart { identity: PartIdentity::empty(), attempt: 42 });
    let lines = render_part(&part, false);
    assert_eq!(lines[0].text, "[retry #42]");
}
