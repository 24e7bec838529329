//! The compact part renderer: one line per part (text split at newlines),
//! with details shown or collapsed.
use vstd::prelude::*;

use crate::app::{digits, u64_text};
use crate::model::{Part, ToolState};
use crate::transcript::{
    file_label, lines_view, push_split_lines, push_text, split_with, styled_lines,
    styled_lines_spec, tool_status, LineStyle, StyledLine,
};

verus! {

/// The summary of a tool call: its icon and name, and, with details, the
/// output of a completed call or the error of a failed one.
pub open spec fn tool_summary(icon: Seq<char>, tool: Seq<char>, state: ToolState, show_details: bool) -> Seq<char> {
    let head = icon + " "@ + tool;
    if !show_details {
        head
    } else {
        match state {
            ToolState::Completed { output, .. } => head + " - done: "@ + output@,
            ToolState::Error { error, .. } => head + " - error: "@ + error@,
            _ => head,
        }
    }
}

/// The lines the compact renderer draws for a part.
pub open spec fn compact_lines_spec(part: Part, show_details: bool) -> Seq<(Seq<char>, LineStyle)> {
    let dim = LineStyle::TextDim;
    match part {
        Part::Text(tp) => styled_lines_spec(tp.text@, LineStyle::PartText),
        Part::Reasoning(rp) => if show_details {
            styled_lines_spec(rp.text@, LineStyle::PartReasoning)
        } else {
            seq![("reasoning hidden"@, dim)]
        },
        Part::Tool(tp) => {
            let summary = tool_summary(tool_status(tp.state).0, tp.tool@, tp.state, show_details);
            if show_details {
                split_with(summary, Seq::empty(), Seq::empty(), tool_status(tp.state).2)
            } else {
                seq![(summary, tool_status(tp.state).2)]
            }
        },
        Part::StepStart(sp) => seq![
            (match sp.snapshot {
                Some(s) => "--- step start - "@ + s@ + " ---"@,
                None => "--- step start ---"@,
            }, LineStyle::StepDivider),
        ],
        Part::StepFinish(fp) => seq![
            (match fp.reason {
                Some(r) => "--- step finish - "@ + r@ + " ---"@,
                None => "--- step finish ---"@,
            }, LineStyle::StepDivider),
        ],
        Part::File(fp) => seq![("[file] "@ + file_label(fp), LineStyle::PartText)],
        Part::Snapshot(sp) => seq![("[snapshot] "@ + sp.snapshot@, dim)],
        Part::Patch(pp) => seq![("[patch] "@ + digits(pp.files@.len()) + " files"@, dim)],
        Part::Agent(ap) => seq![("[agent] "@ + ap.name@, dim)],
        Part::Subtask(st) => seq![("[subtask] "@ + st.description@, dim)],
        Part::Retry(rp) => seq![("[retry #"@ + digits(rp.attempt as nat) + "]"@, dim)],
        Part::Compaction(cp) => seq![
            (if cp.overflow == Some(true) {
                "compaction (overflow)"@
            } else {
                "compaction"@
            }, dim),
        ],
    }
}

fn one_line(text: String, style: LineStyle) -> (r: Vec<StyledLine>)
    ensures
        lines_view(r@) == seq![(text@, style)],
{
    let mut v: Vec<StyledLine> = Vec::new();
    v.push(StyledLine { text, style });
    assert(lines_view(v@) =~= seq![(v@[0].text@, style)]);
    v
}

/// Converts a part into lines; `show_details` false collapses reasoning and
/// tool calls to a single line.
pub fn render_part(part: &Part, show_details: bool) -> (r: Vec<StyledLine>)
    ensures
        lines_view(r@) == compact_lines_spec(*part, show_details),
{
    let dim = LineStyle::TextDim;
    match part {
        Part::Text(tp) => styled_lines(tp.text.as_str(), LineStyle::PartText),
        Part::Reasoning(rp) => {
            if show_details {
                styled_lines(rp.text.as_str(), LineStyle::PartReasoning)
            } else {
                one_line("reasoning hidden".to_owned(), dim)
            }
        },
        Part::Tool(tp) => {
            let (icon, style): (&str, LineStyle) = match &tp.state {
                ToolState::Pending { .. } => ("...", LineStyle::ToolIdle),
                ToolState::Running { .. } => (">>>", LineStyle::ToolRunning),
                ToolState::Completed { .. } => ("[ok]", LineStyle::ToolDone),
                ToolState::Error { .. } => ("[!!]", LineStyle::ToolError),
            };
            let mut summary = icon.to_owned();
            summary.append(" ");
            summary.append(tp.tool.as_str());
            if show_details {
                match &tp.state {
                    ToolState::Completed { output, .. } => {
                        summary.append(" - done: ");
                        summary.append(output.as_str());
                    },
                    ToolState::Error { error, .. } => {
                        summary.append(" - error: ");
                        summary.append(error.as_str());
                    },
                    _ => {},
                }
                let mut lines: Vec<StyledLine> = Vec::new();
                assert(lines_view(lines@) =~= Seq::<(Seq<char>, LineStyle)>::empty());
                push_split_lines(&mut lines, summary.as_str(), "", "", style);
                proof {
                    reveal_strlit("");
                    assert(""@ =~= Seq::<char>::empty());
                }
                assert(lines_view(lines@) =~= compact_lines_spec(*part, show_details));
                lines
            } else {
                one_line(summary, style)
            }
        },
        Part::StepStart(sp) => {
            let text = match &sp.snapshot {
                Some(s) => {
                    let mut t = "--- step start - ".to_owned();
                    t.append(s.as_str());
                    t.append(" ---");
                    t
                },
                None => "--- step start ---".to_owned(),
            };
            one_line(text, LineStyle::StepDivider)
        },
        Part::StepFinish(fp) => {
            let text = match &fp.reason {
                Some(r) => {
                    let mut t = "--- step finish - ".to_owned();
                    t.append(r.as_str());
                    t.append(" ---");
                    t
                },
                None => "--- step finish ---".to_owned(),
            };
            one_line(text, LineStyle::StepDivider)
        },
        Part::File(fp) => {
            let mut t = "[file] ".to_owned();
            match &fp.filename {
                Some(n) => t.append(n.as_str()),
                None => t.append(fp.url.as_str()),
            }
            one_line(t, LineStyle::PartText)
        },
        Part::Snapshot(sp) => {
            let mut t = "[snapshot] ".to_owned();
            t.append(sp.snapshot.as_str());
            one_line(t, dim)
        },
        Part::Patch(pp) => {
            let n = u64_text(pp.files.len() as u64);
            let mut t = "[patch] ".to_owned();
            t.append(n.as_str());
            t.append(" files");
            one_line(t, dim)
        },
        Part::Agent(ap) => {
            let mut t = "[agent] ".to_owned();
            t.append(ap.name.as_str());
            one_line(t, dim)
        },
        Part::Subtask(st) => {
            let mut t = "[subtask] ".to_owned();
            t.append(st.description.as_str());
            one_line(t, dim)
        },
        Part::Retry(rp) => {
            let n = u64_text(rp.attempt);
            let mut t = "[retry #".to_owned();
            t.append(n.as_str());
            t.append("]");
            one_line(t, dim)
        },
        Part::Compaction(cp) => {
            let label: &str = if cp.overflow == Some(true) {
                "compaction (overflow)"
            } else {
                "compaction"
            };
            one_line(label.to_owned(), dim)
        },
    }
}

} // verus!
