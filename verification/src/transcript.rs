//! The text of the transcript: each part as lines, each line with the theme
//! slot it is drawn in.
use vstd::prelude::*;

use crate::chat::{ChatDisplayPolicy, PartDisplayMode, part_kind_spec};
use crate::app::{digits, u64_text};
use crate::model::{FilePart, Part, ToolPart, ToolState};

verus! {

/// The theme slot a line is drawn in.
#[derive(Debug, Clone, Copy, PartialEq, Eq, Structural)]
pub enum LineStyle {
    Text,
    TextAccent,
    TextError,
    Selection,
    PartText,
    PartReasoning,
    TextDim,
    ToolIdle,
    ToolRunning,
    ToolDone,
    ToolError,
    StepDivider,
    PartFile,
    PartSnapshot,
    PartPatch,
    PartAgent,
    PartSubtask,
    PartRetry,
    PartCompaction,
}

/// One line of text and how it is drawn.
#[derive(Debug, Clone, PartialEq, Eq)]
pub struct StyledLine {
    pub text: String,
    pub style: LineStyle,
}

/// The text and style of each line.
pub open spec fn lines_view(v: Seq<StyledLine>) -> Seq<(Seq<char>, LineStyle)> {
    v.map_values(|l: StyledLine| (l.text@, l.style))
}

/// `s` cut at each newline, as `str::split('\n')` cuts it: the pieces
/// between the newlines, so text without one is a single piece, and the
/// empty text is one empty piece.
pub open spec fn split_lines(s: Seq<char>) -> Seq<Seq<char>>
    decreases s.len(),
{
    if s.len() == 0 {
        seq![Seq::empty()]
    } else if s.last() == '\n' {
        split_lines(s.drop_last()).push(Seq::empty())
    } else {
        let p = split_lines(s.drop_last());
        p.update(p.len() - 1, p.last().push(s.last()))
    }
}

pub proof fn lemma_split_lines_nonempty(s: Seq<char>)
    ensures
        split_lines(s).len() >= 1,
    decreases s.len(),
{
    if s.len() > 0 {
        lemma_split_lines_nonempty(s.drop_last());
    }
}

/// The pieces of `text` drawn in `style`, the first with `first` in front and
/// the others with `rest`.
pub open spec fn split_with(text: Seq<char>, first: Seq<char>, rest: Seq<char>, style: LineStyle) -> Seq<(Seq<char>, LineStyle)> {
    split_lines(text).map(|i: int, l: Seq<char>| ((if i == 0 { first } else { rest }) + l, style))
}

/// The pieces of `text`, each with `prefix` in front, drawn in `style`.
pub open spec fn prefixed_lines(text: Seq<char>, prefix: Seq<char>, style: LineStyle) -> Seq<(Seq<char>, LineStyle)> {
    split_with(text, prefix, prefix, style)
}

/// The lines of `text` as they are, drawn in `style`.
pub open spec fn styled_lines_spec(text: Seq<char>, style: LineStyle) -> Seq<(Seq<char>, LineStyle)> {
    prefixed_lines(text, Seq::empty(), style)
}

pub fn push_line(lines: &mut Vec<StyledLine>, text: String, style: LineStyle)
    ensures
        lines_view(final(lines)@) == lines_view(old(lines)@).push((text@, style)),
{
    lines.push(StyledLine { text, style });
    assert(lines_view(lines@) =~= lines_view(old(lines)@).push((text@, style)));
}

/// Appends the pieces of `text`, the first with `first` in front and the
/// others with `rest`.
pub fn push_split_lines(lines: &mut Vec<StyledLine>, text: &str, first: &str, rest: &str, style: LineStyle)
    ensures
        lines_view(final(lines)@) == lines_view(old(lines)@) + split_with(text@, first@, rest@, style),
{
    let cs = crate::text::chars_of(text);
    let mut done: Vec<StyledLine> = Vec::new();
    let mut cur = String::new();
    let mut i: usize = 0;
    assert(split_with(cs@.take(0), first@, rest@, style) =~= seq![(first@ + Seq::<char>::empty(), style)]);
    assert(cur@ =~= Seq::<char>::empty());
    while i < cs.len()
        invariant
            i <= cs@.len(),
            cs@ == text@,
            lines_view(done@).push(((if done@.len() == 0 { first@ } else { rest@ }) + cur@, style))
                == split_with(cs@.take(i as int), first@, rest@, style),
        decreases cs@.len() - i,
    {
        let c = cs[i];
        let ghost pfx = if done@.len() == 0 { first@ } else { rest@ };
        proof {
            let t = cs@.take(i + 1);
            assert(t.drop_last() =~= cs@.take(i as int));
            assert(t.last() == c);
            lemma_split_lines_nonempty(t.drop_last());
        }
        if c == '\n' {
            let mut line = if done.len() == 0 { first.to_owned() } else { rest.to_owned() };
            line.append(cur.as_str());
            push_line(&mut done, line, style);
            cur = String::new();
            proof {
                let t = cs@.take(i + 1);
                let q = split_with(t.drop_last(), first@, rest@, style);
                assert(split_with(t, first@, rest@, style) =~= q.push((rest@ + Seq::<char>::empty(), style)));
                assert(lines_view(done@).push((rest@ + cur@, style)) =~= q.push((rest@ + Seq::<char>::empty(), style)));
            }
        } else {
            let ghost old_cur = cur@;
            crate::text::push_char(&mut cur, c);
            proof {
                let t = cs@.take(i + 1);
                let p = split_lines(t.drop_last());
                let q = split_with(t.drop_last(), first@, rest@, style);
                assert(q.len() == lines_view(done@).len() + 1);
                assert(q.last() == (pfx + old_cur, style));
                assert(q.last().0 == pfx + p.last());
                assert(pfx + p.last().push(c) =~= (pfx + p.last()).push(c));
                assert(pfx + cur@ =~= (pfx + old_cur).push(c));
                assert(split_with(t, first@, rest@, style) =~= q.update(q.len() - 1, (pfx + cur@, style)));
                assert(lines_view(done@).push((pfx + cur@, style)) =~= lines_view(done@).push((pfx + old_cur, style)).update(q.len() - 1, (pfx + cur@, style)));
            }
        }
        i = i + 1;
    }
    let mut line = if done.len() == 0 { first.to_owned() } else { rest.to_owned() };
    line.append(cur.as_str());
    push_line(&mut done, line, style);
    assert(cs@.take(cs@.len() as int) =~= cs@);
    let mut k: usize = 0;
    let ghost base = lines_view(lines@);
    while k < done.len()
        invariant
            k <= done@.len(),
            lines_view(lines@) == base + lines_view(done@).take(k as int),
            base == lines_view(old(lines)@),
        decreases done@.len() - k,
    {
        let l = done[k].text.clone();
        let st = done[k].style;
        push_line(lines, l, st);
        assert(lines_view(done@).take(k + 1) =~= lines_view(done@).take(k as int).push((done@[k as int].text@, done@[k as int].style)));
        k = k + 1;
    }
    assert(lines_view(done@).take(done@.len() as int) =~= lines_view(done@));
}

/// The lines of a reasoning part shown in full: the first after
/// "... reasoning: ", the others indented; a placeholder line when empty.
pub open spec fn reasoning_lines_spec(text: Seq<char>, style: LineStyle) -> Seq<(Seq<char>, LineStyle)> {
    if text.len() == 0 {
        seq![("... reasoning"@, style)]
    } else {
        split_with(text, "... reasoning: "@, "    "@, style)
    }
}

/// "  label: value", when there is a value that is not empty.
pub open spec fn optional_line_spec(label: Seq<char>, value: Option<Seq<char>>, style: LineStyle) -> Seq<(Seq<char>, LineStyle)> {
    match value {
        Some(v) => if v.len() > 0 {
            seq![("  "@ + label + ": "@ + v, style)]
        } else {
            Seq::empty()
        },
        None => Seq::empty(),
    }
}

/// "  label:" and then "    key: value" for each entry; nothing when empty.
pub open spec fn map_lines_spec(label: Seq<char>, values: Seq<(String, String)>, style: LineStyle) -> Seq<(Seq<char>, LineStyle)> {
    if values.len() == 0 {
        Seq::empty()
    } else {
        seq![("  "@ + label + ":"@, style)] + values.map_values(
            |kv: (String, String)| ("    "@ + kv.0@ + ": "@ + kv.1@, style),
        )
    }
}

/// "  label:" and then each line of `text` indented; nothing when empty.
pub open spec fn text_block_spec(label: Seq<char>, text: Seq<char>, style: LineStyle) -> Seq<(Seq<char>, LineStyle)> {
    if text.len() == 0 {
        Seq::empty()
    } else {
        seq![("  "@ + label + ":"@, style)] + prefixed_lines(text, "    "@, style)
    }
}

/// The contents of an optional string.
pub open spec fn opt_seq(o: Option<String>) -> Option<Seq<char>> {
    match o {
        Some(s) => Some(s@),
        None => None,
    }
}

/// A string that is not empty, as an option.
pub open spec fn nonempty_spec(s: Seq<char>) -> Option<Seq<char>> {
    if s.len() == 0 {
        None
    } else {
        Some(s)
    }
}

/// Appends one line.
pub fn push_text(lines: &mut Vec<StyledLine>, text: &str, style: LineStyle)
    ensures
        lines_view(final(lines)@) == lines_view(old(lines)@).push((text@, style)),
{
    push_line(lines, text.to_owned(), style);
}

/// Appends "  label: value" when there is a value that is not empty.
pub fn push_optional_line(lines: &mut Vec<StyledLine>, label: &str, value: &Option<String>, style: LineStyle)
    ensures
        lines_view(final(lines)@) == lines_view(old(lines)@) + optional_line_spec(label@, opt_seq(*value), style),
{
    match value {
        Some(v) => {
            if !v.as_str().is_empty() {
                let mut t = "  ".to_owned();
                t.append(label);
                t.append(": ");
                t.append(v.as_str());
                push_line(lines, t, style);
                assert(lines_view(lines@) =~= lines_view(old(lines)@) + optional_line_spec(label@, opt_seq(*value), style));
            } else {
                assert(lines_view(lines@) =~= lines_view(old(lines)@) + optional_line_spec(label@, opt_seq(*value), style));
            }
        },
        None => {
            assert(lines_view(lines@) =~= lines_view(old(lines)@) + optional_line_spec(label@, opt_seq(*value), style));
        },
    }
}

/// Appends "  label:" and a line per entry, when there are entries.
pub fn push_map_lines(lines: &mut Vec<StyledLine>, label: &str, values: &Vec<(String, String)>, style: LineStyle)
    ensures
        lines_view(final(lines)@) == lines_view(old(lines)@) + map_lines_spec(label@, values@, style),
{
    if values.len() == 0 {
        assert(lines_view(lines@) =~= lines_view(old(lines)@) + map_lines_spec(label@, values@, style));
        return;
    }
    let mut head = "  ".to_owned();
    head.append(label);
    head.append(":");
    push_line(lines, head, style);
    let ghost base = lines_view(lines@);
    let ghost f = |kv: (String, String)| ("    "@ + kv.0@ + ": "@ + kv.1@, style);
    let mut i: usize = 0;
    while i < values.len()
        invariant
            i <= values@.len(),
            lines_view(lines@) == base + values@.take(i as int).map_values(f),
            f == (|kv: (String, String)| ("    "@ + kv.0@ + ": "@ + kv.1@, style)),
        decreases values@.len() - i,
    {
        let mut t = "    ".to_owned();
        t.append(values[i].0.as_str());
        t.append(": ");
        t.append(values[i].1.as_str());
        push_line(lines, t, style);
        assert(values@.take(i + 1).map_values(f) =~= values@.take(i as int).map_values(f).push(f(values@[i as int])));
        i = i + 1;
    }
    assert(values@.take(values@.len() as int) =~= values@);
    assert(lines_view(lines@) =~= lines_view(old(lines)@) + map_lines_spec(label@, values@, style));
}

/// Appends "  label:" and the lines of `text` indented, when there is text.
pub fn push_text_block(lines: &mut Vec<StyledLine>, label: &str, text: &str, style: LineStyle)
    ensures
        lines_view(final(lines)@) == lines_view(old(lines)@) + text_block_spec(label@, text@, style),
{
    if text.is_empty() {
        assert(lines_view(lines@) =~= lines_view(old(lines)@) + text_block_spec(label@, text@, style));
        return;
    }
    let mut head = "  ".to_owned();
    head.append(label);
    head.append(":");
    push_line(lines, head, style);
    push_split_lines(lines, text, "    ", "    ", style);
    assert(lines_view(lines@) =~= lines_view(old(lines)@) + text_block_spec(label@, text@, style));
}

/// The lines of `text` as they are.
pub fn styled_lines(text: &str, style: LineStyle) -> (r: Vec<StyledLine>)
    ensures
        lines_view(r@) == styled_lines_spec(text@, style),
{
    let mut lines: Vec<StyledLine> = Vec::new();
    assert(lines_view(lines@) =~= Seq::<(Seq<char>, LineStyle)>::empty());
    push_split_lines(&mut lines, text, "", "", style);
    proof {
        reveal_strlit("");
        assert(""@ =~= Seq::<char>::empty());
    }
    assert(lines_view(lines@) =~= styled_lines_spec(text@, style));
    lines
}

/// The lines of a reasoning part shown in full.
pub fn reasoning_lines(text: &str, style: LineStyle) -> (r: Vec<StyledLine>)
    ensures
        lines_view(r@) == reasoning_lines_spec(text@, style),
{
    let mut lines: Vec<StyledLine> = Vec::new();
    if text.is_empty() {
        push_text(&mut lines, "... reasoning", style);
        assert(lines_view(lines@) =~= reasoning_lines_spec(text@, style));
        return lines;
    }
    assert(lines_view(lines@) =~= Seq::<(Seq<char>, LineStyle)>::empty());
    push_split_lines(&mut lines, text, "... reasoning: ", "    ", style);
    assert(lines_view(lines@) =~= reasoning_lines_spec(text@, style));
    lines
}

/// The icon, status word and style of a tool's state.
pub open spec fn tool_status(state: ToolState) -> (Seq<char>, Seq<char>, LineStyle) {
    match state {
        ToolState::Pending { .. } => ("..."@, "pending"@, LineStyle::ToolIdle),
        ToolState::Running { .. } => (">>>"@, "running"@, LineStyle::ToolRunning),
        ToolState::Completed { .. } => ("[ok]"@, "done"@, LineStyle::ToolDone),
        ToolState::Error { .. } => ("[!!]"@, "error"@, LineStyle::ToolError),
    }
}

/// What names an attached file: its file name, else its URL.
pub open spec fn file_label(f: FilePart) -> Seq<char> {
    match f.filename {
        Some(n) => n@,
        None => f.url@,
    }
}

/// Two lines per attachment: its label and type, then its URL.
pub open spec fn attachment_lines(files: Seq<FilePart>) -> Seq<(Seq<char>, LineStyle)>
    decreases files.len(),
{
    if files.len() == 0 {
        Seq::empty()
    } else {
        let f = files.last();
        attachment_lines(files.drop_last()) + seq![
            ("  attachment: "@ + file_label(f) + " ("@ + f.mime@ + ")"@, LineStyle::TextDim),
            ("    "@ + f.url@, LineStyle::TextDim),
        ]
    }
}

/// The lines of a tool call: in summary one line with its status (and
/// title, when it has one); otherwise that line without the title, then its
/// details.
pub open spec fn tool_lines_spec(part: ToolPart, mode: PartDisplayMode) -> Seq<(Seq<char>, LineStyle)> {
    let icon = tool_status(part.state).0;
    let status = tool_status(part.state).1;
    let style = tool_status(part.state).2;
    let head = icon + " "@ + part.tool@ + " - "@ + status;
    let dim = LineStyle::TextDim;
    if mode == PartDisplayMode::Summary {
        let label = match part.state {
            ToolState::Completed { title, .. } => head + ": "@ + title@,
            ToolState::Running { title, .. } => match title {
                Some(t) => head + ": "@ + t@,
                None => head,
            },
            _ => head,
        };
        seq![(label, style)]
    } else {
        seq![(head, style)] + match part.state {
            ToolState::Pending { input, raw } => map_lines_spec("input"@, input@, dim)
                + optional_line_spec("raw"@, nonempty_spec(raw@), dim),
            ToolState::Running { input, title, metadata, .. } => optional_line_spec(
                "title"@,
                opt_seq(title),
                dim,
            ) + map_lines_spec("input"@, input@, dim) + match metadata {
                Some(m) => map_lines_spec("metadata"@, m@, dim),
                None => Seq::empty(),
            },
            ToolState::Completed { input, output, title, metadata, attachments, .. } => optional_line_spec(
                "title"@,
                nonempty_spec(title@),
                dim,
            ) + map_lines_spec("input"@, input@, dim) + map_lines_spec("metadata"@, metadata@, dim)
                + text_block_spec("output"@, output@, style) + attachment_lines(attachments@),
            ToolState::Error { input, error, metadata } => map_lines_spec("input"@, input@, dim)
                + match metadata {
                Some(m) => map_lines_spec("metadata"@, m@, dim),
                None => Seq::empty(),
            } + text_block_spec("error"@, error@, style),
        }
    }
}

/// A copy of a string when it is not empty.
fn nonempty(value: &String) -> (r: Option<String>)
    ensures
        opt_seq(r) == nonempty_spec(value@),
{
    if value.as_str().is_empty() {
        None
    } else {
        Some(value.clone())
    }
}

fn push_attachments(lines: &mut Vec<StyledLine>, files: &Vec<FilePart>)
    ensures
        lines_view(final(lines)@) == lines_view(old(lines)@) + attachment_lines(files@),
{
    let mut i: usize = 0;
    while i < files.len()
        invariant
            i <= files@.len(),
            lines_view(lines@) == lines_view(old(lines)@) + attachment_lines(files@.take(i as int)),
        decreases files@.len() - i,
    {
        let f = &files[i];
        let label: &str = match &f.filename {
            Some(n) => n.as_str(),
            None => f.url.as_str(),
        };
        let mut a = "  attachment: ".to_owned();
        a.append(label);
        a.append(" (");
        a.append(f.mime.as_str());
        a.append(")");
        push_line(lines, a, LineStyle::TextDim);
        let mut u = "    ".to_owned();
        u.append(f.url.as_str());
        push_line(lines, u, LineStyle::TextDim);
        proof {
            let t = files@.take(i + 1);
            assert(t.drop_last() =~= files@.take(i as int));
            assert(t.last() == *f);
        }
        assert(lines_view(lines@) =~= lines_view(old(lines)@) + attachment_lines(files@.take(i + 1)));
        i = i + 1;
    }
    assert(files@.take(files@.len() as int) =~= files@);
}

/// The lines of a tool call (see `tool_lines_spec`).
pub fn tool_lines(part: &ToolPart, mode: PartDisplayMode) -> (r: Vec<StyledLine>)
    ensures
        lines_view(r@) == tool_lines_spec(*part, mode),
{
    let (icon, status, style): (&str, &str, LineStyle) = match &part.state {
        ToolState::Pending { .. } => ("...", "pending", LineStyle::ToolIdle),
        ToolState::Running { .. } => (">>>", "running", LineStyle::ToolRunning),
        ToolState::Completed { .. } => ("[ok]", "done", LineStyle::ToolDone),
        ToolState::Error { .. } => ("[!!]", "error", LineStyle::ToolError),
    };
    let mut head = icon.to_owned();
    head.append(" ");
    head.append(part.tool.as_str());
    head.append(" - ");
    head.append(status);
    let mut lines: Vec<StyledLine> = Vec::new();
    let dim = LineStyle::TextDim;
    if mode == PartDisplayMode::Summary {
        let label = match &part.state {
            ToolState::Completed { title, .. } => {
                let mut l = head.clone();
                l.append(": ");
                l.append(title.as_str());
                l
            },
            ToolState::Running { title, .. } => match title {
                Some(t) => {
                    let mut l = head.clone();
                    l.append(": ");
                    l.append(t.as_str());
                    l
                },
                None => head.clone(),
            },
            _ => head.clone(),
        };
        push_line(&mut lines, label, style);
        assert(lines_view(lines@) =~= tool_lines_spec(*part, mode));
        return lines;
    }
    push_line(&mut lines, head, style);
    let ghost first = lines_view(lines@);
    match &part.state {
        ToolState::Pending { input, raw } => {
            push_map_lines(&mut lines, "input", input, dim);
            push_optional_line(&mut lines, "raw", &nonempty(raw), dim);
        },
        ToolState::Running { input, title, metadata, .. } => {
            push_optional_line(&mut lines, "title", title, dim);
            push_map_lines(&mut lines, "input", input, dim);
            match metadata {
                Some(m) => push_map_lines(&mut lines, "metadata", m, dim),
                None => {},
            }
        },
        ToolState::Completed { input, output, title, metadata, attachments, .. } => {
            push_optional_line(&mut lines, "title", &nonempty(title), dim);
            push_map_lines(&mut lines, "input", input, dim);
            push_map_lines(&mut lines, "metadata", metadata, dim);
            push_text_block(&mut lines, "output", output.as_str(), style);
            push_attachments(&mut lines, attachments);
        },
        ToolState::Error { input, error, metadata } => {
            push_map_lines(&mut lines, "input", input, dim);
            match metadata {
                Some(m) => push_map_lines(&mut lines, "metadata", m, dim),
                None => {},
            }
            push_text_block(&mut lines, "error", error.as_str(), style);
        },
    }
    assert(lines_view(lines@) =~= tool_lines_spec(*part, mode));
    lines
}

/// "true" or "false".
pub open spec fn bool_text(b: bool) -> Seq<char> {
    if b {
        "true"@
    } else {
        "false"@
    }
}

/// The lines a part shows in `mode`: nothing when hidden; otherwise a first
/// line naming it, and in full mode its details.
pub open spec fn part_lines_spec(part: Part, mode: PartDisplayMode) -> Seq<(Seq<char>, LineStyle)> {
    let dim = LineStyle::TextDim;
    let summary = mode == PartDisplayMode::Summary;
    if mode == PartDisplayMode::Hidden {
        Seq::empty()
    } else {
        match part {
            Part::Text(tp) => styled_lines_spec(tp.text@, LineStyle::PartText),
            Part::Reasoning(rp) => if mode == PartDisplayMode::Full {
                reasoning_lines_spec(rp.text@, LineStyle::PartReasoning)
            } else {
                seq![("reasoning hidden"@, dim)]
            },
            Part::Tool(tp) => tool_lines_spec(tp, mode),
            Part::StepStart(sp) => seq![("[step] started"@, LineStyle::StepDivider)] + if summary {
                Seq::empty()
            } else {
                optional_line_spec("snapshot"@, opt_seq(sp.snapshot), dim) + optional_line_spec(
                    "session"@,
                    opt_seq(sp.session_id),
                    dim,
                )
            },
            Part::StepFinish(sp) => seq![("[step] finished"@, LineStyle::StepDivider)] + if summary {
                Seq::empty()
            } else {
                optional_line_spec("reason"@, opt_seq(sp.reason), dim) + optional_line_spec(
                    "snapshot"@,
                    opt_seq(sp.snapshot),
                    dim,
                ) + optional_line_spec("session"@, opt_seq(sp.session_id), dim)
            },
            Part::File(fp) => seq![("[file] "@ + file_label(fp), LineStyle::PartFile)] + if summary {
                Seq::empty()
            } else {
                seq![("  url: "@ + fp.url@, dim), ("  mime: "@ + fp.mime@, dim)]
            },
            Part::Snapshot(sp) => seq![("[snapshot] "@ + sp.snapshot@, LineStyle::PartSnapshot)],
            Part::Patch(pp) => seq![
                ("[patch] "@ + digits(pp.files@.len()) + " files "@ + pp.hash@, LineStyle::PartPatch),
            ] + if mode == PartDisplayMode::Full {
                pp.files@.map_values(|f: String| ("  "@ + f@, dim))
            } else {
                Seq::empty()
            },
            Part::Agent(ap) => seq![("[agent] "@ + ap.name@, LineStyle::PartAgent)],
            Part::Subtask(st) => if summary {
                seq![("[subtask] "@ + st.description@, LineStyle::PartSubtask)]
            } else {
                seq![
                    ("[subtask] "@ + st.description@ + " ("@ + st.agent@ + ")"@, LineStyle::PartSubtask),
                ] + text_block_spec("prompt"@, st.prompt@, dim)
            },
            Part::Retry(rp) => seq![("[retry #"@ + digits(rp.attempt as nat) + "]"@, LineStyle::PartRetry)],
            Part::Compaction(cp) => {
                let label = if cp.overflow == Some(true) {
                    "compaction (overflow)"@
                } else {
                    "compaction"@
                };
                if summary {
                    seq![(label, LineStyle::PartCompaction)]
                } else {
                    seq![(label + ": auto="@ + bool_text(cp.auto), LineStyle::PartCompaction)]
                }
            },
        }
    }
}

/// The lines a part shows in `mode` (see `part_lines_spec`).
pub fn render_part_with_mode(part: &Part, mode: PartDisplayMode) -> (r: Vec<StyledLine>)
    ensures
        lines_view(r@) == part_lines_spec(*part, mode),
{
    let mut lines: Vec<StyledLine> = Vec::new();
    assert(lines_view(lines@) =~= Seq::<(Seq<char>, LineStyle)>::empty());
    if mode == PartDisplayMode::Hidden {
        return lines;
    }
    let dim = LineStyle::TextDim;
    let summary = mode == PartDisplayMode::Summary;
    match part {
        Part::Text(tp) => {
            return styled_lines(tp.text.as_str(), LineStyle::PartText);
        },
        Part::Reasoning(rp) => {
            if mode == PartDisplayMode::Full {
                return reasoning_lines(rp.text.as_str(), LineStyle::PartReasoning);
            }
            push_text(&mut lines, "reasoning hidden", dim);
        },
        Part::Tool(tp) => {
            return tool_lines(tp, mode);
        },
        Part::StepStart(sp) => {
            push_text(&mut lines, "[step] started", LineStyle::StepDivider);
            if !summary {
                push_optional_line(&mut lines, "snapshot", &sp.snapshot, dim);
                push_optional_line(&mut lines, "session", &sp.session_id, dim);
            }
        },
        Part::StepFinish(sp) => {
            push_text(&mut lines, "[step] finished", LineStyle::StepDivider);
            if !summary {
                push_optional_line(&mut lines, "reason", &sp.reason, dim);
                push_optional_line(&mut lines, "snapshot", &sp.snapshot, dim);
                push_optional_line(&mut lines, "session", &sp.session_id, dim);
            }
        },
        Part::File(fp) => {
            let label: &str = match &fp.filename {
                Some(n) => n.as_str(),
                None => fp.url.as_str(),
            };
            let mut t = "[file] ".to_owned();
            t.append(label);
            push_line(&mut lines, t, LineStyle::PartFile);
            if !summary {
                let mut u = "  url: ".to_owned();
                u.append(fp.url.as_str());
                push_line(&mut lines, u, dim);
                let mut m = "  mime: ".to_owned();
                m.append(fp.mime.as_str());
                push_line(&mut lines, m, dim);
            }
        },
        Part::Snapshot(sp) => {
            let mut t = "[snapshot] ".to_owned();
            t.append(sp.snapshot.as_str());
            push_line(&mut lines, t, LineStyle::PartSnapshot);
        },
        Part::Patch(pp) => {
            let count = u64_text(pp.files.len() as u64);
            let mut t = "[patch] ".to_owned();
            t.append(count.as_str());
            t.append(" files ");
            t.append(pp.hash.as_str());
            push_line(&mut lines, t, LineStyle::PartPatch);
            if mode == PartDisplayMode::Full {
                let ghost base = lines_view(lines@);
                let ghost f = |x: String| ("  "@ + x@, dim);
                let mut i: usize = 0;
                while i < pp.files.len()
                    invariant
                        i <= pp.files@.len(),
                        lines_view(lines@) == base + pp.files@.take(i as int).map_values(f),
                        f == (|x: String| ("  "@ + x@, dim)),
                    decreases pp.files@.len() - i,
                {
                    let mut l = "  ".to_owned();
                    l.append(pp.files[i].as_str());
                    push_line(&mut lines, l, dim);
                    assert(pp.files@.take(i + 1).map_values(f) =~= pp.files@.take(i as int).map_values(f).push(f(pp.files@[i as int])));
                    i = i + 1;
                }
                assert(pp.files@.take(pp.files@.len() as int) =~= pp.files@);
            }
        },
        Part::Agent(ap) => {
            let mut t = "[agent] ".to_owned();
            t.append(ap.name.as_str());
            push_line(&mut lines, t, LineStyle::PartAgent);
        },
        Part::Subtask(st) => {
            let mut t = "[subtask] ".to_owned();
            t.append(st.description.as_str());
            if summary {
                push_line(&mut lines, t, LineStyle::PartSubtask);
            } else {
                t.append(" (");
                t.append(st.agent.as_str());
                t.append(")");
                push_line(&mut lines, t, LineStyle::PartSubtask);
                push_text_block(&mut lines, "prompt", st.prompt.as_str(), dim);
            }
        },
        Part::Retry(rp) => {
            let n = u64_text(rp.attempt);
            let mut t = "[retry #".to_owned();
            t.append(n.as_str());
            t.append("]");
            push_line(&mut lines, t, LineStyle::PartRetry);
        },
        Part::Compaction(cp) => {
            let label: &str = if cp.overflow == Some(true) {
                "compaction (overflow)"
            } else {
                "compaction"
            };
            if summary {
                push_text(&mut lines, label, LineStyle::PartCompaction);
            } else {
                let mut t = label.to_owned();
                t.append(": auto=");
                t.append(if cp.auto { "true" } else { "false" });
                push_line(&mut lines, t, LineStyle::PartCompaction);
            }
        },
    }
    assert(lines_view(lines@) =~= part_lines_spec(*part, mode));
    lines
}

/// The lines a part shows under a display policy.
pub fn render_part_with_policy(part: &Part, policy: &ChatDisplayPolicy) -> (r: Vec<StyledLine>)
    ensures
        lines_view(r@) == part_lines_spec(*part, policy.mode_spec(part_kind_spec(*part))),
{
    render_part_with_mode(part, policy.mode_for_part(part))
}

/// A shown tool part opens with a line that names the tool and its state, in
/// the state's style: "[!!] tool - error" for a failed call, "[ok] tool -
/// done" for a finished one (its title may follow), ">>> tool - running"
/// while it runs (its title may follow) and "... tool - pending" before it
/// starts. A hidden part shows nothing.
pub proof fn law_tool_head_shows_state(part: ToolPart, mode: PartDisplayMode)
    ensures
        mode == PartDisplayMode::Hidden ==> part_lines_spec(Part::Tool(part), mode).len() == 0,
        mode != PartDisplayMode::Hidden ==> part_lines_spec(Part::Tool(part), mode).len() >= 1,
        mode != PartDisplayMode::Hidden && part.state is Error ==> part_lines_spec(Part::Tool(part), mode)[0]
            == ("[!!]"@ + " "@ + part.tool@ + " - "@ + "error"@, LineStyle::ToolError),
        mode == PartDisplayMode::Summary ==> part_lines_spec(Part::Tool(part), mode).len() == 1,
        mode == PartDisplayMode::Full && part.state is Completed ==> part_lines_spec(Part::Tool(part), mode)[0].0
            == "[ok]"@ + " "@ + part.tool@ + " - "@ + "done"@,
        mode == PartDisplayMode::Full && part.state is Running ==> part_lines_spec(Part::Tool(part), mode)[0].0
            == ">>>"@ + " "@ + part.tool@ + " - "@ + "running"@,
        part.state matches ToolState::Completed { title, .. } ==> (mode == PartDisplayMode::Summary
            ==> part_lines_spec(Part::Tool(part), mode)[0].0 == "[ok]"@ + " "@ + part.tool@ + " - "@ + "done"@
            + ": "@ + title@),
        part.state matches ToolState::Running { title, .. } ==> (mode == PartDisplayMode::Summary
            ==> part_lines_spec(Part::Tool(part), mode)[0].0 == match title {
            Some(x) => ">>>"@ + " "@ + part.tool@ + " - "@ + "running"@ + ": "@ + x@,
            None => ">>>"@ + " "@ + part.tool@ + " - "@ + "running"@,
        }),
        part.state matches ToolState::Completed { output, .. } ==> (mode == PartDisplayMode::Full
            && output@.len() > 0 ==> exists|j: int|
            1 <= j < part_lines_spec(Part::Tool(part), mode).len() && #[trigger] part_lines_spec(
                Part::Tool(part),
                mode,
            )[j] == ("  "@ + "output"@ + ":"@, LineStyle::ToolDone)),
        part.state matches ToolState::Error { error, .. } ==> (mode == PartDisplayMode::Full && error@.len()
            > 0 ==> exists|j: int|
            1 <= j < part_lines_spec(Part::Tool(part), mode).len() && #[trigger] part_lines_spec(
                Part::Tool(part),
                mode,
            )[j] == ("  "@ + "error"@ + ":"@, LineStyle::ToolError)),
        mode != PartDisplayMode::Hidden && part.state is Pending ==> part_lines_spec(Part::Tool(part), mode)[0]
            == ("..."@ + " "@ + part.tool@ + " - "@ + "pending"@, LineStyle::ToolIdle),
        mode != PartDisplayMode::Hidden && part.state is Completed ==> {
            &&& ("[ok]"@ + " "@ + part.tool@ + " - "@ + "done"@).is_prefix_of(
                part_lines_spec(Part::Tool(part), mode)[0].0,
            )
            &&& part_lines_spec(Part::Tool(part), mode)[0].1 == LineStyle::ToolDone
        },
        mode != PartDisplayMode::Hidden && part.state is Running ==> {
            &&& (">>>"@ + " "@ + part.tool@ + " - "@ + "running"@).is_prefix_of(
                part_lines_spec(Part::Tool(part), mode)[0].0,
            )
            &&& part_lines_spec(Part::Tool(part), mode)[0].1 == LineStyle::ToolRunning
        },
{
    if mode != PartDisplayMode::Hidden {
        let lines = part_lines_spec(Part::Tool(part), mode);
        let head = tool_status(part.state).0 + " "@ + part.tool@ + " - "@ + tool_status(part.state).1;
        assert(lines[0].0.subrange(0, head.len() as int) =~= head);
        if mode == PartDisplayMode::Full {
            match part.state {
                ToolState::Error { input, error, metadata } => {
                    if error@.len() > 0 {
                        let dim = LineStyle::TextDim;
                        let before = seq![(head, LineStyle::ToolError)] + map_lines_spec("input"@, input@, dim)
                            + match metadata {
                            Some(m) => map_lines_spec("metadata"@, m@, dim),
                            None => Seq::empty(),
                        };
                        let block = text_block_spec("error"@, error@, LineStyle::ToolError);
                        assert(lines =~= before + block);
                        assert(lines[before.len() as int] == block[0]);
                    }
                },
                ToolState::Completed { input, output, title, metadata, attachments, .. } => {
                    if output@.len() > 0 {
                        let dim = LineStyle::TextDim;
                        let before = seq![(head, LineStyle::ToolDone)] + optional_line_spec(
                            "title"@,
                            nonempty_spec(title@),
                            dim,
                        ) + map_lines_spec("input"@, input@, dim) + map_lines_spec("metadata"@, metadata@, dim);
                        let block = text_block_spec("output"@, output@, LineStyle::ToolDone);
                        assert(lines =~= before + block + attachment_lines(attachments@));
                        assert(lines[before.len() as int] == block[0]);
                    }
                },
                _ => {},
            }
        }
    }
}

} // verus!
