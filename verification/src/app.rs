//! Application-level actions, submissions, commands and notifications.
use vstd::prelude::*;
use std::collections::BTreeMap;
use std::collections::VecDeque;

use crate::chat::{
    insert_entry, keys_ordered, lookup, user_loaded_message, ChatDisplayPolicy, ChatState, LoadedMessage,
    PartDisplayMode, PartKind,
};
use crate::command_palette::CommandPaletteModal;
use crate::event::{Event, KeyEvent, Scancode};
use crate::key_chord::{chord_step, outcome_matches, ChordOutcome, KeyChord};
use crate::modal::{
    DisplayConfigModal, HelpModal, ModelPickerModal, PermissionModal, QuestionModal,
    ServerConfigModal, SessionListModal,
};
use crate::model::{
    same_model_list, same_permission_request, same_question_request, Agent, AgentMode, EventEnvelope, EventScope, ModelSummary, PermissionRequest, Pty, PtyStatus,
    QuestionRequest, ServerConnection, Session, SyncHistoryRequest, Todo,
};
use crate::prompt_bar::{input_mode_of, InputMode, PromptBar};
use crate::screen;
use crate::user_work::{first_where, lemma_first_where};
use crate::text::{
    chars_of, concat, concat3, copy_opt_string, debug_quoted, debug_text, has_prefix, str_eq,
    string_of_range, trim, trim_spec, trim_start, trim_start_spec,
};

verus! {

/// A toast notification shown briefly in the top-right corner.
#[derive(Debug, Clone, PartialEq, Eq)]
pub struct Toast {
    pub title: Option<String>,
    pub message: String,
    pub variant: ToastVariant,
    pub created_at: u64,
    pub duration: u64,
}

impl Toast {
    /// A field-by-field copy.
    pub fn duplicate(&self) -> (r: Toast)
        ensures
            r == *self,
    {
        Toast {
            title: copy_opt_string(&self.title),
            message: self.message.clone(),
            variant: self.variant,
            created_at: self.created_at,
            duration: self.duration,
        }
    }
}

#[derive(Debug, Clone, Copy, PartialEq, Eq, Structural)]
pub enum ToastVariant {
    Info,
    Success,
    Warning,
    Error,
}

/// At most this many toasts are kept.
pub const MAX_STORED_TOASTS: usize = 16;

/// At most this many toasts are drawn at once.
pub const MAX_VISIBLE_TOASTS: usize = 5;

/// What the user (or a widget) asks the application to do.
#[derive(Debug, Clone, PartialEq, Eq)]
pub enum Action {
    NoAction,
    Quit,
    OpenModal(ModalId),
    CloseModal,
    CycleAgent,
    ExecuteCommand(String),
    Interrupt,
    SendMessage,
    OpenPalette,
    ScrollUp,
    ScrollDown,
    ScrollPageUp,
    ScrollPageDown,
    SelectModel(String),
    LoadSession(String),
    DeleteSession(String),
    RenameSession(String, String),
    AbortSession(String),
    OpenTerminal(String),
    CloseTerminal,
    ToggleSidePanel,
    ToggleSidePanelTab(Tab),
    SidePanelSelectTab(Tab),
    SetDisplayMode(PartKind, PartDisplayMode),
    ReplyPermission(String, String, PermissionReplyAction),
    ReplyQuestion(String, String, Vec<Vec<String>>),
    RejectQuestion(String),
    TestServerUrl(String),
    ApplyServerUrl(String),
    ApplyServerConnection(ServerConnection),
}

/// The full-screen view that is showing.
#[derive(Debug, Clone, Copy, PartialEq, Eq, Structural)]
pub enum AppMode {
    StartPage,
    Chat,
    Terminal,
}

#[derive(Debug, Clone, Copy, PartialEq, Eq, Structural)]
pub enum ModalId {
    SessionList,
    Help,
    ModelPicker,
    CommandPalette,
    ServerConfig,
    DisplayConfig,
    PermissionApproval,
    QuestionApproval,
}

/// Tabs of the side panel.
#[derive(Debug, Clone, Copy, PartialEq, Eq, Structural)]
pub enum Tab {
    Diagnostics,
    Todos,
    Pane,
}

#[derive(Debug, Clone, Copy, PartialEq, Eq, Structural)]
pub enum PermissionReplyAction {
    Once,
    Always,
    Reject,
}

#[derive(Debug, Clone, Copy, PartialEq, Eq, Structural)]
pub enum SubmissionKind {
    Prompt,
    Command,
}

/// A prompt or shell command on its way to the server.
#[derive(Debug, Clone, PartialEq, Eq)]
pub struct Submission {
    pub kind: SubmissionKind,
    pub session_id: String,
    /// The text as the user typed it.
    pub text: String,
    /// The text handed to the server.
    pub execution_text: String,
    pub agent: String,
}

/// The text a shell command runs: leading whitespace and one leading `!`
/// removed, then leading whitespace again. Text without a `!` after its
/// leading whitespace is only trimmed.
pub open spec fn command_execution_text(text: Seq<char>) -> Seq<char> {
    let t = trim_start_spec(text);
    if t.len() > 0 && t[0] == '!' {
        trim_start_spec(t.drop_first())
    } else {
        trim_start_spec(text)
    }
}

impl Submission {
    /// A prompt, sent as typed.
    pub fn prompt(session_id: String, text: String, agent: String) -> (r: Submission)
        ensures
            r.kind == SubmissionKind::Prompt,
            r.session_id == session_id,
            r.text == text,
            r.execution_text@ == text@,
            r.agent == agent,
    {
        Submission {
            kind: SubmissionKind::Prompt,
            session_id,
            execution_text: text.clone(),
            text,
            agent,
        }
    }

    /// A shell command; the server runs the text without its leading `!`.
    pub fn command(session_id: String, text: String, agent: String) -> (r: Submission)
        ensures
            r.kind == SubmissionKind::Command,
            r.session_id == session_id,
            r.text == text,
            r.execution_text@ == command_execution_text(text@),
            r.agent == agent,
    {
        let t = trim_start(text.as_str());
        let cs = chars_of(t.as_str());
        let base = if cs.len() > 0 && cs[0] == '!' {
            string_of_range(cs.as_slice(), 1, cs.len())
        } else {
            text.clone()
        };
        proof {
            if cs.len() > 0 && cs@[0] == '!' {
                assert(base@ == t@.drop_first());
            }
        }
        let execution_text = trim_start(base.as_str());
        Submission { kind: SubmissionKind::Command, session_id, execution_text, text, agent }
    }
}

/// A single language-server diagnostic.
#[derive(Debug, Clone, PartialEq, Eq)]
pub struct LspDiagnostic {
    pub message: String,
    pub severity: Option<String>,
    pub line: u32,
    pub character: u32,
}

/// One line of terminal output.
#[derive(Debug, Clone, PartialEq, Eq)]
pub struct TermLine {
    pub content: String,
    pub is_error: bool,
}

/// Commands the client handles itself rather than sending to the agent.
#[derive(Debug, Clone, Copy, PartialEq, Eq, Structural)]
pub enum TuiCommand {
    Models,
    NewSession,
    Sessions,
    Help,
    Todos,
    Diagnostics,
    Pty,
    Server,
    Display,
    Abort,
    Dispose,
    Upgrade,
    Exit,
}

/// The client command named by `s` once surrounding whitespace is removed.
pub open spec fn tui_command_of(s: Seq<char>) -> Option<TuiCommand> {
    let t = trim_spec(s);
    if t == "/models"@ || t == "/config"@ {
        Some(TuiCommand::Models)
    } else if t == "/new"@ {
        Some(TuiCommand::NewSession)
    } else if t == "/sessions"@ {
        Some(TuiCommand::Sessions)
    } else if t == "/help"@ {
        Some(TuiCommand::Help)
    } else if t == "/todos"@ {
        Some(TuiCommand::Todos)
    } else if t == "/diagnostics"@ {
        Some(TuiCommand::Diagnostics)
    } else if t == "/pty"@ {
        Some(TuiCommand::Pty)
    } else if t == "/server"@ {
        Some(TuiCommand::Server)
    } else if t == "/display"@ {
        Some(TuiCommand::Display)
    } else if t == "/abort"@ {
        Some(TuiCommand::Abort)
    } else if t == "/dispose"@ {
        Some(TuiCommand::Dispose)
    } else if t == "/upgrade"@ {
        Some(TuiCommand::Upgrade)
    } else if t == "/exit"@ {
        Some(TuiCommand::Exit)
    } else {
        None
    }
}

/// Each client command is recognised by its name once surrounding whitespace
/// is removed, whatever that whitespace is: "/models" and "/config" open the
/// model picker, and "/new", "/sessions", "/help", "/todos", "/diagnostics",
/// "/pty", "/server", "/display", "/abort", "/dispose", "/upgrade" and "/exit"
/// name their own command. Text that names no command is no command.
pub proof fn law_client_command_names(s: Seq<char>)
    ensures
        trim_spec(s) == "/models"@ || trim_spec(s) == "/config"@ <==> tui_command_of(s) == Some(
            TuiCommand::Models,
        ),
        trim_spec(s) == "/new"@ <==> tui_command_of(s) == Some(TuiCommand::NewSession),
        trim_spec(s) == "/sessions"@ <==> tui_command_of(s) == Some(TuiCommand::Sessions),
        trim_spec(s) == "/help"@ <==> tui_command_of(s) == Some(TuiCommand::Help),
        trim_spec(s) == "/todos"@ <==> tui_command_of(s) == Some(TuiCommand::Todos),
        trim_spec(s) == "/diagnostics"@ <==> tui_command_of(s) == Some(TuiCommand::Diagnostics),
        trim_spec(s) == "/pty"@ <==> tui_command_of(s) == Some(TuiCommand::Pty),
        trim_spec(s) == "/server"@ <==> tui_command_of(s) == Some(TuiCommand::Server),
        trim_spec(s) == "/display"@ <==> tui_command_of(s) == Some(TuiCommand::Display),
        trim_spec(s) == "/abort"@ <==> tui_command_of(s) == Some(TuiCommand::Abort),
        trim_spec(s) == "/dispose"@ <==> tui_command_of(s) == Some(TuiCommand::Dispose),
        trim_spec(s) == "/upgrade"@ <==> tui_command_of(s) == Some(TuiCommand::Upgrade),
        trim_spec(s) == "/exit"@ <==> tui_command_of(s) == Some(TuiCommand::Exit),
{
    reveal_strlit("/models");
    reveal_strlit("/config");
    reveal_strlit("/new");
    reveal_strlit("/sessions");
    reveal_strlit("/help");
    reveal_strlit("/todos");
    reveal_strlit("/diagnostics");
    reveal_strlit("/pty");
    reveal_strlit("/server");
    reveal_strlit("/display");
    reveal_strlit("/abort");
    reveal_strlit("/dispose");
    reveal_strlit("/upgrade");
    reveal_strlit("/exit");
    let t = trim_spec(s);
    assert("/exit"@[1] != "/help"@[1]);
    assert("/todos"@[1] != "/abort"@[1]);
    assert("/server"@[1] != "/models"@[1]);
    assert("/server"@[1] != "/config"@[1]);
    assert("/models"@[1] != "/config"@[1]);
    assert("/new"@[1] != "/pty"@[1]);
    assert("/display"@[5] != "/dispose"@[5]);
    if t == "/diagnostics"@ {
        assert(t.len() == 12);
        assert(tui_command_of(s) == Some(TuiCommand::Diagnostics));
    }
    if t == "/server"@ {
        assert(t.len() == 7);
        assert(t != "/models"@ && t != "/config"@);
        assert(tui_command_of(s) == Some(TuiCommand::Server));
    }
    assert("/upgrade"@[1] != "/display"@[1]);
    assert("/upgrade"@[1] != "/dispose"@[1]);
}

impl TuiCommand {
    /// Recognises a client command; `None` for any other text.
    pub fn parse(text: &str) -> (r: Option<TuiCommand>)
        ensures
            r == tui_command_of(text@),
    {
        let t = trim(text);
        let t = t.as_str();
        if str_eq(t, "/models") || str_eq(t, "/config") {
            Some(TuiCommand::Models)
        } else if str_eq(t, "/new") {
            Some(TuiCommand::NewSession)
        } else if str_eq(t, "/sessions") {
            Some(TuiCommand::Sessions)
        } else if str_eq(t, "/help") {
            Some(TuiCommand::Help)
        } else if str_eq(t, "/todos") {
            Some(TuiCommand::Todos)
        } else if str_eq(t, "/diagnostics") {
            Some(TuiCommand::Diagnostics)
        } else if str_eq(t, "/pty") {
            Some(TuiCommand::Pty)
        } else if str_eq(t, "/server") {
            Some(TuiCommand::Server)
        } else if str_eq(t, "/display") {
            Some(TuiCommand::Display)
        } else if str_eq(t, "/abort") {
            Some(TuiCommand::Abort)
        } else if str_eq(t, "/dispose") {
            Some(TuiCommand::Dispose)
        } else if str_eq(t, "/upgrade") {
            Some(TuiCommand::Upgrade)
        } else if str_eq(t, "/exit") {
            Some(TuiCommand::Exit)
        } else {
            None
        }
    }
}

/// How a client command was issued: typed into the prompt, or through an
/// action (shortcut or palette).
#[derive(Debug, Clone, Copy, PartialEq, Eq, Structural)]
pub struct TuiCommandContext {
    pub clear_prompt: bool,
    pub toggle_panels: bool,
}

impl TuiCommandContext {
    /// Typed into the prompt: the prompt is cleared and panels are opened, not toggled.
    pub fn typed() -> (r: TuiCommandContext)
        ensures
            r.clear_prompt && !r.toggle_panels,
    {
        TuiCommandContext { clear_prompt: true, toggle_panels: false }
    }

    /// Issued by an action: the prompt is kept and panels toggle.
    pub fn action() -> (r: TuiCommandContext)
        ensures
            !r.clear_prompt && r.toggle_panels,
    {
        TuiCommandContext { clear_prompt: false, toggle_panels: true }
    }
}

/// The text shown for a toast in a row `max_width` characters wide.
pub open spec fn truncated(display: Seq<char>, max_width: nat) -> Seq<char> {
    if max_width == 0 {
        Seq::empty()
    } else if display.len() <= max_width {
        display
    } else if max_width <= 3 {
        display.take(max_width as int)
    } else {
        display.take(max_width - 3) + "..."@
    }
}

/// Cuts toast text to `max_width` characters, ending in "..." when cut and
/// there is room for it.
pub fn truncate_toast_text(display: &str, max_width: usize) -> (r: String)
    ensures
        r@ == truncated(display@, max_width as nat),
        r@.len() <= max_width,
{
    if max_width == 0 {
        return String::new();
    }
    let chars = chars_of(display);
    if chars.len() <= max_width {
        return display.to_owned();
    }
    if max_width <= 3 {
        return string_of_range(chars.as_slice(), 0, max_width);
    }
    let mut truncated = string_of_range(chars.as_slice(), 0, max_width - 3);
    truncated.append("...");
    proof {
        reveal_strlit("...");
    }
    truncated
}

/// Index of the first terminal line shown, for `line_count` lines, a view
/// `height` rows tall, scrolled `scroll` lines up from the bottom.
pub open spec fn terminal_start(line_count: int, height: int, scroll: int) -> int {
    let bottom = if line_count > height {
        line_count - height
    } else {
        0
    };
    if bottom > scroll {
        bottom - scroll
    } else {
        0
    }
}

/// Index of the first terminal line shown.
pub fn terminal_start_index(line_count: usize, height: u16, scroll: u16) -> (r: usize)
    ensures
        r == terminal_start(line_count as int, height as int, scroll as int),
        r <= line_count,
{
    line_count.saturating_sub(height as usize).saturating_sub(scroll as usize)
}

/// Adds a toast, dropping the oldest when the store is full.
pub fn push_toast(toasts: &mut VecDeque<Toast>, toast: Toast)
    requires
        old(toasts)@.len() <= MAX_STORED_TOASTS,
    ensures
        final(toasts)@.len() <= MAX_STORED_TOASTS,
        final(toasts)@.last() == toast,
        old(toasts)@.len() < MAX_STORED_TOASTS ==> final(toasts)@ == old(toasts)@.push(toast),
        old(toasts)@.len() == MAX_STORED_TOASTS ==> final(toasts)@ == old(toasts)@.drop_first().push(
            toast,
        ),
{
    if toasts.len() >= MAX_STORED_TOASTS {
        toasts.pop_front();
        assert(toasts@ =~= old(toasts)@.drop_first());
    }
    toasts.push_back(toast);
}

/// A toast is still shown at `tick` while no more than its duration has passed.
pub open spec fn toast_alive(toast: Toast, tick: u64) -> bool {
    (if tick >= toast.created_at {
        tick - toast.created_at
    } else {
        0
    }) <= toast.duration
}

/// Drops the toasts that have expired at `tick`, keeping the others in order.
pub fn expire_toasts(toasts: &mut VecDeque<Toast>, tick: u64)
    ensures
        final(toasts)@ == old(toasts)@.filter(|t: Toast| toast_alive(t, tick)),
{
    let ghost pred = |t: Toast| toast_alive(t, tick);
    let mut kept: VecDeque<Toast> = VecDeque::new();
    let mut i: usize = 0;
    while i < toasts.len()
        invariant
            i <= toasts@.len(),
            toasts@ == old(toasts)@,
            kept@ == toasts@.take(i as int).filter(pred),
            pred == (|t: Toast| toast_alive(t, tick)),
        decreases toasts@.len() - i,
    {
        let t = toasts[i].duplicate();
        let alive = t.created_at > tick || tick - t.created_at <= t.duration;
        proof {
            assert(alive == pred(t));
            let s = toasts@.take(i + 1);
            assert(s.drop_last() == toasts@.take(i as int));
            assert(s.last() == t);
            reveal_with_fuel(Seq::<Toast>::filter, 1);
            assert(s.filter(pred) == if pred(t) {
                s.drop_last().filter(pred).push(t)
            } else {
                s.drop_last().filter(pred)
            });
        }
        if alive {
            kept.push_back(t);
        }
        i += 1;
    }
    assert(toasts@.take(toasts@.len() as int) == toasts@);
    *toasts = kept;
}


/// The decimal digit `d` (below ten).
pub open spec fn digit_char(d: nat) -> char {
    if d == 0 { '0' } else if d == 1 { '1' } else if d == 2 { '2' } else if d == 3 { '3' }
    else if d == 4 { '4' } else if d == 5 { '5' } else if d == 6 { '6' } else if d == 7 { '7' }
    else if d == 8 { '8' } else { '9' }
}

/// The decimal digits of `n`, most significant first.
pub open spec fn digits(n: nat) -> Seq<char>
    decreases n,
{
    if n < 10 {
        seq![digit_char(n)]
    } else {
        digits(n / 10).push(digit_char(n % 10))
    }
}

/// `n` written in decimal, with a leading `-` when negative.
pub open spec fn decimal_text(n: int) -> Seq<char> {
    if n < 0 {
        seq!['-'] + digits((-n) as nat)
    } else {
        digits(n as nat)
    }
}

fn digit(d: u64) -> (r: char)
    requires
        d < 10,
    ensures
        r == digit_char(d as nat),
{
    if d == 0 { '0' } else if d == 1 { '1' } else if d == 2 { '2' } else if d == 3 { '3' }
    else if d == 4 { '4' } else if d == 5 { '5' } else if d == 6 { '6' } else if d == 7 { '7' }
    else if d == 8 { '8' } else { '9' }
}

fn push_digits(s: &mut String, n: u64)
    ensures
        final(s)@ == old(s)@ + digits(n as nat),
    decreases n,
{
    if n >= 10 {
        push_digits(s, n / 10);
    }
    let ghost mid = s@;
    crate::text::push_char(s, digit(n % 10));
    proof {
        if n >= 10 {
            assert(s@ =~= old(s)@ + digits(n as nat));
        } else {
            assert(s@ =~= old(s)@ + digits(n as nat));
        }
    }
}

/// `n` in decimal.
pub fn u64_text(n: u64) -> (r: String)
    ensures
        r@ == digits(n as nat),
{
    let mut s = String::new();
    push_digits(&mut s, n);
    assert(s@ =~= digits(n as nat));
    s
}

/// `n` in decimal.
pub fn int_text(n: i32) -> (r: String)
    ensures
        r@ == decimal_text(n as int),
{
    let mut s = String::new();
    if n < 0 {
        crate::text::push_char(&mut s, '-');
        let m: i64 = -(n as i64);
        push_digits(&mut s, m as u64);
    } else {
        push_digits(&mut s, n as u64);
    }
    s
}

/// The most lines of output the terminal pane keeps.
pub const MAX_TERMINAL_LINES: usize = 2000;

/// State of the terminal pane: at most `MAX_TERMINAL_LINES` lines of output.
#[derive(Debug, Clone, PartialEq, Eq)]
pub struct TerminalPane {
    pub pty_id: Option<String>,
    pub title: String,
    pub command: String,
    pub lines: VecDeque<TermLine>,
    pub scroll: u16,
    pub status: PtyStatus,
    pub exit_code: Option<i32>,
}

impl TerminalPane {
    /// An empty, running pane.
    pub fn new() -> (r: TerminalPane)
        ensures
            r.pty_id is None,
            r.title@.len() == 0,
            r.command@.len() == 0,
            r.lines@.len() == 0,
            r.scroll == 0,
            r.status == PtyStatus::Running,
            r.exit_code is None,
    {
        TerminalPane {
            pty_id: None,
            title: String::new(),
            command: String::new(),
            lines: VecDeque::new(),
            scroll: 0,
            status: PtyStatus::Running,
            exit_code: None,
        }
    }

    /// Appends a line of output; when the pane is full, the oldest line
    /// leaves first.
    pub fn push_line(&mut self, line: TermLine)
        ensures
            old(self).lines@.len() < MAX_TERMINAL_LINES ==> final(self).lines@ == old(self).lines@.push(line),
            old(self).lines@.len() >= MAX_TERMINAL_LINES ==> final(self).lines@ == old(self).lines@.drop_first().push(
                line,
            ),
            old(self).lines@.len() <= MAX_TERMINAL_LINES ==> final(self).lines@.len() <= MAX_TERMINAL_LINES,
            *final(self) == (TerminalPane { lines: final(self).lines, ..*old(self) }),
    {
        if self.lines.len() >= MAX_TERMINAL_LINES {
            self.lines.pop_front();
        }
        self.lines.push_back(line);
    }

    /// Shows the pseudo-terminal `pty`.
    pub fn set_from_pty(&mut self, pty: &Pty)
        ensures
            *final(self) == (TerminalPane {
                pty_id: Some(pty.id),
                title: pty.title,
                command: pty.command,
                status: pty.status,
                ..*old(self)
            }),
    {
        self.pty_id = Some(pty.id.clone());
        self.title = pty.title.clone();
        self.command = pty.command.clone();
        self.status = pty.status;
    }
}

impl Default for TerminalPane {
    fn default() -> (r: TerminalPane)
        ensures
            r.pty_id is None,
            r.lines@.len() == 0,
            r.scroll == 0,
            r.status == PtyStatus::Running,
            r.exit_code is None,
    {
        TerminalPane::new()
    }
}

/// Why a session is being created.
#[derive(Debug, Clone, PartialEq, Eq)]
pub enum CreateSessionPurpose {
    /// To send this text once the session exists.
    Send { text: String, mode: InputMode, agent: String },
    /// To start an empty chat.
    NewChat,
}

/// The request a blocking dialog answers.
#[derive(Debug, Clone, PartialEq, Eq)]
pub enum ActiveBlockingPrompt {
    Permission(String),
    Question(String),
}

/// A reply to a permission request.
#[derive(Debug, Clone, PartialEq, Eq)]
pub struct PermissionReply {
    pub session_id: String,
    pub request_id: String,
    pub reply: String,
}

/// The answers to a question request.
#[derive(Debug, Clone, PartialEq, Eq)]
pub struct QuestionReply {
    pub session_id: String,
    pub request_id: String,
    pub answers: Vec<Vec<String>>,
}

/// Work for the server, carried out by the driver in order.
#[derive(Debug, Clone, PartialEq, Eq)]
pub enum BackendOp {
    LoadAgents,
    Subscribe,
    SyncHistory { request: SyncHistoryRequest },
    CreateSession { title: String, session_directory: String, purpose: CreateSessionPurpose },
    Submit { submission: Submission },
    ListSessions,
    LoadSession { session_id: String },
    DeleteSession { session_id: String },
    OpenModelPicker { cached_models: Option<Vec<ModelSummary>> },
    TestServerUrl { url: String },
    ApplyServerUrl { url: String },
    SelectModel { model: String },
    ReplyPermission { reply: PermissionReply, message: String },
    ReplyQuestion { reply: QuestionReply },
    RejectQuestion { request_id: String },
    AbortSession { session_id: String },
    Dispose,
    Upgrade,
    RenameSession { session_id: String, title: String },
}

/// The dialog that is open, with its state.
pub enum ActiveModal {
    SessionList(SessionListModal),
    Help(HelpModal),
    ModelPicker(ModelPickerModal),
    CommandPalette(CommandPaletteModal),
    ServerConfig(ServerConfigModal),
    DisplayConfig(DisplayConfigModal),
    Permission(PermissionModal),
    Question(QuestionModal),
}

impl ActiveModal {
    /// The dialog's own invariant holds.
    pub open spec fn wf(&self) -> bool {
        match self {
            ActiveModal::ModelPicker(m) => m.wf(),
            ActiveModal::CommandPalette(m) => m.wf(),
            ActiveModal::Question(m) => m.wf(),
            _ => true,
        }
    }

    /// Which dialog this is.
    pub open spec fn id(&self) -> ModalId {
        match self {
            ActiveModal::SessionList(_) => ModalId::SessionList,
            ActiveModal::Help(_) => ModalId::Help,
            ActiveModal::ModelPicker(_) => ModalId::ModelPicker,
            ActiveModal::CommandPalette(_) => ModalId::CommandPalette,
            ActiveModal::ServerConfig(_) => ModalId::ServerConfig,
            ActiveModal::DisplayConfig(_) => ModalId::DisplayConfig,
            ActiveModal::Permission(_) => ModalId::PermissionApproval,
            ActiveModal::Question(_) => ModalId::QuestionApproval,
        }
    }

    /// Which dialog this is.
    pub fn modal_id(&self) -> (r: ModalId)
        ensures
            r == self.id(),
    {
        match self {
            ActiveModal::SessionList(_) => ModalId::SessionList,
            ActiveModal::Help(_) => ModalId::Help,
            ActiveModal::ModelPicker(_) => ModalId::ModelPicker,
            ActiveModal::CommandPalette(_) => ModalId::CommandPalette,
            ActiveModal::ServerConfig(_) => ModalId::ServerConfig,
            ActiveModal::DisplayConfig(_) => ModalId::DisplayConfig,
            ActiveModal::Permission(_) => ModalId::PermissionApproval,
            ActiveModal::Question(_) => ModalId::QuestionApproval,
        }
    }

    /// What an event does to the dialog `s`, giving `t` and the action `r`:
    /// each dialog as its own `handle_event` states; the palette's pick
    /// becomes an application action.
    pub open spec fn event_handled(s: ActiveModal, t: ActiveModal, event: Event, r: Action) -> bool {
        match (s, t) {
            (ActiveModal::SessionList(a), ActiveModal::SessionList(b)) => SessionListModal::event_handled(
                a,
                b,
                event,
                r,
            ),
            (ActiveModal::Help(a), ActiveModal::Help(b)) => HelpModal::event_handled(a, b, event, r),
            (ActiveModal::ModelPicker(a), ActiveModal::ModelPicker(b)) => ModelPickerModal::event_handled(
                a,
                b,
                event,
                r,
            ),
            (ActiveModal::CommandPalette(a), ActiveModal::CommandPalette(b)) => exists|p: screen::Action|
                CommandPaletteModal::event_handled(a, b, event, p) && is_palette_action(p, r),
            (ActiveModal::ServerConfig(a), ActiveModal::ServerConfig(b)) => ServerConfigModal::event_handled(
                a,
                b,
                event,
                r,
            ),
            (ActiveModal::DisplayConfig(a), ActiveModal::DisplayConfig(b)) => DisplayConfigModal::event_handled(
                a,
                b,
                event,
                r,
            ),
            (ActiveModal::Permission(a), ActiveModal::Permission(b)) => PermissionModal::event_handled(
                a,
                b,
                event,
                r,
            ),
            (ActiveModal::Question(a), ActiveModal::Question(b)) => QuestionModal::event_handled(a, b, event, r),
            _ => false,
        }
    }

    /// Hands a key to the dialog.
    pub fn handle_event(&mut self, event: Event) -> (r: Action)
        requires
            old(self).wf(),
        ensures
            final(self).wf(),
            final(self).id() == old(self).id(),
            ActiveModal::event_handled(*old(self), *final(self), event, r),
    {
        match self {
            ActiveModal::SessionList(m) => m.handle_event(event),
            ActiveModal::Help(m) => m.handle_event(event),
            ActiveModal::ModelPicker(m) => m.handle_event(event),
            ActiveModal::CommandPalette(m) => {
                let p = m.handle_event(event);
                let ghost picked = p;
                let r = palette_action(p);
                assert(CommandPaletteModal::event_handled(
                    old(self)->CommandPalette_0,
                    *m,
                    event,
                    picked,
                ));
                r
            },
            ActiveModal::ServerConfig(m) => m.handle_event(event),
            ActiveModal::DisplayConfig(m) => m.handle_event(event),
            ActiveModal::Permission(m) => m.handle_event(event),
            ActiveModal::Question(m) => m.handle_event(event),
        }
    }

    /// The title of each dialog.
    pub open spec fn title_spec(&self) -> Seq<char> {
        match self.id() {
            ModalId::SessionList => "Sessions"@,
            ModalId::Help => "Help"@,
            ModalId::ModelPicker => "Model Picker"@,
            ModalId::CommandPalette => "Command Palette"@,
            ModalId::ServerConfig => "Server Connection"@,
            ModalId::DisplayConfig => "Display"@,
            ModalId::PermissionApproval => "Permission Request"@,
            ModalId::QuestionApproval => "Question"@,
        }
    }

    /// The dialog's title.
    pub fn title(&self) -> (r: &str)
        ensures
            r@ == self.title_spec(),
    {
        match self {
            ActiveModal::SessionList(m) => m.title(),
            ActiveModal::Help(m) => m.title(),
            ActiveModal::ModelPicker(m) => m.title(),
            ActiveModal::CommandPalette(m) => m.title(),
            ActiveModal::ServerConfig(m) => m.title(),
            ActiveModal::DisplayConfig(m) => m.title(),
            ActiveModal::Permission(m) => m.title(),
            ActiveModal::Question(m) => m.title(),
        }
    }
}

fn app_tab(t: screen::Tab) -> (r: Tab)
    ensures
        r == tab_spec(t),
{
    match t {
        screen::Tab::Diagnostics => Tab::Diagnostics,
        screen::Tab::Todos => Tab::Todos,
        screen::Tab::Pane => Tab::Pane,
    }
}

fn app_reply(a: screen::PermissionReplyAction) -> (r: PermissionReplyAction)
    ensures
        r == reply_spec(a),
{
    match a {
        screen::PermissionReplyAction::Once => PermissionReplyAction::Once,
        screen::PermissionReplyAction::Always => PermissionReplyAction::Always,
        screen::PermissionReplyAction::Reject => PermissionReplyAction::Reject,
    }
}

/// The application action for any pick of the command palette but starting a
/// session (see `is_palette_action`): settings open the server dialog,
/// switching to a chat loads that session, and screen switches and the
/// details toggle have no application action.
pub open spec fn palette_action_spec(a: screen::Action) -> Action {
    match a {
        screen::Action::NoAction => Action::NoAction,
        screen::Action::Quit => Action::Quit,
        screen::Action::SwitchScreen(_) => Action::NoAction,
        screen::Action::OpenModal(m) => Action::OpenModal(
            match m {
                screen::ModalId::SessionList => ModalId::SessionList,
                screen::ModalId::Help => ModalId::Help,
                screen::ModalId::ModelPicker => ModalId::ModelPicker,
                screen::ModalId::CommandPalette => ModalId::CommandPalette,
                screen::ModalId::Settings => ModalId::ServerConfig,
                screen::ModalId::PermissionApproval => ModalId::PermissionApproval,
                screen::ModalId::QuestionApproval => ModalId::QuestionApproval,
            },
        ),
        screen::Action::CloseModal => Action::CloseModal,
        screen::Action::CycleAgent => Action::CycleAgent,
        screen::Action::Interrupt => Action::Interrupt,
        screen::Action::SendMessage => Action::SendMessage,
        screen::Action::OpenPalette => Action::OpenPalette,
        screen::Action::ScrollUp => Action::ScrollUp,
        screen::Action::ScrollDown => Action::ScrollDown,
        screen::Action::ScrollPageUp => Action::ScrollPageUp,
        screen::Action::ScrollPageDown => Action::ScrollPageDown,
        screen::Action::ToggleDetails => Action::NoAction,
        screen::Action::SelectModel(s) => Action::SelectModel(s),
        screen::Action::LoadSession(s) => Action::LoadSession(s),
        screen::Action::DeleteSession(s) => Action::DeleteSession(s),
        screen::Action::NewSession => Action::NoAction,
        screen::Action::RenameSession(a, b) => Action::RenameSession(a, b),
        screen::Action::AbortSession(s) => Action::AbortSession(s),
        screen::Action::SwitchToChat(s) => Action::LoadSession(s),
        screen::Action::OpenSettings => Action::OpenModal(ModalId::ServerConfig),
        screen::Action::OpenTerminal(s) => Action::OpenTerminal(s),
        screen::Action::CloseTerminal => Action::CloseTerminal,
        screen::Action::ToggleSidePanel => Action::ToggleSidePanel,
        screen::Action::ToggleSidePanelTab(t) => Action::ToggleSidePanelTab(tab_spec(t)),
        screen::Action::SidePanelSelectTab(t) => Action::SidePanelSelectTab(tab_spec(t)),
        screen::Action::ReplyPermission(a, b, c) => Action::ReplyPermission(a, b, reply_spec(c)),
        screen::Action::ReplyQuestion(a, b, c) => Action::ReplyQuestion(a, b, c),
        screen::Action::RejectQuestion(s) => Action::RejectQuestion(s),
    }
}

/// `r` is the application action for `a`; starting a session becomes the
/// `/new` command, whose text is not a spec-level value.
pub open spec fn is_palette_action(a: screen::Action, r: Action) -> bool {
    if a == screen::Action::NewSession {
        r matches Action::ExecuteCommand(c) && c@ == "/new"@
    } else {
        r == palette_action_spec(a)
    }
}

/// The application tab for a screen tab.
pub open spec fn tab_spec(t: screen::Tab) -> Tab {
    match t {
        screen::Tab::Diagnostics => Tab::Diagnostics,
        screen::Tab::Todos => Tab::Todos,
        screen::Tab::Pane => Tab::Pane,
    }
}

/// The application reply for a screen reply.
pub open spec fn reply_spec(a: screen::PermissionReplyAction) -> PermissionReplyAction {
    match a {
        screen::PermissionReplyAction::Once => PermissionReplyAction::Once,
        screen::PermissionReplyAction::Always => PermissionReplyAction::Always,
        screen::PermissionReplyAction::Reject => PermissionReplyAction::Reject,
    }
}

/// The application action for what the command palette picked (see
/// `is_palette_action`).
pub fn palette_action(a: screen::Action) -> (r: Action)
    ensures
        is_palette_action(a, r),
{
    match a {
        screen::Action::NoAction => Action::NoAction,
        screen::Action::Quit => Action::Quit,
        screen::Action::SwitchScreen(_) => Action::NoAction,
        screen::Action::OpenModal(m) => Action::OpenModal(
            match m {
                screen::ModalId::SessionList => ModalId::SessionList,
                screen::ModalId::Help => ModalId::Help,
                screen::ModalId::ModelPicker => ModalId::ModelPicker,
                screen::ModalId::CommandPalette => ModalId::CommandPalette,
                screen::ModalId::Settings => ModalId::ServerConfig,
                screen::ModalId::PermissionApproval => ModalId::PermissionApproval,
                screen::ModalId::QuestionApproval => ModalId::QuestionApproval,
            },
        ),
        screen::Action::CloseModal => Action::CloseModal,
        screen::Action::CycleAgent => Action::CycleAgent,
        screen::Action::Interrupt => Action::Interrupt,
        screen::Action::SendMessage => Action::SendMessage,
        screen::Action::OpenPalette => Action::OpenPalette,
        screen::Action::ScrollUp => Action::ScrollUp,
        screen::Action::ScrollDown => Action::ScrollDown,
        screen::Action::ScrollPageUp => Action::ScrollPageUp,
        screen::Action::ScrollPageDown => Action::ScrollPageDown,
        screen::Action::ToggleDetails => Action::NoAction,
        screen::Action::SelectModel(s) => Action::SelectModel(s),
        screen::Action::LoadSession(s) => Action::LoadSession(s),
        screen::Action::DeleteSession(s) => Action::DeleteSession(s),
        screen::Action::NewSession => Action::ExecuteCommand("/new".to_owned()),
        screen::Action::RenameSession(a, b) => Action::RenameSession(a, b),
        screen::Action::AbortSession(s) => Action::AbortSession(s),
        screen::Action::SwitchToChat(s) => Action::LoadSession(s),
        screen::Action::OpenSettings => Action::OpenModal(ModalId::ServerConfig),
        screen::Action::OpenTerminal(s) => Action::OpenTerminal(s),
        screen::Action::CloseTerminal => Action::CloseTerminal,
        screen::Action::ToggleSidePanel => Action::ToggleSidePanel,
        screen::Action::ToggleSidePanelTab(t) => Action::ToggleSidePanelTab(app_tab(t)),
        screen::Action::SidePanelSelectTab(t) => Action::SidePanelSelectTab(app_tab(t)),
        screen::Action::ReplyPermission(a, b, c) => Action::ReplyPermission(a, b, app_reply(c)),
        screen::Action::ReplyQuestion(a, b, c) => Action::ReplyQuestion(a, b, c),
        screen::Action::RejectQuestion(s) => Action::RejectQuestion(s),
    }
}

/// A palette pick keeps its meaning as an application action: Exit quits and
/// only Exit does; interrupting, closing, starting a session ("/new"),
/// loading, switching to, selecting, deleting, renaming and aborting keep
/// their kind and their arguments; settings open the server dialog; each
/// dialog opens as itself; permission and question replies keep their
/// answers; and only a pick with no effect in the application does nothing.
pub proof fn law_palette_action_keeps_meaning(a: screen::Action, r: Action)
    requires
        is_palette_action(a, r),
    ensures
        r is Quit <==> a is Quit,
        r is Interrupt <==> a is Interrupt,
        r is CloseModal <==> a is CloseModal,
        r is ExecuteCommand <==> a is NewSession,
        a is NewSession ==> (r matches Action::ExecuteCommand(c) && c@ == "/new"@),
        r is NoAction <==> (a is NoAction || a is SwitchScreen || a is ToggleDetails),
        a matches screen::Action::LoadSession(x) ==> r == Action::LoadSession(x),
        a matches screen::Action::SwitchToChat(x) ==> r == Action::LoadSession(x),
        a matches screen::Action::SelectModel(x) ==> r == Action::SelectModel(x),
        a matches screen::Action::DeleteSession(x) ==> r == Action::DeleteSession(x),
        a matches screen::Action::AbortSession(x) ==> r == Action::AbortSession(x),
        a matches screen::Action::RenameSession(x, y) ==> r == Action::RenameSession(x, y),
        a matches screen::Action::OpenTerminal(x) ==> r == Action::OpenTerminal(x),
        a matches screen::Action::RejectQuestion(x) ==> r == Action::RejectQuestion(x),
        a matches screen::Action::ReplyQuestion(x, y, z) ==> r == Action::ReplyQuestion(x, y, z),
        a matches screen::Action::ReplyPermission(x, y, screen::PermissionReplyAction::Once) ==> r
            == Action::ReplyPermission(x, y, PermissionReplyAction::Once),
        a matches screen::Action::ReplyPermission(x, y, screen::PermissionReplyAction::Always) ==> r
            == Action::ReplyPermission(x, y, PermissionReplyAction::Always),
        a matches screen::Action::ReplyPermission(x, y, screen::PermissionReplyAction::Reject) ==> r
            == Action::ReplyPermission(x, y, PermissionReplyAction::Reject),
        a is OpenSettings ==> r == Action::OpenModal(ModalId::ServerConfig),
        a == screen::Action::OpenModal(screen::ModalId::Settings) ==> r == Action::OpenModal(ModalId::ServerConfig),
        a == screen::Action::OpenModal(screen::ModalId::Help) ==> r == Action::OpenModal(ModalId::Help),
        a == screen::Action::OpenModal(screen::ModalId::SessionList) ==> r == Action::OpenModal(
            ModalId::SessionList,
        ),
        a == screen::Action::OpenModal(screen::ModalId::ModelPicker) ==> r == Action::OpenModal(
            ModalId::ModelPicker,
        ),
        a == screen::Action::OpenModal(screen::ModalId::CommandPalette) ==> r == Action::OpenModal(
            ModalId::CommandPalette,
        ),
{
}


/// The server the client talks to unless told otherwise.
pub const DEFAULT_SERVER_URL: &'static str = "http://localhost:4096";

/// Ticks to wait before subscribing again after the live stream closed.
pub const LIVE_RECONNECT_DELAY_TICKS: u64 = 4;

/// Ticks the response indicator stays on after the last sign of a response.
pub const RESPONSE_INDICATOR_TICKS: u64 = 80;

/// The event scope of a session: its directory and workspace.
pub open spec fn scope_of(session: Option<Session>) -> EventScope {
    match session {
        Some(s) => EventScope { directory: Some(s.directory), workspace: s.workspace_id },
        None => EventScope { directory: None, workspace: None },
    }
}

/// An event belongs to the wanted scope: where both name a directory they
/// agree, else where both name a workspace they agree; an event that names
/// neither matches.
pub open spec fn scope_matches(wanted: EventScope, event: EventScope) -> bool {
    match (wanted.directory, event.directory) {
        (Some(w), Some(e)) => w@ == e@,
        _ => match (wanted.workspace, event.workspace) {
            (Some(w), Some(e)) => w@ == e@,
            _ => true,
        },
    }
}

/// `after` holds, for `key`, the larger of `seq` and what `before` held (0
/// when nothing), and agrees with `before` on every other key.
pub open spec fn sequence_raised(
    before: Seq<(String, u64)>,
    after: Seq<(String, u64)>,
    key: Seq<char>,
    seq: u64,
) -> bool {
    let known: u64 = match lookup(before, key) {
        Some(x) => x,
        None => 0,
    };
    forall|k: Seq<char>|
        #[trigger] lookup(after, k) == if k == key {
            Some(if known >= seq { known } else { seq })
        } else {
            lookup(before, k)
        }
}

/// Raises the known sequence of `key` to at least `seq`.
pub fn raise_sequence(known: &mut Vec<(String, u64)>, key: String, seq: u64)
    ensures
        sequence_raised(old(known)@, final(known)@, key@, seq),
        keys_ordered(old(known)@) ==> keys_ordered(final(known)@),
{
    let current: u64 = match crate::chat::find_key(known, key.as_str()) {
        Some(j) => known[j].1,
        None => 0,
    };
    let next = if current >= seq { current } else { seq };
    insert_entry(known, key, next);
}

/// A copy of a list of known sequences.
pub fn copy_sequences(v: &Vec<(String, u64)>) -> (r: Vec<(String, u64)>)
    ensures
        r@ == v@,
{
    let mut out: Vec<(String, u64)> = Vec::new();
    let mut i: usize = 0;
    while i < v.len()
        invariant
            i <= v@.len(),
            out@ == v@.take(i as int),
        decreases v@.len() - i,
    {
        out.push((v[i].0.clone(), v[i].1));
        assert(out@ =~= v@.take(i + 1));
        i = i + 1;
    }
    assert(v@.take(v@.len() as int) =~= v@);
    out
}

/// The two agents offered when the server offers none.
pub open spec fn is_default_agents(agents: Seq<Agent>) -> bool {
    &&& agents.len() == 2
    &&& agents[0].name@ == "build"@ && agents[0].mode == AgentMode::Primary && agents[0].model is None
    &&& agents[1].name@ == "plan"@ && agents[1].mode == AgentMode::Primary && agents[1].model is None
}

/// The application: what is shown, what is being typed and streamed, and the
/// work waiting for the server.
pub struct AppState {
    pub active_mode: AppMode,
    pub key_chord: KeyChord,
    pub tick: u64,
    pub prompt_bar: PromptBar,
    pub chat_scroll: u16,
    pub active_session: Option<Session>,
    pub draft: Option<String>,
    pub error: Option<String>,
    pub is_streaming: bool,
    pub response_indicator_until_tick: u64,
    pub chat: ChatState,
    pub active_submission: Option<Submission>,
    pub queued_submissions: Vec<Submission>,
    /// The last sequence number seen of each aggregate.
    pub sync_known_sequences: Vec<(String, u64)>,
    pub live_reconnect_at_tick: Option<u64>,
    /// Work for the server, oldest first.
    pub pending_ops: VecDeque<BackendOp>,
    pub active_modal: Option<ActiveModal>,
    pub active_blocking_prompt: Option<ActiveBlockingPrompt>,
    pub agents: Vec<Agent>,
    pub active_agent: usize,
    pub terminal: TerminalPane,
    pub model_cache: Option<Vec<ModelSummary>>,
    pub pending_permissions: VecDeque<PermissionRequest>,
    pub pending_questions: VecDeque<QuestionRequest>,
    pub toasts: VecDeque<Toast>,
    pub side_panel_visible: bool,
    pub side_panel_tab: Tab,
    pub side_panel_scroll: u16,
    /// The view to go back to when the terminal is toggled off.
    pub mode_before_terminal: AppMode,
    /// Rows of the terminal view, as last drawn.
    pub terminal_view_height: u16,
    /// Diagnostics by file path, in path order.
    pub lsp_diagnostics: BTreeMap<String, Vec<LspDiagnostic>>,
    pub todos: Vec<Todo>,
    pub session_directory_override: Option<String>,
    pub current_branch: Option<String>,
    pub current_server_url: String,
    pub display_policy: ChatDisplayPolicy,
}

impl AppState {
    /// The toast store and the terminal pane are within their bounds, each
    /// keyed store holds a key once and in key order, and the open dialog keeps its own invariant.
    pub open spec fn wf(&self) -> bool {
        &&& self.toasts@.len() <= MAX_STORED_TOASTS
        &&& self.terminal.lines@.len() <= MAX_TERMINAL_LINES
        &&& keys_ordered(self.sync_known_sequences@)
        &&& self.chat.stores_ordered()
        &&& match self.active_modal {
            Some(m) => m.wf(),
            None => true,
        }
    }

    /// A fresh application: the start page, nothing typed, streamed, queued
    /// or open, no leader pending, the clock at zero, the default display.
    pub open spec fn is_fresh(r: AppState) -> bool {
        &&& r.wf()
        &&& r.active_mode == AppMode::StartPage
        &&& r.key_chord@ is None
        &&& r.tick == 0
        &&& r.prompt_bar@ == (Seq::<char>::empty(), 0nat)
        &&& r.chat_scroll == 0
        &&& r.active_session is None
        &&& r.draft is None
        &&& r.error is None
        &&& !r.is_streaming
        &&& r.response_indicator_until_tick == 0
        &&& r.chat.stream_cleared()
        &&& r.chat.messages@.len() == 0
        &&& r.chat.queued@.len() == 0
        &&& r.active_submission is None
        &&& r.queued_submissions@.len() == 0
        &&& r.sync_known_sequences@.len() == 0
        &&& r.live_reconnect_at_tick is None
        &&& r.pending_ops@.len() == 0
        &&& r.active_modal is None
        &&& r.active_blocking_prompt is None
        &&& r.agents@.len() == 0
        &&& r.active_agent == 0
        &&& r.terminal.pty_id is None
        &&& r.terminal.lines@.len() == 0
        &&& r.terminal.scroll == 0
        &&& r.terminal.status == PtyStatus::Running
        &&& r.terminal.exit_code is None
        &&& r.model_cache is None
        &&& r.pending_permissions@.len() == 0
        &&& r.pending_questions@.len() == 0
        &&& r.toasts@.len() == 0
        &&& !r.side_panel_visible
        &&& r.side_panel_tab == Tab::Diagnostics
        &&& r.side_panel_scroll == 0
        &&& r.mode_before_terminal == AppMode::StartPage
        &&& r.terminal_view_height == 10
        &&& r.lsp_diagnostics@ == Map::<String, Vec<LspDiagnostic>>::empty()
        &&& r.todos@.len() == 0
        &&& r.session_directory_override is None
        &&& r.current_branch is None
        &&& forall|k: PartKind|
            #[trigger] r.display_policy.mode_spec(k) == if k == PartKind::Step {
                PartDisplayMode::Hidden
            } else {
                PartDisplayMode::Full
            }
    }

    /// A fresh application for the default server.
    pub fn new() -> (r: AppState)
        ensures
            Self::is_fresh(r),
            r.current_server_url@ == DEFAULT_SERVER_URL@,
    {
        AppState::new_with_server_url(DEFAULT_SERVER_URL.to_owned())
    }

    /// A fresh application for the server at `current_server_url`.
    pub fn new_with_server_url(current_server_url: String) -> (r: AppState)
        ensures
            Self::is_fresh(r),
            r.current_server_url == current_server_url,
    {
        let prompt_bar = PromptBar::new();
        assert(prompt_bar@.0 =~= Seq::<char>::empty());
        AppState {
            active_mode: AppMode::StartPage,
            key_chord: KeyChord::new(),
            tick: 0,
            prompt_bar,
            chat_scroll: 0,
            active_session: None,
            draft: None,
            error: None,
            is_streaming: false,
            response_indicator_until_tick: 0,
            chat: ChatState::new(),
            active_submission: None,
            queued_submissions: Vec::new(),
            sync_known_sequences: Vec::new(),
            live_reconnect_at_tick: None,
            pending_ops: VecDeque::new(),
            active_modal: None,
            active_blocking_prompt: None,
            agents: Vec::new(),
            active_agent: 0,
            terminal: TerminalPane::new(),
            model_cache: None,
            pending_permissions: VecDeque::new(),
            pending_questions: VecDeque::new(),
            toasts: VecDeque::new(),
            side_panel_visible: false,
            side_panel_tab: Tab::Diagnostics,
            side_panel_scroll: 0,
            mode_before_terminal: AppMode::StartPage,
            terminal_view_height: 10,
            lsp_diagnostics: BTreeMap::new(),
            todos: Vec::new(),
            session_directory_override: None,
            current_branch: None,
            current_server_url,
            display_policy: ChatDisplayPolicy::new(),
        }
    }

    /// Opens a dialog that answers no request.
    pub fn set_active_modal(&mut self, modal: ActiveModal)
        requires
            modal.wf(),
        ensures
            *final(self) == (AppState {
                active_modal: Some(modal),
                active_blocking_prompt: None,
                ..*old(self)
            }),
    {
        self.active_modal = Some(modal);
        self.active_blocking_prompt = None;
    }

    /// The open dialog, if any.
    pub fn active_modal(&self) -> (r: Option<&ActiveModal>)
        ensures
            r is Some == self.active_modal is Some,
            r matches Some(m) ==> self.active_modal == Some(*m),
    {
        match &self.active_modal {
            Some(m) => Some(m),
            None => None,
        }
    }

    fn set_blocking_modal(&mut self, modal: ActiveModal, prompt: ActiveBlockingPrompt)
        requires
            modal.wf(),
        ensures
            *final(self) == (AppState {
                active_modal: Some(modal),
                active_blocking_prompt: Some(prompt),
                ..*old(self)
            }),
    {
        self.active_modal = Some(modal);
        self.active_blocking_prompt = Some(prompt);
    }

    /// Closes the open dialog.
    pub fn clear_active_modal(&mut self)
        ensures
            *final(self) == (AppState {
                active_modal: None,
                active_blocking_prompt: None,
                ..*old(self)
            }),
    {
        self.active_modal = None;
        self.active_blocking_prompt = None;
    }

    /// Shows a toast, dropping the oldest when the store is full.
    pub fn push_toast(&mut self, toast: Toast)
        requires
            old(self).wf(),
        ensures
            final(self).wf(),
            *final(self) == (AppState { toasts: final(self).toasts, ..*old(self) }),
            old(self).toasts@.len() < MAX_STORED_TOASTS ==> final(self).toasts@ == old(
                self,
            ).toasts@.push(toast),
            old(self).toasts@.len() == MAX_STORED_TOASTS ==> final(self).toasts@ == old(
                self,
            ).toasts@.drop_first().push(toast),
    {
        push_toast(&mut self.toasts, toast);
    }

    /// Shows a toast created now, with a title.
    fn notify(&mut self, title: &str, message: String, variant: ToastVariant, duration: u64)
        requires
            old(self).wf(),
        ensures
            final(self).wf(),
            *final(self) == (AppState { toasts: final(self).toasts, ..*old(self) }),
            final(self).toasts@.len() > 0,
            ({
                let t = final(self).toasts@.last();
                &&& t.title matches Some(x) && x@ == title@
                &&& t.message == message
                &&& t.variant == variant
                &&& t.created_at == old(self).tick
                &&& t.duration == duration
            }),
            final(self).toasts@.drop_last() == if old(self).toasts@.len() < MAX_STORED_TOASTS {
                old(self).toasts@
            } else {
                old(self).toasts@.drop_first()
            },
    {
        let toast = Toast {
            title: Some(title.to_owned()),
            message,
            variant,
            created_at: self.tick,
            duration,
        };
        self.push_toast(toast);
        proof {
            if old(self).toasts@.len() < MAX_STORED_TOASTS {
                assert(self.toasts@.drop_last() =~= old(self).toasts@);
            } else {
                assert(self.toasts@.drop_last() =~= old(self).toasts@.drop_first());
            }
        }
    }

    /// Puts work in line for the server.
    pub fn queue_op(&mut self, op: BackendOp)
        ensures
            *final(self) == (AppState { pending_ops: final(self).pending_ops, ..*old(self) }),
            final(self).pending_ops@ == old(self).pending_ops@.push(op),
            final(self).pending_ops@.drop_last() == old(self).pending_ops@,
            final(self).pending_ops@.last() == op,
            final(self).pending_ops@.len() == old(self).pending_ops@.len() + 1,
    {
        self.pending_ops.push_back(op);
        assert(self.pending_ops@.drop_last() =~= old(self).pending_ops@);
    }

    /// Takes all the work waiting for the server, oldest first.
    pub fn take_pending_ops(&mut self) -> (r: VecDeque<BackendOp>)
        ensures
            *final(self) == (AppState { pending_ops: final(self).pending_ops, ..*old(self) }),
            r@ == old(self).pending_ops@,
            final(self).pending_ops@.len() == 0,
    {
        let mut ops: VecDeque<BackendOp> = VecDeque::new();
        core::mem::swap(&mut ops, &mut self.pending_ops);
        ops
    }

    /// The scope of the events that concern the active session.
    pub fn active_session_scope(&self) -> (r: EventScope)
        ensures
            r == scope_of(self.active_session),
    {
        match &self.active_session {
            Some(session) => EventScope {
                directory: Some(session.directory.clone()),
                workspace: copy_opt_string(&session.workspace_id),
            },
            None => EventScope { directory: None, workspace: None },
        }
    }

    /// The directory new sessions are created in (empty for the server's own).
    pub fn create_session_directory(&self) -> (r: String)
        ensures
            r@ == match self.session_directory_override {
                Some(d) => d@,
                None => Seq::empty(),
            },
    {
        match &self.session_directory_override {
            Some(d) => d.clone(),
            None => String::new(),
        }
    }

    /// Asks for the events of the active scope after the known sequences.
    pub fn sync_history_request(&self) -> (r: SyncHistoryRequest)
        ensures
            r.scope == scope_of(self.active_session),
            r.known_sequences@ == self.sync_known_sequences@,
    {
        SyncHistoryRequest {
            scope: self.active_session_scope(),
            known_sequences: copy_sequences(&self.sync_known_sequences),
        }
    }

    /// `op` asks for the history of the scope of `s` after what `s` knows.
    pub open spec fn is_sync_request(s: AppState, op: BackendOp) -> bool {
        op matches BackendOp::SyncHistory { request } && request.scope == scope_of(
            s.active_session,
        ) && request.known_sequences@ == s.sync_known_sequences@
    }

    fn queue_sync_history(&mut self)
        ensures
            *final(self) == (AppState { pending_ops: final(self).pending_ops, ..*old(self) }),
            final(self).pending_ops@.len() == old(self).pending_ops@.len() + 1,
            final(self).pending_ops@.drop_last() == old(self).pending_ops@,
            Self::is_sync_request(*old(self), final(self).pending_ops@.last()),
    {
        let request = self.sync_history_request();
        self.queue_op(BackendOp::SyncHistory { request });
        assert(self.pending_ops@.drop_last() =~= old(self).pending_ops@);
    }

    /// Asks for the missed history and a new live subscription.
    pub fn queue_live_resubscribe(&mut self)
        ensures
            *final(self) == (AppState {
                pending_ops: final(self).pending_ops,
                live_reconnect_at_tick: None,
                ..*old(self)
            }),
            final(self).pending_ops@.len() == old(self).pending_ops@.len() + 2,
            final(self).pending_ops@.take(old(self).pending_ops@.len() as int) == old(
                self,
            ).pending_ops@,
            Self::is_sync_request(*old(self), final(self).pending_ops@[old(self).pending_ops@.len() as int]),
            final(self).pending_ops@.last() == BackendOp::Subscribe,
    {
        self.live_reconnect_at_tick = None;
        self.queue_sync_history();
        self.queue_op(BackendOp::Subscribe);
        assert(self.pending_ops@.take(old(self).pending_ops@.len() as int) =~= old(self).pending_ops@);
    }

    /// Plans a new subscription a few ticks from now, unless one is planned.
    pub fn schedule_live_reconnect(&mut self)
        ensures
            *final(self) == (AppState {
                live_reconnect_at_tick: match old(self).live_reconnect_at_tick {
                    Some(t) => Some(t),
                    None => Some(
                        if old(self).tick as int + LIVE_RECONNECT_DELAY_TICKS > u64::MAX {
                            u64::MAX
                        } else {
                            (old(self).tick + LIVE_RECONNECT_DELAY_TICKS) as u64
                        },
                    ),
                },
                ..*old(self)
            }),
    {
        if self.live_reconnect_at_tick.is_none() {
            self.live_reconnect_at_tick = Some(self.tick.saturating_add(LIVE_RECONNECT_DELAY_TICKS));
        }
    }

    /// Whether the planned subscription is due.
    pub fn live_reconnect_due(&self) -> (r: bool)
        ensures
            r == (self.live_reconnect_at_tick matches Some(t) && self.tick >= t),
    {
        match self.live_reconnect_at_tick {
            Some(t) => self.tick >= t,
            None => false,
        }
    }

    /// Whether an event belongs to the active session's scope.
    pub fn envelope_matches_scope(&self, envelope: &EventEnvelope) -> (r: bool)
        ensures
            r == scope_matches(scope_of(self.active_session), envelope.scope),
    {
        let wanted = self.active_session_scope();
        match (&wanted.directory, &envelope.scope.directory) {
            (Some(w), Some(e)) => {
                return str_eq(e.as_str(), w.as_str());
            },
            _ => {},
        }
        match (&wanted.workspace, &envelope.scope.workspace) {
            (Some(w), Some(e)) => str_eq(e.as_str(), w.as_str()),
            _ => true,
        }
    }

    /// Records the sequence number an event carries.
    pub fn update_known_sequence(&mut self, envelope: &EventEnvelope)
        requires
            old(self).wf(),
        ensures
            final(self).wf(),
            *final(self) == (AppState {
                sync_known_sequences: final(self).sync_known_sequences,
                ..*old(self)
            }),
            match envelope.cursor {
                Some(c) => match (c.aggregate_id, c.seq) {
                    (Some(id), Some(seq)) => sequence_raised(
                        old(self).sync_known_sequences@,
                        final(self).sync_known_sequences@,
                        id@,
                        seq,
                    ),
                    _ => final(self).sync_known_sequences == old(self).sync_known_sequences,
                },
                None => final(self).sync_known_sequences == old(self).sync_known_sequences,
            },
    {
        match &envelope.cursor {
            Some(c) => match (&c.aggregate_id, c.seq) {
                (Some(id), Some(seq)) => raise_sequence(&mut self.sync_known_sequences, id.clone(), seq),
                _ => {},
            },
            None => {},
        }
    }

    /// Queues what starting up needs: the agents, the missed history and a
    /// live subscription.
    pub fn queue_startup(&mut self)
        ensures
            *final(self) == (AppState {
                pending_ops: final(self).pending_ops,
                live_reconnect_at_tick: None,
                ..*old(self)
            }),
            final(self).pending_ops@.len() == old(self).pending_ops@.len() + 3,
            final(self).pending_ops@.take(old(self).pending_ops@.len() as int) == old(
                self,
            ).pending_ops@,
            final(self).pending_ops@[old(self).pending_ops@.len() as int] == BackendOp::LoadAgents,
            Self::is_sync_request(*old(self), final(self).pending_ops@[old(self).pending_ops@.len() + 1int]),
            final(self).pending_ops@.last() == BackendOp::Subscribe,
    {
        self.queue_op(BackendOp::LoadAgents);
        let ghost mid = self.pending_ops@;
        self.queue_live_resubscribe();
        assert(self.pending_ops@.take(mid.len() as int) == mid);
        assert(mid[old(self).pending_ops@.len() as int] == BackendOp::LoadAgents);
        assert(self.pending_ops@[old(self).pending_ops@.len() as int] == self.pending_ops@.take(mid.len() as int)[old(self).pending_ops@.len() as int]);
        assert(self.pending_ops@.take(old(self).pending_ops@.len() as int) =~= old(self).pending_ops@);
    }

    /// `t` is `s` switched to the server at `url` (see `reset_for_server_switch`).
    pub open spec fn server_switched(s: AppState, t: AppState, url: String) -> bool {
        &&& (t.current_server_url == url)
        &&& (t.active_mode == AppMode::StartPage)
        &&& (t.prompt_bar@.0.len() == 0)
        &&& (t.chat_scroll == 0)
        &&& (t.active_session is None)
        &&& (t.draft is None)
        &&& (t.error is None)
        &&& (!t.is_streaming)
        &&& (t.response_indicator_until_tick == 0)
        &&& (t.chat.stream_cleared())
        &&& (t.chat.messages@.len() == 0)
        &&& (t.chat.queued@.len() == 0)
        &&& (t.active_submission is None)
        &&& (t.queued_submissions@.len() == 0)
        &&& (t.sync_known_sequences@.len() == 0)
        &&& (t.live_reconnect_at_tick is None)
        &&& (t.active_blocking_prompt is None)
        &&& (t.pending_permissions@.len() == 0)
        &&& (t.pending_questions@.len() == 0)
        &&& (t.agents@.len() == 0)
        &&& (t.active_agent == 0)
        &&& (t.model_cache is None)
        &&& (!t.side_panel_visible)
        &&& (t.side_panel_scroll == 0)
        &&& (t.pending_ops@.len() == 3)
        &&& (t.pending_ops@[0] == BackendOp::LoadAgents)
        &&& (t.pending_ops@[1] matches BackendOp::SyncHistory { request } && request.scope
            == scope_of(None) && request.known_sequences@.len() == 0)
        &&& (t.pending_ops@[2] == BackendOp::Subscribe)
        &&& (t.toasts == s.toasts)
        &&& (t.display_policy == s.display_policy)
        &&& (t.tick == s.tick)
        &&& (t.active_modal == s.active_modal)
    }

    /// Forgets everything that belongs to the old server and starts up
    /// against the server at `url`; the display settings, toasts, terminal and
    /// dialog stay.
    pub fn reset_for_server_switch(&mut self, url: String)
        requires
            old(self).wf(),
        ensures
            final(self).wf(),
            Self::server_switched(*old(self), *final(self), url),
    {
        self.current_server_url = url;
        self.active_mode = AppMode::StartPage;
        self.prompt_bar.clear();
        self.chat_scroll = 0;
        self.active_session = None;
        self.draft = None;
        self.error = None;
        self.is_streaming = false;
        self.response_indicator_until_tick = 0;
        self.chat = ChatState::new();
        self.active_submission = None;
        self.queued_submissions.clear();
        self.sync_known_sequences.clear();
        self.live_reconnect_at_tick = None;
        self.pending_ops.clear();
        self.active_blocking_prompt = None;
        self.pending_permissions.clear();
        self.pending_questions.clear();
        self.agents.clear();
        self.active_agent = 0;
        self.model_cache = None;
        self.side_panel_visible = false;
        self.side_panel_scroll = 0;
        self.queue_startup();
    }

    /// The full-screen view that is showing.
    pub fn active_mode(&self) -> (r: AppMode)
        ensures
            r == self.active_mode,
    {
        self.active_mode
    }

    /// The text of the last message sent.
    pub fn draft(&self) -> (r: Option<&str>)
        ensures
            opt_str_view(r) == crate::chat::opt_view(self.draft),
    {
        match &self.draft {
            Some(d) => Some(d.as_str()),
            None => None,
        }
    }

    /// The error shown in the status line.
    pub fn error(&self) -> (r: Option<&str>)
        ensures
            opt_str_view(r) == crate::chat::opt_view(self.error),
    {
        match &self.error {
            Some(d) => Some(d.as_str()),
            None => None,
        }
    }

    /// The session being shown.
    pub fn active_session(&self) -> (r: Option<&Session>)
        ensures
            r is Some == self.active_session is Some,
            r matches Some(s) ==> self.active_session == Some(*s),
    {
        match &self.active_session {
            Some(s) => Some(s),
            None => None,
        }
    }

    /// Creates new sessions in `session_directory`.
    pub fn set_session_directory_override(&mut self, session_directory: String)
        ensures
            *final(self) == (AppState {
                session_directory_override: Some(session_directory),
                ..*old(self)
            }),
    {
        self.session_directory_override = Some(session_directory);
    }

    /// The text in the prompt.
    pub fn prompt_text(&self) -> (r: String)
        ensures
            r@ == self.prompt_bar@.0,
    {
        self.prompt_bar.text()
    }

    /// The name of the selected agent; "build" when the server offered none.
    pub open spec fn agent_name_spec(&self) -> Seq<char> {
        if self.active_agent < self.agents@.len() {
            self.agents@[self.active_agent as int].name@
        } else {
            "build"@
        }
    }

    /// The name of the selected agent.
    pub fn active_agent_name(&self) -> (r: &str)
        ensures
            r@ == self.agent_name_spec(),
    {
        if self.active_agent < self.agents.len() {
            self.agents[self.active_agent].name.as_str()
        } else {
            "build"
        }
    }

    /// The selected agent's name, mode and model ("provider/model", or
    /// "default"), for the status line.
    pub fn active_agent_status(&self) -> (r: (String, &'static str, String))
        ensures
            r.0@ == self.agent_name_spec(),
            self.active_agent >= self.agents@.len() ==> r.1@ == "primary"@ && r.2@ == "default"@,
            self.active_agent < self.agents@.len() ==> {
                let a = self.agents@[self.active_agent as int];
                &&& r.1@ == match a.mode {
                    AgentMode::Primary => "primary"@,
                    AgentMode::Subagent => "subagent"@,
                    AgentMode::All => "all"@,
                }
                &&& r.2@ == match a.model {
                    Some(m) => m.provider_id@ + "/"@ + m.model_id@,
                    None => "default"@,
                }
            },
    {
        if self.active_agent >= self.agents.len() {
            return ("build".to_owned(), "primary", "default".to_owned());
        }
        let agent = &self.agents[self.active_agent];
        let mode: &'static str = match agent.mode {
            AgentMode::Primary => "primary",
            AgentMode::Subagent => "subagent",
            AgentMode::All => "all",
        };
        let model = match &agent.model {
            Some(m) => crate::text::concat3(m.provider_id.as_str(), "/", m.model_id.as_str()),
            None => "default".to_owned(),
        };
        (agent.name.clone(), mode, model)
    }

    /// Selects the next agent, wrapping to the first.
    pub fn cycle_agent(&mut self)
        ensures
            *final(self) == (AppState {
                active_agent: next_agent(old(self).active_agent, old(self).agents@.len() as usize),
                ..*old(self)
            }),
    {
        if self.agents.len() > 0 {
            let next: u128 = (self.active_agent as u128 + 1) % (self.agents.len() as u128);
            self.active_agent = next as usize;
        }
    }

    /// Selects the previous agent, wrapping to the last.
    pub fn cycle_agent_back(&mut self)
        ensures
            *final(self) == (AppState {
                active_agent: prev_agent(old(self).active_agent, old(self).agents@.len() as usize),
                ..*old(self)
            }),
    {
        if self.agents.len() > 0 {
            if self.active_agent == 0 {
                self.active_agent = self.agents.len() - 1;
            } else {
                self.active_agent = self.active_agent - 1;
            }
        }
    }

    /// Keeps the primary agents the server offered (the default pair when
    /// there are none, or the request failed) and selects the first.
    pub fn apply_agent_result(&mut self, result: Result<Vec<Agent>, String>)
        ensures
            *final(self) == (AppState { agents: final(self).agents, active_agent: 0, ..*old(self) }),
            ({
                let kept = match result {
                    Ok(agents) => agents@.filter(|a: Agent| a.mode == AgentMode::Primary),
                    Err(_) => old(self).agents@,
                };
                if kept.len() > 0 {
                    final(self).agents@ == kept
                } else {
                    is_default_agents(final(self).agents@)
                }
            }),
    {
        match result {
            Ok(agents) => {
                self.agents = primary_agents(agents);
            },
            Err(_) => {},
        }
        if self.agents.len() == 0 {
            let mut defaults: Vec<Agent> = Vec::new();
            defaults.push(Agent { name: "build".to_owned(), mode: AgentMode::Primary, model: None });
            defaults.push(Agent { name: "plan".to_owned(), mode: AgentMode::Primary, model: None });
            self.agents = defaults;
        }
        self.active_agent = 0;
    }

    /// Whether a response is expected.
    pub fn is_streaming(&self) -> (r: bool)
        ensures
            r == self.is_streaming,
    {
        self.is_streaming
    }

    /// The parts of the response being streamed.
    pub fn partial_parts(&self) -> (r: &[crate::model::Part])
        ensures
            r@ == self.chat.partial_parts@,
    {
        self.chat.partial_parts()
    }

    /// The messages shown.
    pub fn messages(&self) -> (r: &[LoadedMessage])
        ensures
            r@ == self.chat.messages@,
    {
        self.chat.messages()
    }

    /// The submission the server is answering.
    pub fn active_submission(&self) -> (r: Option<&Submission>)
        ensures
            r is Some == self.active_submission is Some,
            r matches Some(s) ==> self.active_submission == Some(*s),
    {
        match &self.active_submission {
            Some(s) => Some(s),
            None => None,
        }
    }

    /// The submissions waiting their turn.
    pub fn queued_submissions(&self) -> (r: &[Submission])
        ensures
            r@ == self.queued_submissions@,
    {
        self.queued_submissions.as_slice()
    }

    /// The current tick.
    pub fn tick(&self) -> (r: u64)
        ensures
            r == self.tick,
    {
        self.tick
    }

    /// Keeps the response indicator on for a while.
    fn mark_response_active(&mut self)
        ensures
            *final(self) == (AppState {
                response_indicator_until_tick: sat_add(old(self).tick, RESPONSE_INDICATOR_TICKS),
                ..*old(self)
            }),
    {
        self.response_indicator_until_tick = self.tick.saturating_add(RESPONSE_INDICATOR_TICKS);
    }

    /// Whether the response indicator shows.
    pub fn should_show_response_indicator(&self) -> (r: bool)
        ensures
            r == (self.is_streaming || self.response_indicator_until_tick > self.tick),
    {
        self.is_streaming || self.response_indicator_until_tick > self.tick
    }

    /// The id of the session being shown.
    pub fn active_session_id(&self) -> (r: Option<String>)
        ensures
            crate::chat::opt_view(r) == match self.active_session {
                Some(s) => Some(s.id@),
                None => None,
            },
    {
        match &self.active_session {
            Some(s) => Some(s.id.clone()),
            None => None,
        }
    }

    /// Whether `session_id` is the session being shown.
    pub fn active_session_matches(&self, session_id: &str) -> (r: bool)
        ensures
            r == (self.active_session matches Some(s) && s.id@ == session_id@),
    {
        match &self.active_session {
            Some(s) => str_eq(s.id.as_str(), session_id),
            None => false,
        }
    }

    /// Shows the message of a submission and sends it: the text becomes the
    /// draft, the chat shows, and a response is expected.
    fn start_submission(&mut self, submission: Submission, message: LoadedMessage)
        ensures
            *final(self) == (AppState {
                chat: final(self).chat,
                draft: Some(submission.text),
                active_mode: AppMode::Chat,
                is_streaming: true,
                response_indicator_until_tick: sat_add(old(self).tick, RESPONSE_INDICATOR_TICKS),
                pending_ops: final(self).pending_ops,
                ..*old(self)
            }),
            final(self).pending_ops@ == old(self).pending_ops@.push(BackendOp::Submit { submission }),
            final(self).chat.messages@ == old(self).chat.messages@.push(message),
            final(self).chat.stream_cleared(),
            final(self).chat.queued == old(self).chat.queued,
    {
        self.chat.push_message(message);
        self.draft = Some(submission.text.clone());
        self.active_mode = AppMode::Chat;
        self.is_streaming = true;
        self.mark_response_active();
        self.chat.clear_partial_stream();
        self.queue_op(BackendOp::Submit { submission });
    }

    /// `t` is `s` with `submission` sent now, its message shown, or, while a
    /// response is expected, put in line behind it with its message (see
    /// `queue_or_dispatch_submission`).
    pub open spec fn submission_placed(s: AppState, t: AppState, submission: Submission, message: LoadedMessage) -> bool {
        &&& (s.is_streaming || s.active_submission is Some) ==> {
            &&& t == (AppState {
                queued_submissions: t.queued_submissions,
                chat: t.chat,
                ..s
            })
            &&& t.queued_submissions@ == s.queued_submissions@.push(submission)
            &&& t.chat == (ChatState { queued: t.chat.queued, ..s.chat })
            &&& t.chat.queued@ == s.chat.queued@.push(message)
            }
        &&& !(s.is_streaming || s.active_submission is Some) ==> {
            &&& t == (AppState {
                chat: t.chat,
                draft: Some(submission.text),
                active_mode: AppMode::Chat,
                is_streaming: true,
                response_indicator_until_tick: sat_add(s.tick, RESPONSE_INDICATOR_TICKS),
                pending_ops: t.pending_ops,
                ..s
            })
            &&& t.pending_ops@ == s.pending_ops@.push(BackendOp::Submit { submission })
            &&& t.chat.messages@ == s.chat.messages@.push(message)
            &&& t.chat.stream_cleared()
            &&& t.chat.queued == s.chat.queued
            }
    }

    /// `t` is `s` with the session `session` made active, the prompt
    /// emptied, and `submission` with its `message` placed as
    /// `submission_placed` says.
    pub open spec fn placed_in_session(
        s: AppState,
        t: AppState,
        session: Session,
        submission: Submission,
        message: LoadedMessage,
    ) -> bool {
        Self::submission_placed(
            AppState { active_session: Some(session), prompt_bar: t.prompt_bar, ..s },
            t,
            submission,
            message,
        )
    }

    /// Sends a submission now, or puts it in line behind the response that is
    /// expected.
    fn queue_or_dispatch_submission(&mut self, submission: Submission, message: LoadedMessage)
        ensures
            Self::submission_placed(*old(self), *final(self), submission, message),
    {
        if self.is_streaming || self.active_submission.is_some() {
            self.queued_submissions.push(submission);
            self.chat.queue_message(message);
            return;
        }
        self.start_submission(submission, message);
    }

    /// Takes the next submission in line with its message; what was streamed
    /// so far is kept as a message first.
    fn take_next_queued_submission(&mut self) -> (r: Option<(Submission, LoadedMessage)>)
        ensures
            (old(self).queued_submissions@.len() == 0 || old(self).chat.queued@.len() == 0) ==> r is None
                && *final(self) == *old(self),
            (old(self).queued_submissions@.len() > 0 && old(self).chat.queued@.len() > 0) ==> {
                &&& r == Some((old(self).queued_submissions@[0], old(self).chat.queued@[0]))
                &&& *final(self) == (AppState {
                    queued_submissions: final(self).queued_submissions,
                    chat: final(self).chat,
                    ..*old(self)
                })
                &&& final(self).queued_submissions@ == old(self).queued_submissions@.drop_first()
                &&& final(self).chat.queued@ == old(self).chat.queued@.drop_first()
                &&& final(self).chat.stream_cleared() || final(self).chat.partial_parts@.len() == 0
                    && final(self).chat == (ChatState { queued: final(self).chat.queued, ..old(self).chat })
                &&& old(self).chat.partial_parts@.len() > 0 ==> {
                    &&& final(self).chat.stream_cleared()
                    &&& final(self).chat.messages@ == old(self).chat.messages@.push(
                        LoadedMessage {
                            id: None,
                            session_id: final(self).chat.messages@.last().session_id,
                            role: crate::model::MessageRole::Assistant,
                            parts: old(self).chat.partial_parts,
                        },
                    )
                    &&& crate::chat::opt_view(final(self).chat.messages@.last().session_id)
                        == match old(self).active_session {
                        Some(s) => Some(s.id@),
                        None => None,
                    }
                }
                &&& old(self).chat.partial_parts@.len() == 0 ==> final(self).chat == (ChatState {
                    queued: final(self).chat.queued,
                    ..old(self).chat
                })
            },
    {
        if self.queued_submissions.len() == 0 || self.chat.queued.len() == 0 {
            return None;
        }
        let message = match self.chat.pop_queued_message() {
            Some(m) => m,
            None => {
                return None;
            },
        };
        if self.chat.has_partial_response() {
            let sid = self.active_session_id();
            self.chat.flush_partial_response(sid);
        }
        Some((self.queued_submissions.remove(0), message))
    }

    /// `t` is `s` with the next submission in line, if any, sent (see
    /// `dispatch_next_queued_submission`).
    pub open spec fn next_dispatched(s: AppState, t: AppState) -> bool {
        &&& (t.sync_known_sequences == s.sync_known_sequences)
        &&& (t.chat.partial_parts@.len() <= s.chat.partial_parts@.len())
        &&& ((s.queued_submissions@.len() == 0 || s.chat.queued@.len() == 0) ==> t == s)
        &&& ((s.queued_submissions@.len() > 0 && s.chat.queued@.len() > 0) ==> {
            &&& t.queued_submissions@ == s.queued_submissions@.drop_first()
            &&& t.chat.queued@ == s.chat.queued@.drop_first()
            &&& t.pending_ops@ == s.pending_ops@.push(
                BackendOp::Submit { submission: s.queued_submissions@[0] },
            )
            &&& t.chat.messages@.last() == s.chat.queued@[0]
            &&& t.chat.stream_cleared()
            &&& t.is_streaming
            &&& t.active_mode == AppMode::Chat
            &&& t.draft == Some(s.queued_submissions@[0].text)
            &&& t == (AppState {
                queued_submissions: t.queued_submissions,
                chat: t.chat,
                draft: t.draft,
                active_mode: AppMode::Chat,
                is_streaming: true,
                response_indicator_until_tick: sat_add(s.tick, RESPONSE_INDICATOR_TICKS),
                pending_ops: t.pending_ops,
                ..s
            })
        })
    }

    /// Sends the next submission in line, if there is one.
    fn dispatch_next_queued_submission(&mut self)
        requires
            old(self).wf(),
        ensures
            final(self).wf(),
            Self::next_dispatched(*old(self), *final(self)),
    {
        match self.take_next_queued_submission() {
            Some((submission, message)) => self.start_submission(submission, message),
            None => {},
        }
    }

    /// `t` is `s` after the response ended: nothing is expected any more,
    /// and, where a response was streaming, the next submission in line is
    /// sent.
    pub open spec fn response_ended(s: AppState, t: AppState) -> bool {
        let u = AppState { is_streaming: false, active_submission: None, ..s };
        if s.is_streaming {
            Self::next_dispatched(u, t)
        } else {
            t == u
        }
    }

    /// The response ended: nothing is expected any more, and the next
    /// submission in line, if any, is sent.
    fn finish_streaming_response(&mut self)
        requires
            old(self).wf(),
        ensures
            Self::response_ended(*old(self), *final(self)),
            final(self).sync_known_sequences == old(self).sync_known_sequences,
            final(self).wf(),
            final(self).chat.partial_parts@.len() <= old(self).chat.partial_parts@.len(),
            !old(self).is_streaming ==> *final(self) == (AppState {
                is_streaming: false,
                active_submission: None,
                ..*old(self)
            }),
            old(self).is_streaming && (old(self).queued_submissions@.len() == 0
                || old(self).chat.queued@.len() == 0) ==> *final(self) == (AppState {
                is_streaming: false,
                active_submission: None,
                ..*old(self)
            }),
            old(self).is_streaming && old(self).queued_submissions@.len() > 0
                && old(self).chat.queued@.len() > 0 ==> {
                &&& final(self).is_streaming
                &&& final(self).active_submission is None
                &&& final(self).queued_submissions@ == old(self).queued_submissions@.drop_first()
                &&& final(self).pending_ops@ == old(self).pending_ops@.push(
                    BackendOp::Submit { submission: old(self).queued_submissions@[0] },
                )
                &&& final(self).chat.messages@.last() == old(self).chat.queued@[0]
                &&& final(self).toasts == old(self).toasts
                &&& final(self).active_modal == old(self).active_modal
            },
    {
        let was_streaming = self.is_streaming;
        self.is_streaming = false;
        self.active_submission = None;
        if was_streaming {
            self.dispatch_next_queued_submission();
        }
    }

    /// What a message update for the session `session_id` does to `s`, giving `t`
    /// (see `apply_message_updated`).
    pub open spec fn message_update_applied(s: AppState, t: AppState, session_id: Seq<char>, message: crate::model::Message) -> bool {
        &&& (t.sync_known_sequences == s.sync_known_sequences)
        &&& (t.chat.partial_parts@.len() <= s.chat.partial_parts@.len())
        &&& (!(s.active_session matches Some(a) && a.id@ == session_id) ==> t == s)
        &&& ((s.active_session matches Some(a) && a.id@ == session_id) && message.role
            == crate::model::MessageRole::Assistant && message.completed is None ==> {
            &&& crate::chat::response_finished(s.chat, t.chat, message.id@, message.session_id@)
            &&& t == (AppState { chat: t.chat, ..s })
        })
        &&& ((s.active_session matches Some(a) && a.id@ == session_id) && message.role
            == crate::model::MessageRole::Assistant && message.completed is Some ==> {
            &&& !t.is_streaming || (s.is_streaming && s.queued_submissions@.len() > 0
                && s.chat.queued@.len() > 0)
            &&& t.active_submission is None
            &&& exists|c: ChatState|
                #[trigger] ChatState::message_applied(s.chat, c, message, true) && Self::response_ended(
                    AppState { chat: c, ..s },
                    t,
                )
        })
        &&& ((s.active_session matches Some(a) && a.id@ == session_id) && message.role
            == crate::model::MessageRole::User ==> t == (AppState { chat: t.chat, ..s })
            && ChatState::message_applied(s.chat, t.chat, message, false))
    }

    /// Applies a message update of the session shown; an assistant message
    /// that is complete ends the response.
    pub fn apply_message_updated(&mut self, session_id: String, message: crate::model::Message)
        requires
            old(self).wf(),
        ensures
            final(self).wf(),
            Self::message_update_applied(*old(self), *final(self), session_id@, message),
    {
        if !self.active_session_matches(session_id.as_str()) {
            return;
        }
        let ghost m = message;
        if self.chat.apply_message_updated(message) {
            let ghost c = self.chat;
            self.finish_streaming_response();
            assert(ChatState::message_applied(old(self).chat, c, m, true));
        }
    }

    /// Drops a message of the session shown.
    pub fn apply_message_removed(&mut self, session_id: String, message_id: String)
        requires
            old(self).wf(),
        ensures
            final(self).wf(),
            final(self).chat.partial_parts@.len() <= old(self).chat.partial_parts@.len(),
            !(old(self).active_session matches Some(s) && s.id@ == session_id@) ==> *final(self) == *old(self),
            (old(self).active_session matches Some(s) && s.id@ == session_id@) ==> {
                &&& *final(self) == (AppState { chat: final(self).chat, ..*old(self) })
                &&& final(self).chat.messages@ == crate::chat::without_id(old(self).chat.messages@, message_id@)
                &&& final(self).chat == (ChatState { messages: final(self).chat.messages, ..old(self).chat })
            },
    {
        if !self.active_session_matches(session_id.as_str()) {
            return;
        }
        self.chat.remove_message(message_id.as_str());
    }

    /// Opens the first pending permission request, when no dialog is open.
    fn open_permission_modal_if_idle(&mut self) -> (r: bool)
        requires
            old(self).wf(),
        ensures
            final(self).wf(),
            r == (old(self).active_modal is None && old(self).pending_permissions@.len() > 0),
            !r ==> *final(self) == *old(self),
            r ==> {
                &&& *final(self) == (AppState {
                    active_modal: final(self).active_modal,
                    active_blocking_prompt: Some(
                        ActiveBlockingPrompt::Permission(old(self).pending_permissions@[0].id),
                    ),
                    ..*old(self)
                })
                &&& Self::shows_permission(final(self).active_modal, old(self).pending_permissions@[0])
            },
    {
        if self.active_modal.is_some() || self.pending_permissions.len() == 0 {
            return false;
        }
        let request = self.pending_permissions[0].copy();
        let request_id = self.pending_permissions[0].id.clone();
        self.set_blocking_modal(
            ActiveModal::Permission(PermissionModal::new(request)),
            ActiveBlockingPrompt::Permission(request_id),
        );
        true
    }

    /// Opens the first pending question request, when no dialog is open.
    fn open_question_modal_if_idle(&mut self) -> (r: bool)
        requires
            old(self).wf(),
        ensures
            final(self).wf(),
            r == (old(self).active_modal is None && old(self).pending_questions@.len() > 0),
            !r ==> *final(self) == *old(self),
            r ==> {
                &&& *final(self) == (AppState {
                    active_modal: final(self).active_modal,
                    active_blocking_prompt: Some(
                        ActiveBlockingPrompt::Question(old(self).pending_questions@[0].id),
                    ),
                    ..*old(self)
                })
                &&& Self::shows_question(final(self).active_modal, old(self).pending_questions@[0])
            },
    {
        if self.active_modal.is_some() || self.pending_questions.len() == 0 {
            return false;
        }
        let request = self.pending_questions[0].copy();
        let request_id = self.pending_questions[0].id.clone();
        self.set_blocking_modal(
            ActiveModal::Question(QuestionModal::new(request)),
            ActiveBlockingPrompt::Question(request_id),
        );
        true
    }

    /// The dialog `m` asks for the permission request `req`, its first
    /// choice selected.
    pub open spec fn shows_permission(m: Option<ActiveModal>, req: PermissionRequest) -> bool {
        m matches Some(ActiveModal::Permission(d)) && same_permission_request(d.request, req)
            && d.selected == 0
    }

    /// The dialog `m` asks the questions of `req`, from the first.
    pub open spec fn shows_question(m: Option<ActiveModal>, req: QuestionRequest) -> bool {
        m matches Some(ActiveModal::Question(d)) && d.wf() && same_question_request(d.request, req)
            && d.current_q == 0
    }

    /// With no dialog open, opens the first pending permission request, else
    /// the first pending question.
    pub open spec fn next_blocking_opened(s: AppState, t: AppState) -> bool {
        if s.active_modal is Some || (s.pending_permissions@.len() == 0 && s.pending_questions@.len() == 0) {
            t == s
        } else if s.pending_permissions@.len() > 0 {
            &&& t == (AppState {
                active_modal: t.active_modal,
                active_blocking_prompt: Some(ActiveBlockingPrompt::Permission(s.pending_permissions@[0].id)),
                ..s
            })
            &&& Self::shows_permission(t.active_modal, s.pending_permissions@[0])
        } else {
            &&& t == (AppState {
                active_modal: t.active_modal,
                active_blocking_prompt: Some(ActiveBlockingPrompt::Question(s.pending_questions@[0].id)),
                ..s
            })
            &&& Self::shows_question(t.active_modal, s.pending_questions@[0])
        }
    }

    /// Opens the next pending request, permissions first, when no dialog is open.
    fn open_next_blocking_modal_if_idle(&mut self) -> (r: bool)
        requires
            old(self).wf(),
        ensures
            final(self).wf(),
            Self::next_blocking_opened(*old(self), *final(self)),
            r == (old(self).active_modal is None && (old(self).pending_permissions@.len() > 0
                || old(self).pending_questions@.len() > 0)),
    {
        self.open_permission_modal_if_idle() || self.open_question_modal_if_idle()
    }

    /// Drops the first pending permission request with the id `request_id`.
    fn remove_pending_permission_by_id(&mut self, request_id: &str) -> (r: bool)
        ensures
            *final(self) == (AppState { pending_permissions: final(self).pending_permissions, ..*old(self) }),
            match first_where(old(self).pending_permissions@, permission_with_id(request_id@)) {
                Some(j) => r && final(self).pending_permissions@ == old(self).pending_permissions@.remove(j),
                None => !r && final(self).pending_permissions == old(self).pending_permissions,
            },
    {
        let ghost f = permission_with_id(request_id@);
        let mut i: usize = 0;
        while i < self.pending_permissions.len()
            invariant
                i <= self.pending_permissions@.len(),
                f == permission_with_id(request_id@),
                *self == *old(self),
                forall|k: int| 0 <= k < i ==> !f(#[trigger] self.pending_permissions@[k]),
            decreases self.pending_permissions@.len() - i,
        {
            if str_eq(self.pending_permissions[i].id.as_str(), request_id) {
                proof {
                    lemma_first_where(self.pending_permissions@, f, i as int);
                }
                self.pending_permissions.remove(i);
                return true;
            }
            i = i + 1;
        }
        proof {
            lemma_first_where(self.pending_permissions@, f, i as int);
        }
        false
    }

    /// Drops the first pending question request with the id `request_id`.
    fn remove_pending_question_by_id(&mut self, request_id: &str) -> (r: bool)
        ensures
            *final(self) == (AppState { pending_questions: final(self).pending_questions, ..*old(self) }),
            match first_where(old(self).pending_questions@, question_with_id(request_id@)) {
                Some(j) => r && final(self).pending_questions@ == old(self).pending_questions@.remove(j),
                None => !r && final(self).pending_questions == old(self).pending_questions,
            },
    {
        let ghost f = question_with_id(request_id@);
        let mut i: usize = 0;
        while i < self.pending_questions.len()
            invariant
                i <= self.pending_questions@.len(),
                f == question_with_id(request_id@),
                *self == *old(self),
                forall|k: int| 0 <= k < i ==> !f(#[trigger] self.pending_questions@[k]),
            decreases self.pending_questions@.len() - i,
        {
            if str_eq(self.pending_questions[i].id.as_str(), request_id) {
                proof {
                    lemma_first_where(self.pending_questions@, f, i as int);
                }
                self.pending_questions.remove(i);
                return true;
            }
            i = i + 1;
        }
        proof {
            lemma_first_where(self.pending_questions@, f, i as int);
        }
        false
    }

    /// Closes the dialog when it answers the permission request `request_id`.
    fn close_permission_modal_if_matches(&mut self, request_id: &str)
        ensures
            (old(self).active_blocking_prompt matches Some(ActiveBlockingPrompt::Permission(id))
                && id@ == request_id@) ==> *final(self) == (AppState {
                active_modal: None,
                active_blocking_prompt: None,
                ..*old(self)
            }),
            !(old(self).active_blocking_prompt matches Some(ActiveBlockingPrompt::Permission(id))
                && id@ == request_id@) ==> *final(self) == *old(self),
    {
        let matches_id = match &self.active_blocking_prompt {
            Some(ActiveBlockingPrompt::Permission(id)) => str_eq(id.as_str(), request_id),
            _ => false,
        };
        if matches_id {
            self.clear_active_modal();
        }
    }

    /// Closes the dialog when it answers the question request `request_id`.
    fn close_question_modal_if_matches(&mut self, request_id: &str)
        ensures
            (old(self).active_blocking_prompt matches Some(ActiveBlockingPrompt::Question(id))
                && id@ == request_id@) ==> *final(self) == (AppState {
                active_modal: None,
                active_blocking_prompt: None,
                ..*old(self)
            }),
            !(old(self).active_blocking_prompt matches Some(ActiveBlockingPrompt::Question(id))
                && id@ == request_id@) ==> *final(self) == *old(self),
    {
        let matches_id = match &self.active_blocking_prompt {
            Some(ActiveBlockingPrompt::Question(id)) => str_eq(id.as_str(), request_id),
            _ => false,
        };
        if matches_id {
            self.clear_active_modal();
        }
    }

    /// `t` is `s` with one more operation for the server, which satisfies `f`.
    pub open spec fn op_pushed(s: AppState, t: AppState, f: spec_fn(BackendOp) -> bool) -> bool {
        &&& t.pending_ops@.len() == s.pending_ops@.len() + 1
        &&& t.pending_ops@.drop_last() == s.pending_ops@
        &&& f(t.pending_ops@.last())
    }

    /// The directory `s` creates sessions in.
    pub open spec fn session_directory(s: AppState) -> Seq<char> {
        match s.session_directory_override {
            Some(d) => d@,
            None => Seq::empty(),
        }
    }

    /// `op` creates a session titled "Chat" in the directory of `s`, for `purpose`.
    pub open spec fn creates_session(s: AppState, op: BackendOp, purpose: spec_fn(CreateSessionPurpose) -> bool) -> bool {
        op matches BackendOp::CreateSession { title, session_directory, purpose: p } && title@
            == "Chat"@ && session_directory@ == Self::session_directory(s) && purpose(p)
    }

    /// The prompt after a client command: emptied when the command was typed.
    pub open spec fn prompt_after_command(s: AppState, t: AppState, context: TuiCommandContext) -> bool {
        if context.clear_prompt {
            t.prompt_bar@ == (Seq::<char>::empty(), 0nat)
        } else {
            t.prompt_bar == s.prompt_bar
        }
    }

    /// The side panel after a command for `tab`: hidden when the command
    /// toggles and the panel shows that tab, else showing it from the top.
    pub open spec fn panel_after_command(s: AppState, t: AppState, context: TuiCommandContext, tab: Tab) -> bool {
        if context.toggle_panels && s.side_panel_visible && s.side_panel_tab == tab {
            !t.side_panel_visible && t.side_panel_tab == s.side_panel_tab && t.side_panel_scroll
                == s.side_panel_scroll
        } else {
            t.side_panel_visible && t.side_panel_tab == tab && t.side_panel_scroll == 0
        }
    }

    /// The prompt is emptied when the command was typed.
    fn clear_prompt_for(&mut self, context: TuiCommandContext)
        ensures
            *final(self) == (AppState { prompt_bar: final(self).prompt_bar, ..*old(self) }),
            Self::prompt_after_command(*old(self), *final(self), context),
    {
        if context.clear_prompt {
            self.prompt_bar.clear();
            assert(self.prompt_bar@.0 =~= Seq::<char>::empty());
        }
    }

    /// Shows or hides the side panel on `tab` for a client command.
    fn panel_command(&mut self, context: TuiCommandContext, tab: Tab)
        ensures
            *final(self) == (AppState {
                side_panel_visible: final(self).side_panel_visible,
                side_panel_tab: final(self).side_panel_tab,
                side_panel_scroll: final(self).side_panel_scroll,
                ..*old(self)
            }),
            Self::panel_after_command(*old(self), *final(self), context, tab),
    {
        if context.toggle_panels && self.side_panel_visible && self.side_panel_tab == tab {
            self.side_panel_visible = false;
        } else {
            self.side_panel_visible = true;
            self.side_panel_tab = tab;
            self.side_panel_scroll = 0;
        }
    }

    /// Opens the model picker and asks for the models to list.
    fn open_model_picker(&mut self)
        ensures
            *final(self) == (AppState {
                active_modal: final(self).active_modal,
                pending_ops: final(self).pending_ops,
                ..*old(self)
            }),
            final(self).active_modal matches Some(m) && m.id() == ModalId::ModelPicker && m.wf(),
            Self::op_pushed(
                *old(self),
                *final(self),
                |op: BackendOp|
                    op matches BackendOp::OpenModelPicker { cached_models } && same_model_list(
                        cached_models,
                        old(self).model_cache,
                    ),
            ),
    {
        self.active_modal = Some(ActiveModal::ModelPicker(ModelPickerModal::new()));
        let cached_models = crate::model::copy_model_list(&self.model_cache);
        self.queue_op(BackendOp::OpenModelPicker { cached_models });
    }

    /// What the client command `command` does to `s`, giving `t` (see
    /// `execute_tui_command`).
    pub open spec fn tui_command_executed(s: AppState, t: AppState, command: TuiCommand, context: TuiCommandContext) -> bool {
        match command {
            TuiCommand::Models => {
                &&& t == (AppState {
                    prompt_bar: t.prompt_bar,
                    active_modal: t.active_modal,
                    pending_ops: t.pending_ops,
                    ..s
                })
                &&& Self::prompt_after_command(s, t, context)
                &&& t.active_modal matches Some(m) && m.id() == ModalId::ModelPicker
                &&& Self::op_pushed(
                    s,
                    t,
                    |op: BackendOp|
                        op matches BackendOp::OpenModelPicker { cached_models } && same_model_list(cached_models, s.model_cache),
                )
            },
            TuiCommand::NewSession => {
                &&& t == (AppState {
                    prompt_bar: t.prompt_bar,
                    active_modal: None,
                    active_blocking_prompt: None,
                    pending_ops: t.pending_ops,
                    ..s
                })
                &&& Self::prompt_after_command(s, t, context)
                &&& Self::op_pushed(
                    s,
                    t,
                    |op: BackendOp|
                        Self::creates_session(
                            s,
                            op,
                            |p: CreateSessionPurpose| p == CreateSessionPurpose::NewChat,
                        ),
                )
            },
            TuiCommand::Sessions => {
                &&& t == (AppState {
                    prompt_bar: t.prompt_bar,
                    active_modal: t.active_modal,
                    active_blocking_prompt: None,
                    pending_ops: t.pending_ops,
                    ..s
                })
                &&& Self::prompt_after_command(s, t, context)
                &&& t.active_modal matches Some(m) && m.id() == ModalId::SessionList
                &&& t.pending_ops@ == s.pending_ops@.push(BackendOp::ListSessions)
            },
            TuiCommand::Help => {
                &&& t == (AppState {
                    prompt_bar: t.prompt_bar,
                    active_modal: t.active_modal,
                    active_blocking_prompt: None,
                    ..s
                })
                &&& Self::prompt_after_command(s, t, context)
                &&& t.active_modal matches Some(m) && m.id() == ModalId::Help
            },
            TuiCommand::Todos | TuiCommand::Diagnostics | TuiCommand::Pty => {
                &&& t == (AppState {
                    prompt_bar: t.prompt_bar,
                    active_modal: None,
                    active_blocking_prompt: None,
                    side_panel_visible: t.side_panel_visible,
                    side_panel_tab: t.side_panel_tab,
                    side_panel_scroll: t.side_panel_scroll,
                    ..s
                })
                &&& Self::prompt_after_command(s, t, context)
                &&& Self::panel_after_command(
                    s,
                    t,
                    context,
                    if command == TuiCommand::Todos {
                        Tab::Todos
                    } else if command == TuiCommand::Diagnostics {
                        Tab::Diagnostics
                    } else {
                        Tab::Pane
                    },
                )
            },
            TuiCommand::Server => {
                &&& t == (AppState {
                    prompt_bar: t.prompt_bar,
                    active_modal: t.active_modal,
                    active_blocking_prompt: None,
                    ..s
                })
                &&& Self::prompt_after_command(s, t, context)
                &&& t.active_modal matches Some(ActiveModal::ServerConfig(m)) && m.url
                    == s.current_server_url
            },
            TuiCommand::Display => {
                &&& t == (AppState {
                    prompt_bar: t.prompt_bar,
                    active_modal: t.active_modal,
                    active_blocking_prompt: None,
                    ..s
                })
                &&& Self::prompt_after_command(s, t, context)
                &&& t.active_modal matches Some(ActiveModal::DisplayConfig(m)) && m.policy
                    == s.display_policy && m.selected == 0
            },
            TuiCommand::Abort => match s.active_session {
                Some(sess) => {
                    &&& t == (AppState { pending_ops: t.pending_ops, ..s })
                    &&& Self::op_pushed(
                        s,
                        t,
                        |op: BackendOp| op == BackendOp::AbortSession { session_id: sess.id },
                    )
                },
                None => t == s,
            },
            TuiCommand::Dispose => t == (AppState { pending_ops: t.pending_ops, ..s })
                && t.pending_ops@ == s.pending_ops@.push(BackendOp::Dispose),
            TuiCommand::Upgrade => t == (AppState { pending_ops: t.pending_ops, ..s })
                && t.pending_ops@ == s.pending_ops@.push(BackendOp::Upgrade),
            TuiCommand::Exit => t == s,
        }
    }

    /// The Todos command closes any dialog. Where panels toggle and the Todos
    /// panel shows, it hides the panel; otherwise it shows the Todos panel
    /// from the top. A typed command empties the prompt, an action leaves it.
    pub proof fn law_todos_command(s: AppState, t: AppState, context: TuiCommandContext)
        requires
            Self::tui_command_executed(s, t, TuiCommand::Todos, context),
        ensures
            t.active_modal is None,
            (context.toggle_panels && s.side_panel_visible && s.side_panel_tab == Tab::Todos)
                ==> !t.side_panel_visible,
            !(context.toggle_panels && s.side_panel_visible && s.side_panel_tab == Tab::Todos)
                ==> t.side_panel_visible && t.side_panel_tab == Tab::Todos && t.side_panel_scroll == 0,
            context.clear_prompt ==> t.prompt_bar@.0.len() == 0,
            !context.clear_prompt ==> t.prompt_bar == s.prompt_bar,
    {
    }

    /// Runs a client command. Returns `false` only for `/exit`.
    fn execute_tui_command(&mut self, command: TuiCommand, context: TuiCommandContext) -> (r: bool)
        requires
            old(self).wf(),
        ensures
            final(self).chat == old(self).chat,
            final(self).wf(),
            r == (command != TuiCommand::Exit),
            Self::tui_command_executed(*old(self), *final(self), command, context),
    {
        match command {
            TuiCommand::Models => {
                self.clear_prompt_for(context);
                self.open_model_picker();
                true
            },
            TuiCommand::NewSession => {
                self.clear_prompt_for(context);
                self.clear_active_modal();
                let session_directory = self.create_session_directory();
                self.queue_op(
                    BackendOp::CreateSession {
                        title: "Chat".to_owned(),
                        session_directory,
                        purpose: CreateSessionPurpose::NewChat,
                    },
                );
                true
            },
            TuiCommand::Sessions => {
                self.clear_prompt_for(context);
                self.set_active_modal(ActiveModal::SessionList(SessionListModal::new()));
                self.queue_op(BackendOp::ListSessions);
                true
            },
            TuiCommand::Help => {
                self.clear_prompt_for(context);
                self.set_active_modal(ActiveModal::Help(HelpModal::new()));
                true
            },
            TuiCommand::Todos => {
                self.clear_prompt_for(context);
                self.clear_active_modal();
                self.panel_command(context, Tab::Todos);
                true
            },
            TuiCommand::Diagnostics => {
                self.clear_prompt_for(context);
                self.clear_active_modal();
                self.panel_command(context, Tab::Diagnostics);
                true
            },
            TuiCommand::Pty => {
                self.clear_prompt_for(context);
                self.clear_active_modal();
                self.panel_command(context, Tab::Pane);
                true
            },
            TuiCommand::Server => {
                self.clear_prompt_for(context);
                let url = self.current_server_url.clone();
                self.set_active_modal(ActiveModal::ServerConfig(ServerConfigModal::new(url)));
                true
            },
            TuiCommand::Display => {
                self.clear_prompt_for(context);
                let policy = self.display_policy;
                self.set_active_modal(ActiveModal::DisplayConfig(DisplayConfigModal::new(policy)));
                true
            },
            TuiCommand::Abort => {
                match &self.active_session {
                    Some(session) => {
                        let session_id = session.id.clone();
                        self.queue_op(BackendOp::AbortSession { session_id });
                    },
                    None => {},
                }
                true
            },
            TuiCommand::Dispose => {
                self.queue_op(BackendOp::Dispose);
                true
            },
            TuiCommand::Upgrade => {
                self.queue_op(BackendOp::Upgrade);
                true
            },
            TuiCommand::Exit => false,
        }
    }

    /// `sub` sends `text` typed in `mode` to the session of `s` with its agent:
    /// a shell command in shell mode, a prompt otherwise.
    pub open spec fn submission_for(s: AppState, sub: Submission, text: Seq<char>, mode: InputMode) -> bool {
        &&& s.active_session matches Some(sess) && sub.session_id@ == sess.id@
        &&& sub.text@ == text
        &&& sub.agent@ == s.agent_name_spec()
        &&& if mode == InputMode::Shell {
            sub.kind == SubmissionKind::Command && sub.execution_text@ == command_execution_text(text)
        } else {
            sub.kind == SubmissionKind::Prompt && sub.execution_text@ == text
        }
    }

    /// `t` is `s` after the submission of `text` typed in `mode` was sent, or
    /// put in line when a response is expected; the prompt is emptied.
    pub open spec fn text_submitted(s: AppState, t: AppState, text: Seq<char>, mode: InputMode) -> bool {
        &&& t.prompt_bar@ == (Seq::<char>::empty(), 0nat)
        &&& if s.is_streaming || s.active_submission is Some {
            &&& t == (AppState {
                queued_submissions: t.queued_submissions,
                chat: t.chat,
                prompt_bar: t.prompt_bar,
                ..s
            })
            &&& t.queued_submissions@.len() == s.queued_submissions@.len() + 1
            &&& t.queued_submissions@.drop_last() == s.queued_submissions@
            &&& Self::submission_for(s, t.queued_submissions@.last(), text, mode)
            &&& t.chat == (ChatState { queued: t.chat.queued, ..s.chat })
            &&& t.chat.queued@.len() == s.chat.queued@.len() + 1
            &&& t.chat.queued@.drop_last() == s.chat.queued@
            &&& crate::chat::is_user_text_message(t.chat.queued@.last(), text)
        } else {
            &&& t == (AppState {
                chat: t.chat,
                draft: t.draft,
                active_mode: AppMode::Chat,
                is_streaming: true,
                response_indicator_until_tick: sat_add(s.tick, RESPONSE_INDICATOR_TICKS),
                pending_ops: t.pending_ops,
                prompt_bar: t.prompt_bar,
                ..s
            })
            &&& Self::op_pushed(
                s,
                t,
                |op: BackendOp|
                    op matches BackendOp::Submit { submission } && Self::submission_for(s, submission, text, mode),
            )
            &&& t.draft matches Some(d) && d@ == text
            &&& t.chat.messages@.len() == s.chat.messages@.len() + 1
            &&& t.chat.messages@.drop_last() == s.chat.messages@
            &&& crate::chat::is_user_text_message(t.chat.messages@.last(), text)
            &&& t.chat.stream_cleared()
            &&& t.chat.queued == s.chat.queued
        }
    }

    /// `t` is `s` with a session creation queued, to send `text` typed in
    /// `mode` once the session exists.
    pub open spec fn session_requested_for(s: AppState, t: AppState, text: Seq<char>, mode: InputMode) -> bool {
        &&& t == (AppState { pending_ops: t.pending_ops, ..s })
        &&& Self::op_pushed(
            s,
            t,
            |op: BackendOp|
                Self::creates_session(
                    s,
                    op,
                    |p: CreateSessionPurpose|
                        p matches CreateSessionPurpose::Send { text: x, mode: m, agent } && x@ == text && m
                            == mode && agent@ == s.agent_name_spec(),
                ),
        )
    }

    /// Sends `text` typed in `mode` to the session shown, or asks for a
    /// session first when there is none.
    fn submit_text(&mut self, text: String, mode: InputMode)
        requires
            old(self).wf(),
        ensures
            final(self).chat.partial_parts@.len() <= old(self).chat.partial_parts@.len(),
            final(self).wf(),
            old(self).active_session is Some ==> Self::text_submitted(*old(self), *final(self), text@, mode),
            old(self).active_session is None ==> Self::session_requested_for(*old(self), *final(self), text@, mode),
    {
        let agent = self.active_agent_name().to_owned();
        match self.active_session_id() {
            Some(session_id) => {
                self.prompt_bar.clear();
                assert(self.prompt_bar@.0 =~= Seq::<char>::empty());
                let message = user_loaded_message(text.as_str());
                let submission = match mode {
                    InputMode::Shell => Submission::command(session_id, text, agent),
                    _ => Submission::prompt(session_id, text, agent),
                };
                let ghost mid = *self;
                self.queue_or_dispatch_submission(submission, message);
                proof {
                    if old(self).is_streaming || old(self).active_submission is Some {
                        assert(self.queued_submissions@.drop_last() =~= old(self).queued_submissions@);
                        assert(self.chat.queued@.drop_last() =~= old(self).chat.queued@);
                    } else {
                        assert(self.pending_ops@.drop_last() =~= old(self).pending_ops@);
                        assert(self.chat.messages@.drop_last() =~= old(self).chat.messages@);
                    }
                }
            },
            None => {
                let session_directory = self.create_session_directory();
                self.queue_op(
                    BackendOp::CreateSession {
                        title: "Chat".to_owned(),
                        session_directory,
                        purpose: CreateSessionPurpose::Send { text, mode, agent },
                    },
                );
            },
        }
    }

    /// Sends what the prompt holds: a client command runs, any other text is
    /// submitted (see `submit_text`).
    fn handle_send_message(&mut self) -> (r: bool)
        requires
            old(self).wf(),
        ensures
            final(self).chat.partial_parts@.len() <= old(self).chat.partial_parts@.len(),
            final(self).wf(),
            input_mode_of(old(self).prompt_bar@.0) == InputMode::Command ==> Self::slash_handled(
                *old(self),
                *final(self),
                old(self).prompt_bar@.0,
                r,
            ),
            input_mode_of(old(self).prompt_bar@.0) != InputMode::Command ==> {
                &&& r
                &&& old(self).active_session is Some ==> Self::text_submitted(
                    *old(self),
                    *final(self),
                    old(self).prompt_bar@.0,
                    input_mode_of(old(self).prompt_bar@.0),
                )
                &&& old(self).active_session is None ==> Self::session_requested_for(
                    *old(self),
                    *final(self),
                    old(self).prompt_bar@.0,
                    input_mode_of(old(self).prompt_bar@.0),
                )
            },
    {
        let text = self.prompt_bar.text();
        let mode = self.prompt_bar.input_mode();
        if mode == InputMode::Command {
            return self.handle_slash_command(text.as_str());
        }
        self.submit_text(text, mode);
        true
    }

    /// `t` and the result `r` are `s` after the slash command `text`: a client
    /// command runs as typed; other text goes to the agent as a prompt.
    pub open spec fn slash_handled(s: AppState, t: AppState, text: Seq<char>, r: bool) -> bool {
        match tui_command_of(text) {
            Some(c) => r == (c != TuiCommand::Exit) && t.wf() && Self::tui_command_executed(
                s,
                t,
                c,
                TuiCommandContext { clear_prompt: true, toggle_panels: false },
            ),
            None => {
                &&& r
                &&& s.active_session is Some ==> Self::text_submitted(s, t, text, InputMode::Normal)
                &&& s.active_session is None ==> Self::session_requested_for(s, t, text, InputMode::Normal)
            },
        }
    }

    /// "/abort" typed at the prompt, with any whitespace around it, asks the
    /// server to abort the active session and sends nothing to the agent.
    pub proof fn law_typed_abort_aborts(s: AppState, t: AppState, text: Seq<char>, r: bool)
        requires
            Self::slash_handled(s, t, text, r),
            trim_spec(text) == "/abort"@,
        ensures
            r,
            s.active_session matches Some(a) ==> t.pending_ops@ == s.pending_ops@.push(
                BackendOp::AbortSession { session_id: a.id },
            ) && t == (AppState { pending_ops: t.pending_ops, ..s }),
            s.active_session is None ==> t == s,
    {
        law_client_command_names(text);
    }

    /// Runs a slash command typed into the prompt.
    fn handle_slash_command(&mut self, text: &str) -> (r: bool)
        requires
            old(self).wf(),
        ensures
            final(self).chat.partial_parts@.len() <= old(self).chat.partial_parts@.len(),
            final(self).wf(),
            Self::slash_handled(*old(self), *final(self), text@, r),
    {
        match TuiCommand::parse(text) {
            Some(command) => self.execute_tui_command(command, TuiCommandContext::typed()),
            None => self.handle_unknown_slash_command(text),
        }
    }

    /// Sends slash text that names no client command to the agent as a prompt.
    fn handle_unknown_slash_command(&mut self, text: &str) -> (r: bool)
        requires
            old(self).wf(),
        ensures
            final(self).chat.partial_parts@.len() <= old(self).chat.partial_parts@.len(),
            final(self).wf(),
            r,
            old(self).active_session is Some ==> Self::text_submitted(*old(self), *final(self), text@, InputMode::Normal),
            old(self).active_session is None ==> Self::session_requested_for(*old(self), *final(self), text@, InputMode::Normal),
    {
        self.submit_text(text.to_owned(), InputMode::Normal);
        true
    }

    /// `t` and `r` are `s` after the response was stopped: the server is asked
    /// to abort the session shown, and what was streamed and queued is dropped.
    pub open spec fn interrupted(s: AppState, t: AppState, r: bool) -> bool {
        &&& (r)
        &&& (t.chat.stream_cleared())
        &&& (t.chat.queued@.len() == 0)
        &&& (t.chat.messages == s.chat.messages)
        &&& (t == (AppState {
            pending_ops: t.pending_ops,
            is_streaming: false,
            response_indicator_until_tick: 0,
            chat: t.chat,
            active_submission: None,
            queued_submissions: t.queued_submissions,
            ..s
        }))
        &&& (t.queued_submissions@.len() == 0)
        &&& (match s.active_session {
            Some(a) => t.pending_ops@ == s.pending_ops@.push(
                BackendOp::AbortSession { session_id: a.id },
            ),
            None => t.pending_ops == s.pending_ops,
        })
    }

    /// Stops the response: the server is asked to abort, and what was
    /// streamed and queued is dropped.
    fn handle_interrupt(&mut self) -> (r: bool)
        ensures
            Self::interrupted(*old(self), *final(self), r),
    {
        match &self.active_session {
            Some(session) => {
                let session_id = session.id.clone();
                self.queue_op(BackendOp::AbortSession { session_id });
            },
            None => {},
        }
        self.is_streaming = false;
        self.response_indicator_until_tick = 0;
        self.chat.clear_partial_stream();
        self.active_submission = None;
        self.queued_submissions.clear();
        self.chat.clear_queued_messages();
        true
    }

    /// Lines a page key scrolls: the terminal view's height less one, at least one.
    pub open spec fn page_amount_spec(&self) -> u16 {
        if self.terminal_view_height >= 2 {
            (self.terminal_view_height - 1) as u16
        } else {
            1
        }
    }

    fn page_scroll_amount(&self) -> (r: u16)
        ensures
            r == self.page_amount_spec(),
    {
        let a = self.terminal_view_height.saturating_sub(1);
        if a >= 1 {
            a
        } else {
            1
        }
    }

    /// Scroll keys move the terminal when it shows, full screen or in the side panel.
    pub open spec fn scroll_targets_terminal_spec(&self) -> bool {
        self.active_mode == AppMode::Terminal || (self.side_panel_visible && self.side_panel_tab
            == Tab::Pane)
    }

    fn scroll_targets_terminal(&self) -> (r: bool)
        ensures
            r == self.scroll_targets_terminal_spec(),
    {
        self.active_mode == AppMode::Terminal || (self.side_panel_visible && self.side_panel_tab
            == Tab::Pane)
    }

    /// How far the terminal can scroll up: the lines that do not fit.
    pub open spec fn max_terminal_scroll_spec(&self) -> u16 {
        if self.terminal.lines@.len() > self.terminal_view_height as int {
            (self.terminal.lines@.len() - self.terminal_view_height as int) as u16
        } else {
            0
        }
    }

    fn max_terminal_scroll(&self) -> (r: u16)
        ensures
            r == self.max_terminal_scroll_spec(),
    {
        let n = self.terminal.lines.len().saturating_sub(self.terminal_view_height as usize);
        n as u16
    }

    fn scroll_terminal_up(&mut self, amount: u16)
        ensures
            *final(self) == (AppState { terminal: final(self).terminal, ..*old(self) }),
            final(self).terminal == (TerminalPane {
                scroll: min_u16(
                    sat_add_u16(old(self).terminal.scroll, amount),
                    old(self).max_terminal_scroll_spec(),
                ),
                ..old(self).terminal
            }),
    {
        let max_scroll = self.max_terminal_scroll();
        let up = self.terminal.scroll.saturating_add(amount);
        self.terminal.scroll = if up < max_scroll {
            up
        } else {
            max_scroll
        };
    }

    fn scroll_terminal_down(&mut self, amount: u16)
        ensures
            *final(self) == (AppState { terminal: final(self).terminal, ..*old(self) }),
            final(self).terminal == (TerminalPane {
                scroll: sat_sub_u16(old(self).terminal.scroll, amount),
                ..old(self).terminal
            }),
    {
        self.terminal.scroll = self.terminal.scroll.saturating_sub(amount);
    }

    /// Scrolls the terminal or the chat up by `amount` lines.
    fn scroll_up_by(&mut self, amount: u16)
        ensures
            self_scrolled(*old(self), *final(self), true, amount),
    {
        if self.scroll_targets_terminal() {
            self.scroll_terminal_up(amount);
        } else {
            self.chat_scroll = self.chat_scroll.saturating_add(amount);
        }
    }

    /// Scrolls the terminal or the chat down by `amount` lines.
    fn scroll_down_by(&mut self, amount: u16)
        ensures
            self_scrolled(*old(self), *final(self), false, amount),
    {
        if self.scroll_targets_terminal() {
            self.scroll_terminal_down(amount);
        } else {
            self.chat_scroll = self.chat_scroll.saturating_sub(amount);
        }
    }

    /// `t` is `s` with the dialog closed and then the next pending request opened.
    pub open spec fn closed_then_next(s: AppState, t: AppState) -> bool {
        Self::next_blocking_opened(AppState { active_modal: None, active_blocking_prompt: None, ..s }, t)
    }

    /// `t` is `s` with the dialog `id` open (a fresh one, answering no request).
    pub open spec fn modal_opened(s: AppState, t: AppState, id: ModalId) -> bool {
        &&& t == (AppState { active_modal: t.active_modal, active_blocking_prompt: None, ..s })
        &&& t.active_modal matches Some(m) && m.id() == id
    }

    /// The reply word and the toast message for a permission reply.
    pub open spec fn permission_reply_text(a: PermissionReplyAction) -> (Seq<char>, Seq<char>) {
        match a {
            PermissionReplyAction::Once => ("once"@, "Permission allowed once"@),
            PermissionReplyAction::Always => ("always"@, "Permission allowed always"@),
            PermissionReplyAction::Reject => ("reject"@, "Permission denied"@),
        }
    }

    /// `t` is `s` after answering the permission request `rid` of session
    /// `sid`: the request leaves the pending list, its dialog closes, the next
    /// request opens, and the reply is sent.
    pub open spec fn permission_replied(
        s: AppState,
        t: AppState,
        sid: String,
        rid: String,
        a: PermissionReplyAction,
    ) -> bool {
        &&& match first_where(s.pending_permissions@, permission_with_id(rid@)) {
            Some(j) => t.pending_permissions@ == s.pending_permissions@.remove(j),
            None => t.pending_permissions == s.pending_permissions,
        }
        &&& Self::closed_then_next(
            AppState { pending_permissions: t.pending_permissions, ..s },
            AppState { pending_ops: s.pending_ops, ..t },
        )
        &&& Self::op_pushed(
            s,
            t,
            |op: BackendOp|
                op matches BackendOp::ReplyPermission { reply, message } && reply.session_id == sid
                    && reply.request_id == rid && reply.reply@ == Self::permission_reply_text(a).0
                    && message@ == Self::permission_reply_text(a).1,
        )
    }

    /// `t` is `s` after the question request `rid` was answered or rejected:
    /// the request leaves the pending list, its dialog closes, the next request
    /// opens, and `op` goes to the server.
    pub open spec fn question_closed(s: AppState, t: AppState, rid: Seq<char>, op: BackendOp) -> bool {
        &&& match first_where(s.pending_questions@, question_with_id(rid)) {
            Some(j) => t.pending_questions@ == s.pending_questions@.remove(j),
            None => t.pending_questions == s.pending_questions,
        }
        &&& Self::closed_then_next(
            AppState { pending_questions: t.pending_questions, ..s },
            AppState { pending_ops: s.pending_ops, ..t },
        )
        &&& t.pending_ops@ == s.pending_ops@.push(op)
    }

    fn reply_permission(&mut self, session_id: String, request_id: String, a: PermissionReplyAction)
        requires
            old(self).wf(),
        ensures
            final(self).wf(),
            Self::permission_replied(*old(self), *final(self), session_id, request_id, a),
    {
        let (value, message): (&str, &str) = match a {
            PermissionReplyAction::Once => ("once", "Permission allowed once"),
            PermissionReplyAction::Always => ("always", "Permission allowed always"),
            PermissionReplyAction::Reject => ("reject", "Permission denied"),
        };
        self.remove_pending_permission_by_id(request_id.as_str());
        self.clear_active_modal();
        self.open_next_blocking_modal_if_idle();
        let reply = PermissionReply { session_id, request_id, reply: value.to_owned() };
        self.queue_op(BackendOp::ReplyPermission { reply, message: message.to_owned() });
    }

    fn reply_question(&mut self, session_id: String, request_id: String, answers: Vec<Vec<String>>)
        requires
            old(self).wf(),
        ensures
            final(self).wf(),
            Self::question_closed(
                *old(self),
                *final(self),
                request_id@,
                BackendOp::ReplyQuestion { reply: QuestionReply { session_id, request_id, answers } },
            ),
    {
        self.remove_pending_question_by_id(request_id.as_str());
        self.clear_active_modal();
        self.open_next_blocking_modal_if_idle();
        self.queue_op(
            BackendOp::ReplyQuestion { reply: QuestionReply { session_id, request_id, answers } },
        );
    }

    fn reject_question(&mut self, request_id: String)
        requires
            old(self).wf(),
        ensures
            final(self).wf(),
            Self::question_closed(
                *old(self),
                *final(self),
                request_id@,
                BackendOp::RejectQuestion { request_id },
            ),
    {
        self.remove_pending_question_by_id(request_id.as_str());
        self.clear_active_modal();
        self.open_next_blocking_modal_if_idle();
        self.queue_op(BackendOp::RejectQuestion { request_id });
    }

    /// `t` is `s` with `kind` shown in `mode`, in the policy and in an open
    /// display dialog.
    pub open spec fn display_mode_set(s: AppState, t: AppState, kind: PartKind, mode: PartDisplayMode) -> bool {
        &&& t == (AppState { display_policy: t.display_policy, active_modal: t.active_modal, ..s })
        &&& forall|k: PartKind|
            #[trigger] t.display_policy.mode_spec(k) == if k == kind {
                mode
            } else {
                s.display_policy.mode_spec(k)
            }
        &&& match s.active_modal {
            Some(ActiveModal::DisplayConfig(m)) => t.active_modal == Some(
                ActiveModal::DisplayConfig(DisplayConfigModal { policy: t.display_policy, ..m }),
            ),
            _ => t.active_modal == s.active_modal,
        }
    }

    fn set_display_mode(&mut self, kind: PartKind, mode: PartDisplayMode)
        requires
            old(self).wf(),
        ensures
            final(self).wf(),
            Self::display_mode_set(*old(self), *final(self), kind, mode),
    {
        self.display_policy.set_mode(kind, mode);
        let policy = self.display_policy;
        match &mut self.active_modal {
            Some(ActiveModal::DisplayConfig(m)) => m.set_policy(policy),
            _ => {},
        }
    }

    /// `t` is `s` with the terminal view toggled: back to the view before it,
    /// or into it, remembering the view it left.
    pub open spec fn terminal_toggled(s: AppState, t: AppState) -> bool {
        if s.active_mode == AppMode::Terminal {
            t == (AppState { active_mode: s.mode_before_terminal, ..s })
        } else {
            t == (AppState { mode_before_terminal: s.active_mode, active_mode: AppMode::Terminal, ..s })
        }
    }

    /// `t` is `s` with the side panel on `tab` toggled: hidden when it shows
    /// that tab, else shown on it from the top.
    pub open spec fn side_tab_toggled(s: AppState, t: AppState, tab: Tab) -> bool {
        if s.side_panel_visible && s.side_panel_tab == tab {
            t == (AppState { side_panel_visible: false, ..s })
        } else {
            t == (AppState { side_panel_tab: tab, side_panel_visible: true, side_panel_scroll: 0, ..s })
        }
    }

    /// What doing `action` does to `s`, giving `t` and the result `r` (see
    /// `apply_action`).
    pub open spec fn action_applied(s: AppState, t: AppState, action: Option<Action>, r: bool) -> bool {
        &&& (t.chat.partial_parts@.len() <= s.chat.partial_parts@.len())
        &&& (t.error == s.error)
        &&& (t.key_chord == s.key_chord)
        &&& (t.prompt_bar == s.prompt_bar)
        &&& (match action {
            None => r && t == s,
            Some(a) => match a {
                Action::Quit => !r && t == s,
                Action::CycleAgent => r && t == (AppState {
                    active_agent: next_agent(s.active_agent, s.agents@.len() as usize),
                    ..s
                }),
                Action::ExecuteCommand(c) => match tui_command_of(c@) {
                    Some(cmd) => r == (cmd != TuiCommand::Exit) && Self::tui_command_executed(
                        s,
                        t,
                        cmd,
                        TuiCommandContext { clear_prompt: false, toggle_panels: true },
                    ),
                    None => r && t == s,
                },
                Action::CloseModal => r && Self::closed_then_next(s, t),
                Action::OpenPalette => r && Self::modal_opened(s, t, ModalId::CommandPalette),
                Action::OpenModal(id) => r && match id {
                    ModalId::SessionList => {
                        &&& Self::modal_opened(
                            AppState { pending_ops: t.pending_ops, ..s },
                            t,
                            ModalId::SessionList,
                        )
                        &&& t.pending_ops@ == s.pending_ops@.push(BackendOp::ListSessions)
                    },
                    ModalId::ModelPicker => {
                        &&& t == (AppState {
                            active_modal: t.active_modal,
                            pending_ops: t.pending_ops,
                            ..s
                        })
                        &&& t.active_modal matches Some(m) && m.id() == ModalId::ModelPicker
                        &&& Self::op_pushed(
                            s,
                            t,
                            |op: BackendOp|
                                op matches BackendOp::OpenModelPicker { cached_models } && same_model_list(cached_models, s.model_cache),
                        )
                    },
                    ModalId::Help => Self::modal_opened(s, t, ModalId::Help),
                    ModalId::ServerConfig => {
                        &&& Self::modal_opened(s, t, ModalId::ServerConfig)
                        &&& t.active_modal matches Some(ActiveModal::ServerConfig(m)) && m.url
                            == s.current_server_url
                    },
                    ModalId::DisplayConfig => {
                        &&& Self::modal_opened(s, t, ModalId::DisplayConfig)
                        &&& t.active_modal matches Some(ActiveModal::DisplayConfig(m))
                            && m.policy == s.display_policy
                    },
                    ModalId::PermissionApproval => {
                        &&& (s.active_modal is None && s.pending_permissions@.len() > 0)
                            ==> Self::shows_permission(t.active_modal, s.pending_permissions@[0])
                            && t.active_blocking_prompt == Some(
                            ActiveBlockingPrompt::Permission(s.pending_permissions@[0].id),
                        ) && t == (AppState {
                            active_modal: t.active_modal,
                            active_blocking_prompt: t.active_blocking_prompt,
                            ..s
                        })
                        &&& !(s.active_modal is None && s.pending_permissions@.len() > 0)
                            ==> t == s
                    },
                    ModalId::QuestionApproval => {
                        &&& (s.active_modal is None && s.pending_questions@.len() > 0)
                            ==> Self::shows_question(t.active_modal, s.pending_questions@[0])
                            && t.active_blocking_prompt == Some(
                            ActiveBlockingPrompt::Question(s.pending_questions@[0].id),
                        ) && t == (AppState {
                            active_modal: t.active_modal,
                            active_blocking_prompt: t.active_blocking_prompt,
                            ..s
                        })
                        &&& !(s.active_modal is None && s.pending_questions@.len() > 0)
                            ==> t == s
                    },
                    ModalId::CommandPalette => t == s,
                },
                Action::LoadSession(id) => r && t == (AppState {
                    pending_ops: t.pending_ops,
                    ..s
                }) && t.pending_ops@ == s.pending_ops@.push(
                    BackendOp::LoadSession { session_id: id },
                ),
                Action::DeleteSession(id) => r && Self::modal_opened(
                    AppState { pending_ops: t.pending_ops, ..s },
                    t,
                    ModalId::SessionList,
                ) && t.pending_ops@ == s.pending_ops@.push(
                    BackendOp::DeleteSession { session_id: id },
                ),
                Action::Interrupt => Self::interrupted(s, t, r),
                Action::ScrollUp => r && self_scrolled(s, t, true, 1),
                Action::ScrollDown => r && self_scrolled(s, t, false, 1),
                Action::ScrollPageUp => r && self_scrolled(
                    s,
                    t,
                    true,
                    s.page_amount_spec(),
                ),
                Action::ScrollPageDown => r && self_scrolled(
                    s,
                    t,
                    false,
                    s.page_amount_spec(),
                ),
                Action::ToggleSidePanel => r && t == (AppState {
                    side_panel_visible: !s.side_panel_visible,
                    ..s
                }),
                Action::ToggleSidePanelTab(tab) => r && Self::side_tab_toggled(s, t, tab),
                Action::SidePanelSelectTab(tab) => r && t == (AppState {
                    side_panel_tab: tab,
                    side_panel_scroll: 0,
                    ..s
                }),
                Action::SetDisplayMode(kind, mode) => r && Self::display_mode_set(
                    s,
                    t,
                    kind,
                    mode,
                ),
                Action::OpenTerminal(_) => r && Self::terminal_toggled(s, t),
                Action::CloseTerminal => r && t == (AppState {
                    active_mode: AppMode::Chat,
                    ..s
                }),
                Action::ReplyPermission(sid, rid, act) => r && Self::permission_replied(
                    s,
                    t,
                    sid,
                    rid,
                    act,
                ),
                Action::ReplyQuestion(sid, rid, answers) => r && Self::question_closed(
                    s,
                    t,
                    rid@,
                    BackendOp::ReplyQuestion {
                        reply: QuestionReply { session_id: sid, request_id: rid, answers },
                    },
                ),
                Action::RejectQuestion(rid) => r && Self::question_closed(
                    s,
                    t,
                    rid@,
                    BackendOp::RejectQuestion { request_id: rid },
                ),
                Action::SelectModel(m) => r && t == (AppState {
                    pending_ops: t.pending_ops,
                    ..s
                }) && t.pending_ops@ == s.pending_ops@.push(
                    BackendOp::SelectModel { model: m },
                ),
                Action::AbortSession(id) => r && t == (AppState {
                    pending_ops: t.pending_ops,
                    ..s
                }) && t.pending_ops@ == s.pending_ops@.push(
                    BackendOp::AbortSession { session_id: id },
                ),
                Action::RenameSession(id, title) => r && t == (AppState {
                    pending_ops: t.pending_ops,
                    ..s
                }) && t.pending_ops@ == s.pending_ops@.push(
                    BackendOp::RenameSession { session_id: id, title },
                ),
                Action::TestServerUrl(url) => r && t == (AppState {
                    pending_ops: t.pending_ops,
                    ..s
                }) && t.pending_ops@ == s.pending_ops@.push(
                    BackendOp::TestServerUrl { url },
                ),
                Action::ApplyServerUrl(url) => r && t == (AppState {
                    pending_ops: t.pending_ops,
                    ..s
                }) && t.pending_ops@ == s.pending_ops@.push(
                    BackendOp::ApplyServerUrl { url },
                ),
                Action::NoAction | Action::SendMessage | Action::ApplyServerConnection(_) => r
                    && t == s,
            },
        })
    }

    /// Does what an action asks. Returns `false` when the application should quit.
    #[verifier::rlimit(80)]
    pub fn apply_action(&mut self, action: Option<Action>) -> (r: bool)
        requires
            old(self).wf(),
        ensures
            final(self).wf(),
            Self::action_applied(*old(self), *final(self), action, r),
    {
        let a = match action {
            Some(a) => a,
            None => {
                return true;
            },
        };
        match a {
            Action::Quit => {
                return false;
            },
            Action::CycleAgent => self.cycle_agent(),
            Action::ExecuteCommand(command) => {
                match TuiCommand::parse(command.as_str()) {
                    Some(c) => {
                        return self.execute_tui_command(c, TuiCommandContext::action());
                    },
                    None => {},
                }
            },
            Action::CloseModal => {
                self.clear_active_modal();
                self.open_next_blocking_modal_if_idle();
            },
            Action::OpenPalette => {
                let modal = CommandPaletteModal::new(crate::command_palette::default_commands());
                self.set_active_modal(ActiveModal::CommandPalette(modal));
            },
            Action::OpenModal(id) => match id {
                ModalId::SessionList => {
                    self.set_active_modal(ActiveModal::SessionList(SessionListModal::new()));
                    self.queue_op(BackendOp::ListSessions);
                },
                ModalId::ModelPicker => self.open_model_picker(),
                ModalId::Help => self.set_active_modal(ActiveModal::Help(HelpModal::new())),
                ModalId::ServerConfig => {
                    let url = self.current_server_url.clone();
                    self.set_active_modal(ActiveModal::ServerConfig(ServerConfigModal::new(url)));
                },
                ModalId::DisplayConfig => {
                    let policy = self.display_policy;
                    self.set_active_modal(ActiveModal::DisplayConfig(DisplayConfigModal::new(policy)));
                },
                ModalId::PermissionApproval => {
                    self.open_permission_modal_if_idle();
                },
                ModalId::QuestionApproval => {
                    self.open_question_modal_if_idle();
                },
                ModalId::CommandPalette => {},
            },
            Action::LoadSession(id) => self.queue_op(BackendOp::LoadSession { session_id: id }),
            Action::DeleteSession(id) => {
                self.set_active_modal(ActiveModal::SessionList(SessionListModal::new()));
                self.queue_op(BackendOp::DeleteSession { session_id: id });
            },
            Action::Interrupt => {
                return self.handle_interrupt();
            },
            Action::ScrollUp => self.scroll_up_by(1),
            Action::ScrollDown => self.scroll_down_by(1),
            Action::ScrollPageUp => {
                let amount = self.page_scroll_amount();
                self.scroll_up_by(amount);
            },
            Action::ScrollPageDown => {
                let amount = self.page_scroll_amount();
                self.scroll_down_by(amount);
            },
            Action::ToggleSidePanel => {
                self.side_panel_visible = !self.side_panel_visible;
            },
            Action::ToggleSidePanelTab(tab) => {
                if self.side_panel_visible && self.side_panel_tab == tab {
                    self.side_panel_visible = false;
                } else {
                    self.side_panel_tab = tab;
                    self.side_panel_visible = true;
                    self.side_panel_scroll = 0;
                }
            },
            Action::SidePanelSelectTab(tab) => {
                self.side_panel_tab = tab;
                self.side_panel_scroll = 0;
            },
            Action::SetDisplayMode(kind, mode) => self.set_display_mode(kind, mode),
            Action::OpenTerminal(_) => {
                if self.active_mode == AppMode::Terminal {
                    self.active_mode = self.mode_before_terminal;
                } else {
                    self.mode_before_terminal = self.active_mode;
                    self.active_mode = AppMode::Terminal;
                }
            },
            Action::CloseTerminal => {
                self.active_mode = AppMode::Chat;
            },
            Action::ReplyPermission(sid, rid, act) => self.reply_permission(sid, rid, act),
            Action::ReplyQuestion(sid, rid, answers) => self.reply_question(sid, rid, answers),
            Action::RejectQuestion(rid) => self.reject_question(rid),
            Action::SelectModel(model) => self.queue_op(BackendOp::SelectModel { model }),
            Action::AbortSession(id) => self.queue_op(BackendOp::AbortSession { session_id: id }),
            Action::RenameSession(id, title) => self.queue_op(
                BackendOp::RenameSession { session_id: id, title },
            ),
            Action::TestServerUrl(url) => self.queue_op(BackendOp::TestServerUrl { url }),
            Action::ApplyServerUrl(url) => self.queue_op(BackendOp::ApplyServerUrl { url }),
            Action::NoAction | Action::SendMessage | Action::ApplyServerConnection(_) => {},
        }
        true
    }

    /// A key that stops the response while one is expected: Escape or Ctrl+C.
    pub open spec fn interrupt_key(key: KeyEvent) -> bool {
        key.scancode == Scancode::Escape || (key.scancode == Scancode::Char('c') && key.modifiers.ctrl)
    }

    /// A key that scrolls: the arrows up and down and the page keys.
    pub open spec fn scroll_key(key: KeyEvent) -> bool {
        key.scancode == Scancode::Up || key.scancode == Scancode::Down || key.scancode
            == Scancode::PageUp || key.scancode == Scancode::PageDown
    }

    /// A key reaches the global shortcuts: no dialog is open and it does not
    /// stop a response.
    pub open spec fn key_reaches_shortcuts(s: AppState, key: KeyEvent) -> bool {
        s.active_modal is None && !(s.is_streaming && Self::interrupt_key(key))
    }

    /// A key passes the shortcuts untouched: it completes no chord and leaves
    /// no leader pending.
    pub open spec fn key_passes_shortcuts(s: AppState, key: KeyEvent) -> bool {
        &&& Self::key_reaches_shortcuts(s, key)
        &&& chord_step(s.key_chord@, key, s.tick).1 == ChordOutcome::Nothing
        &&& chord_step(s.key_chord@, key, s.tick).0 is None
    }

    /// A key scrolls the view: in the terminal, in the chat, or in the
    /// terminal shown in the side panel.
    pub open spec fn key_scrolls(s: AppState, key: KeyEvent) -> bool {
        &&& Self::scroll_key(key)
        &&& (s.active_mode == AppMode::Terminal || s.active_mode == AppMode::Chat || (
        s.side_panel_visible && s.side_panel_tab == Tab::Pane))
    }

    /// What the action `a` that the open dialog returned for `key` does to
    /// `u`: closing the dialog (or Escape with a dialog that answers no
    /// request) closes it and opens the next pending request; no action
    /// changes nothing; any other action is done.
    pub open spec fn modal_action_applied(u: AppState, t: AppState, key: KeyEvent, a: Action, r: bool) -> bool {
        if a == Action::CloseModal || (a == Action::NoAction && key.scancode == Scancode::Escape
            && u.active_blocking_prompt is None) {
            r && Self::closed_then_next(u, t)
        } else if a == Action::NoAction {
            r && t == u
        } else {
            Self::action_applied(u, t, Some(a), r)
        }
    }

    /// Enter on a palette command whose action is to quit stops the
    /// application.
    pub proof fn law_palette_quit_stops(s: AppState, t: AppState, key: KeyEvent, r: bool, p: CommandPaletteModal)
        requires
            s.active_modal == Some(ActiveModal::CommandPalette(p)),
            key.scancode == Scancode::Enter,
            p.selected_spec() < p.shown().len(),
            p.commands_spec()[p.shown()[p.selected_spec() as int] as int].action == screen::Action::Quit,
            Self::key_handled(s, t, key, r),
        ensures
            !r,
    {
        let m = ActiveModal::CommandPalette(p);
        let (m2, a) = choose|m2: ActiveModal, a: Action|
            {
                &&& ActiveModal::event_handled(m, m2, Event::Key(key), a)
                &&& Self::modal_action_applied(
                    AppState { active_modal: Some(m2), error: None, ..s },
                    t,
                    key,
                    a,
                    r,
                )
            };
        match m2 {
            ActiveModal::CommandPalette(b) => {
                let pa = choose|pa: screen::Action|
                    CommandPaletteModal::event_handled(p, b, Event::Key(key), pa) && is_palette_action(pa, a);
                assert(screen::same_action(pa, screen::Action::Quit));
                assert(pa == screen::Action::Quit);
                assert(a == Action::Quit);
            },
            _ => {
                assert(!ActiveModal::event_handled(m, m2, Event::Key(key), a));
            },
        }
    }

    /// What a key press does to `s`, giving `t` and the result `r` (see `handle_key`).
    pub open spec fn key_handled(s: AppState, t: AppState, key: KeyEvent, r: bool) -> bool {
        &&& (t.error is None)
        &&& (s.active_modal is Some ==> t.prompt_bar == s.prompt_bar
            && t.key_chord == s.key_chord)
        &&& (s.active_modal matches Some(m) ==> exists|m2: ActiveModal, a: Action|
            {
                &&& ActiveModal::event_handled(m, m2, Event::Key(key), a)
                &&& Self::modal_action_applied(
                    AppState { active_modal: Some(m2), error: None, ..s },
                    t,
                    key,
                    a,
                    r,
                )
            })
        &&& (s.active_modal is None && s.is_streaming && Self::interrupt_key(key) ==> Self::interrupted(
            AppState { error: None, ..s },
            t,
            r,
        ))
        &&& (Self::key_reaches_shortcuts(s, key) && chord_step(s.key_chord@, key, s.tick).1
            != ChordOutcome::Nothing ==> exists|a: Action|
            {
                &&& outcome_matches(Some(a), chord_step(s.key_chord@, key, s.tick).1)
                &&& Self::action_applied(
                    AppState { key_chord: t.key_chord, error: None, ..s },
                    t,
                    Some(a),
                    r,
                )
            })
        &&& (Self::key_reaches_shortcuts(s, key) && chord_step(s.key_chord@, key, s.tick).1
            == ChordOutcome::Nothing && chord_step(s.key_chord@, key, s.tick).0 is Some ==> r && t
            == (AppState { key_chord: t.key_chord, error: None, ..s }))
        &&& (Self::key_reaches_shortcuts(s, key) ==> {
            &&& t.key_chord@ == chord_step(s.key_chord@, key, s.tick).0
            &&& chord_step(s.key_chord@, key, s.tick).1 == ChordOutcome::Quit ==> !r
        })
        &&& (Self::key_passes_shortcuts(s, key) ==> {
            &&& key.scancode == Scancode::Tab ==> r && t == (AppState {
                active_agent: if key.modifiers.shift {
                    prev_agent(s.active_agent, s.agents@.len() as usize)
                } else {
                    next_agent(s.active_agent, s.agents@.len() as usize)
                },
                key_chord: t.key_chord,
                error: None,
                ..s
            })
            &&& key.scancode == Scancode::Escape ==> r && t.prompt_bar@.0.len() == 0
                && t == (AppState {
                prompt_bar: t.prompt_bar,
                key_chord: t.key_chord,
                error: None,
                ..s
            })
            &&& Self::key_scrolls(s, key) ==> r && self_scrolled(
                AppState { key_chord: t.key_chord, error: None, ..s },
                t,
                key.scancode == Scancode::Up || key.scancode == Scancode::PageUp,
                if key.scancode == Scancode::Up || key.scancode == Scancode::Down {
                    1
                } else {
                    s.page_amount_spec()
                },
            )
            &&& (key.scancode != Scancode::Tab && key.scancode != Scancode::Escape
                && s.active_mode == AppMode::Terminal && !Self::scroll_key(key)) ==> r
                && t == (AppState {
                key_chord: t.key_chord,
                error: None,
                ..s
            })
            &&& (key.scancode matches Scancode::Char(c) && s.active_mode != AppMode::Terminal)
                ==> r && t.prompt_bar@.0 == s.prompt_bar@.0.insert(
                s.prompt_bar@.1 as int,
                key.scancode->Char_0,
            ) && t == (AppState {
                prompt_bar: t.prompt_bar,
                key_chord: t.key_chord,
                error: None,
                ..s
            })
            &&& (key.scancode == Scancode::Enter && s.active_mode != AppMode::Terminal
                && s.prompt_bar@.0.len() > 0 && input_mode_of(s.prompt_bar@.0)
                != InputMode::Command) ==> r && (s.active_session is Some ==> Self::text_submitted(
                AppState { key_chord: t.key_chord, error: None, ..s },
                t,
                s.prompt_bar@.0,
                input_mode_of(s.prompt_bar@.0),
            )) && (s.active_session is None ==> Self::session_requested_for(
                AppState { key_chord: t.key_chord, error: None, ..s },
                t,
                s.prompt_bar@.0,
                input_mode_of(s.prompt_bar@.0),
            ))
            &&& (key.scancode != Scancode::Tab && key.scancode != Scancode::Escape && s.active_mode
                != AppMode::Terminal && !Self::key_scrolls(s, key)) ==> {
                let u = AppState { key_chord: t.key_chord, error: None, ..s };
                if key.scancode == Scancode::Enter && s.prompt_bar@.0.len() > 0 {
                    input_mode_of(s.prompt_bar@.0) == InputMode::Command ==> Self::slash_handled(
                        u,
                        t,
                        s.prompt_bar@.0,
                        r,
                    )
                } else {
                    &&& r
                    &&& t == (AppState { prompt_bar: t.prompt_bar, ..u })
                    &&& PromptBar::key_edited(s.prompt_bar, t.prompt_bar, key, None)
                }
            }
        })
    }

    /// A key press goes, in this order, to the open dialog; to stopping the
    /// response; to the global shortcuts; to agent cycling (Tab), clearing the
    /// prompt (Escape) and scrolling; and last to the prompt, where Enter
    /// sends. Returns `false` when the application should quit.
    fn handle_key(&mut self, key: KeyEvent) -> (r: bool)
        requires
            old(self).wf(),
        ensures
            final(self).chat.partial_parts@.len() <= old(self).chat.partial_parts@.len(),
            final(self).wf(),
            Self::key_handled(*old(self), *final(self), key, r),
    {
        self.error = None;
        if self.active_modal.is_some() {
            let action = match &mut self.active_modal {
                Some(m) => m.handle_event(Event::Key(key)),
                None => Action::NoAction,
            };
            let ghost a = action;
            let ghost u = *self;
            assert(u == (AppState { active_modal: Some(u.active_modal->Some_0), error: None, ..*old(self) }));
            assert(ActiveModal::event_handled(old(self).active_modal->Some_0, u.active_modal->Some_0, Event::Key(key), a));
            let r = match action {
                Action::CloseModal => {
                    self.clear_active_modal();
                    self.open_next_blocking_modal_if_idle();
                    true
                },
                Action::NoAction => {
                    if key.scancode == Scancode::Escape && self.active_blocking_prompt.is_none() {
                        self.clear_active_modal();
                        self.open_next_blocking_modal_if_idle();
                    }
                    true
                },
                other => self.apply_action(Some(other)),
            };
            assert(Self::modal_action_applied(u, *self, key, a, r));
            return r;
        }
        if self.is_streaming {
            if key.scancode == Scancode::Escape {
                return self.handle_interrupt();
            }
            if key.scancode == Scancode::Char('c') && key.modifiers.ctrl {
                return self.handle_interrupt();
            }
        }
        let tick = self.tick;
        match self.key_chord.handle(&key, tick) {
            Some(action) => {
                let ghost a = action;
                let ghost u = *self;
                let r = self.apply_action(Some(action));
                assert(Self::action_applied(u, *self, Some(a), r));
                return r;
            },
            None => {},
        }
        if self.key_chord.is_leader_active() {
            return true;
        }
        if key.scancode == Scancode::Tab {
            if key.modifiers.shift {
                self.cycle_agent_back();
            } else {
                self.cycle_agent();
            }
            return true;
        }
        if key.scancode == Scancode::Escape {
            if !self.prompt_bar.is_empty() {
                self.prompt_bar.clear();
            }
            return true;
        }
        let scroll: Option<Action> = match key.scancode {
            Scancode::Up => Some(Action::ScrollUp),
            Scancode::Down => Some(Action::ScrollDown),
            Scancode::PageUp => Some(Action::ScrollPageUp),
            Scancode::PageDown => Some(Action::ScrollPageDown),
            _ => None,
        };
        if self.active_mode == AppMode::Terminal {
            if scroll.is_some() {
                return self.apply_action(scroll);
            }
            return true;
        }
        if self.active_mode == AppMode::Chat || (self.side_panel_visible && self.side_panel_tab
            == Tab::Pane) {
            if scroll.is_some() {
                return self.apply_action(scroll);
            }
        }
        match self.prompt_bar.handle_key(&key) {
            Some(Action::SendMessage) => {
                return self.handle_send_message();
            },
            _ => {},
        }
        true
    }

    /// `t` is `s` with one more toast, created now, with the given title,
    /// text, variant and duration.
    pub open spec fn toast_added(
        s: AppState,
        t: AppState,
        title: Option<Seq<char>>,
        message: Seq<char>,
        variant: ToastVariant,
        duration: u64,
    ) -> bool {
        &&& t == (AppState { toasts: t.toasts, ..s })
        &&& t.toasts@.len() > 0
        &&& crate::chat::opt_view(t.toasts@.last().title) == title
        &&& t.toasts@.last().message@ == message
        &&& t.toasts@.last().variant == variant
        &&& t.toasts@.last().created_at == s.tick
        &&& t.toasts@.last().duration == duration
        &&& t.toasts@.drop_last() == if s.toasts@.len() < MAX_STORED_TOASTS {
            s.toasts@
        } else {
            s.toasts@.drop_first()
        }
    }

    /// The variant a toast request names: "success", "warning" or "error",
    /// anything else informational.
    pub open spec fn toast_variant_of(v: Seq<char>) -> ToastVariant {
        if v == "success"@ {
            ToastVariant::Success
        } else if v == "warning"@ {
            ToastVariant::Warning
        } else if v == "error"@ {
            ToastVariant::Error
        } else {
            ToastVariant::Info
        }
    }

    /// Whether `sid` is the session shown.
    pub open spec fn shows_session(s: AppState, sid: Seq<char>) -> bool {
        s.active_session matches Some(a) && a.id@ == sid
    }

    /// Runs a client command named by server or palette text, if it names one.
    fn handle_tui_command_text(&mut self, text: &str, context: TuiCommandContext) -> (r: Option<bool>)
        requires
            old(self).wf(),
        ensures
            final(self).chat == old(self).chat,
            final(self).wf(),
            final(self).error == old(self).error,
            final(self).key_chord == old(self).key_chord,
            match tui_command_of(text@) {
                Some(c) => r == Some(c != TuiCommand::Exit) && Self::tui_command_executed(
                    *old(self),
                    *final(self),
                    c,
                    context,
                ),
                None => r is None && *final(self) == *old(self),
            },
    {
        match TuiCommand::parse(text) {
            Some(c) => Some(self.execute_tui_command(c, context)),
            None => None,
        }
    }

    /// `t` is `s` after the server settled the permission request `rid`: the
    /// request leaves the pending list, its dialog closes if open, and the
    /// next pending request opens.
    pub open spec fn permission_resolved(s: AppState, t: AppState, rid: Seq<char>) -> bool {
        let answering = s.active_blocking_prompt matches Some(ActiveBlockingPrompt::Permission(id)) && id@
            == rid;
        &&& match first_where(s.pending_permissions@, permission_with_id(rid)) {
            Some(j) => t.pending_permissions@ == s.pending_permissions@.remove(j),
            None => t.pending_permissions == s.pending_permissions,
        }
        &&& Self::next_blocking_opened(
            AppState {
                pending_permissions: t.pending_permissions,
                active_modal: if answering {
                    None
                } else {
                    s.active_modal
                },
                active_blocking_prompt: if answering {
                    None
                } else {
                    s.active_blocking_prompt
                },
                ..s
            },
            t,
        )
    }

    /// `t` is `s` after the server settled the question request `rid` (see
    /// `permission_resolved`).
    pub open spec fn question_resolved(s: AppState, t: AppState, rid: Seq<char>) -> bool {
        let answering = s.active_blocking_prompt matches Some(ActiveBlockingPrompt::Question(id)) && id@
            == rid;
        &&& match first_where(s.pending_questions@, question_with_id(rid)) {
            Some(j) => t.pending_questions@ == s.pending_questions@.remove(j),
            None => t.pending_questions == s.pending_questions,
        }
        &&& Self::next_blocking_opened(
            AppState {
                pending_questions: t.pending_questions,
                active_modal: if answering {
                    None
                } else {
                    s.active_modal
                },
                active_blocking_prompt: if answering {
                    None
                } else {
                    s.active_blocking_prompt
                },
                ..s
            },
            t,
        )
    }

    /// `t` is `s` after the response failed with `message`: the error shows,
    /// the stream is dropped, nothing is expected any more, and the next
    /// submission in line is sent.
    pub open spec fn stream_failed(s: AppState, t: AppState, message: String) -> bool {
        exists|u: AppState|
            {
                &&& u == (AppState {
                    error: Some(message),
                    chat: u.chat,
                    is_streaming: false,
                    response_indicator_until_tick: 0,
                    active_submission: None,
                    ..s
                })
                &&& u.chat.stream_cleared()
                &&& u.chat.messages == s.chat.messages
                &&& u.chat.queued == s.chat.queued
                &&& Self::next_dispatched(u, t)
            }
    }

    /// What a server event does to `s`, giving `t` and the result `r`.
    pub open spec fn backend_event_handled(s: AppState, t: AppState, event: crate::model::BackendEvent, r: bool) -> bool {
        &&& (t.chat.partial_parts@.len() <= s.chat.partial_parts@.len() + 1)
        &&& (t.sync_known_sequences == s.sync_known_sequences)
        &&& (!(event is TuiCommandExecute) ==> r)
        &&& (match event {
            crate::model::BackendEvent::Error { message } => {
                &&& Self::stream_failed(s, t, message)
                &&& t.error == Some(message)
                &&& t.live_reconnect_at_tick == s.live_reconnect_at_tick
            },
            crate::model::BackendEvent::SessionCreated { session } => {
                &&& t == (AppState {
                    active_session: Some(session),
                    active_mode: AppMode::Chat,
                    error: None,
                    chat: t.chat,
                    ..s
                })
                &&& (s.active_session matches Some(a) && a.id@ == session.id@) ==> t.chat
                    == s.chat
                &&& !(s.active_session matches Some(a) && a.id@ == session.id@) ==> t.chat
                    == (ChatState { messages: t.chat.messages, ..s.chat })
                    && t.chat.messages@.len() == 0
            },
            crate::model::BackendEvent::SessionUpdated { session } => t == (AppState {
                active_session: if s.active_session matches Some(a) && a.id@ == session.id@ {
                    Some(session)
                } else {
                    s.active_session
                },
                ..s
            }),
            crate::model::BackendEvent::SessionDeleted { .. } => {
                &&& t == (AppState {
                    active_session: None,
                    active_mode: AppMode::StartPage,
                    chat: ChatState { messages: t.chat.messages, ..s.chat },
                    ..s
                })
                &&& t.chat.messages@.len() == 0
            },
            crate::model::BackendEvent::SessionError { error, .. } => t == (AppState {
                error: t.error,
                ..s
            }) && (t.error matches Some(e) && e@ == "Session error: "@ + debug_quoted(error@)),
            crate::model::BackendEvent::MessageUpdated { session_id, message } => Self::message_update_applied(
                s,
                t,
                session_id@,
                message,
            ),
            crate::model::BackendEvent::MessageRemoved { session_id, message_id } => {
                &&& !Self::shows_session(s, session_id@) ==> t == s
                &&& Self::shows_session(s, session_id@) ==> t == (AppState {
                    chat: ChatState { messages: t.chat.messages, ..s.chat },
                    ..s
                }) && t.chat.messages@ == crate::chat::without_id(s.chat.messages@, message_id@)
            },
            crate::model::BackendEvent::MessagePartUpdated { session_id, part_id, part, .. } => {
                &&& !Self::shows_session(s, session_id@) ==> t == s
                &&& Self::shows_session(s, session_id@) ==> {
                    &&& t == (AppState {
                        chat: t.chat,
                        response_indicator_until_tick: sat_add(s.tick, RESPONSE_INDICATOR_TICKS),
                        ..s
                    })
                    &&& exists|r: Option<usize>| crate::chat::merged(
                        s.chat,
                        t.chat,
                        Some(part_id),
                        part,
                        r,
                    )
                }
            },
            crate::model::BackendEvent::MessagePartDelta { session_id, part_id, field, delta, .. } => {
                &&& !(field@ == "text"@ && Self::shows_session(s, session_id@)) ==> t
                    == s
                &&& (field@ == "text"@ && Self::shows_session(s, session_id@)) ==> {
                    &&& t == (AppState {
                        chat: t.chat,
                        response_indicator_until_tick: sat_add(s.tick, RESPONSE_INDICATOR_TICKS),
                        ..s
                    })
                    &&& crate::chat::delta_merged(s.chat, t.chat, part_id, delta)
                }
            },
            crate::model::BackendEvent::MessagePartRemoved { session_id, part_id, .. } => {
                &&& !Self::shows_session(s, session_id@) ==> t == s
                &&& Self::shows_session(s, session_id@) ==> t == (AppState {
                    chat: t.chat,
                    ..s
                }) && ChatState::stream_part_removed(s.chat, t.chat, part_id@)
            },
            crate::model::BackendEvent::PermissionAsked { request } => {
                &&& t.pending_permissions@ == s.pending_permissions@.push(request)
                &&& Self::next_blocking_opened(AppState { pending_permissions: t.pending_permissions, ..s }, t)
            },
            crate::model::BackendEvent::QuestionAsked { request } => {
                &&& t.pending_questions@ == s.pending_questions@.push(request)
                &&& Self::next_blocking_opened(AppState { pending_questions: t.pending_questions, ..s }, t)
            },
            crate::model::BackendEvent::PermissionReplied { request_id, .. } => Self::permission_resolved(
                s,
                t,
                request_id@,
            ),
            crate::model::BackendEvent::QuestionReplied { request_id, .. } => Self::question_resolved(
                s,
                t,
                request_id@,
            ),
            crate::model::BackendEvent::QuestionRejected { request_id, .. } => Self::question_resolved(
                s,
                t,
                request_id@,
            ),
            crate::model::BackendEvent::CommandExecuted { name, arguments, .. } => Self::toast_added(
                s,
                t,
                Some("Command"@),
                name@ + " "@ + arguments@,
                ToastVariant::Info,
                12,
            ),
            crate::model::BackendEvent::FileEdited { file } => Self::toast_added(
                s,
                t,
                Some("File Edited"@),
                file@,
                ToastVariant::Info,
                8,
            ),
            crate::model::BackendEvent::FileWatcherUpdated { file, event } => Self::toast_added(
                s,
                t,
                Some("File Watcher"@),
                file@ + ": "@ + event@,
                ToastVariant::Info,
                6,
            ),
            crate::model::BackendEvent::PtyCreated { info } => t == (AppState {
                terminal: t.terminal,
                side_panel_tab: Tab::Pane,
                active_mode: AppMode::Terminal,
                ..s
            }) && t.terminal == (TerminalPane {
                pty_id: Some(info.id),
                title: info.title,
                command: info.command,
                status: info.status,
                ..s.terminal
            }),
            crate::model::BackendEvent::PtyDeleted { .. } => t == (AppState {
                active_mode: AppMode::Chat,
                ..s
            }),
            crate::model::BackendEvent::PtyExited { exit_code, .. } => {
                &&& t.terminal == (TerminalPane {
                    status: PtyStatus::Exited,
                    exit_code: Some(exit_code),
                    ..s.terminal
                })
                &&& Self::toast_added(
                    AppState { terminal: t.terminal, ..s },
                    t,
                    Some("Terminal"@),
                    "exit code: "@ + decimal_text(exit_code as int),
                    if exit_code == 0 {
                        ToastVariant::Success
                    } else {
                        ToastVariant::Error
                    },
                    8,
                )
            },
            crate::model::BackendEvent::LspDiagnostics { .. } => t == (AppState {
                side_panel_tab: Tab::Diagnostics,
                side_panel_visible: true,
                ..s
            }),
            crate::model::BackendEvent::McpBrowserOpenFailed { mcp_name, url } => Self::toast_added(
                s,
                t,
                Some("MCP Error"@),
                mcp_name@ + ": "@ + url@,
                ToastVariant::Error,
                10,
            ),
            crate::model::BackendEvent::McpToolsChanged { server } => Self::toast_added(
                s,
                t,
                Some("MCP Tools"@),
                "Updated from "@ + server@,
                ToastVariant::Info,
                6,
            ),
            crate::model::BackendEvent::InstallationUpdateAvailable { version } => Self::toast_added(
                s,
                t,
                Some("Update Available"@),
                "version "@ + version@,
                ToastVariant::Info,
                12,
            ),
            crate::model::BackendEvent::InstallationUpdated { version } => Self::toast_added(
                s,
                t,
                Some("Updated"@),
                "now on "@ + version@,
                ToastVariant::Success,
                6,
            ),
            crate::model::BackendEvent::WorkspaceFailed { message } => t == (AppState {
                error: t.error,
                ..s
            }) && (t.error matches Some(e) && e@ == "Workspace error: "@ + message@),
            crate::model::BackendEvent::WorktreeReady { branch, .. } => t == (AppState {
                current_branch: Some(branch),
                ..s
            }),
            crate::model::BackendEvent::WorktreeFailed { message } => t == (AppState {
                error: t.error,
                ..s
            }) && (t.error matches Some(e) && e@ == "Worktree error: "@ + message@),
            crate::model::BackendEvent::VcsBranchUpdated { branch } => t == (AppState {
                current_branch: Some(branch),
                ..s
            }),
            crate::model::BackendEvent::TodoUpdated { todos, .. } => t == (AppState {
                todos,
                ..s
            }),
            crate::model::BackendEvent::TuiPromptAppend { text } => t == (AppState {
                prompt_bar: t.prompt_bar,
                ..s
            }) && t.prompt_bar@.0 == s.prompt_bar@.0.take(
                s.prompt_bar@.1 as int,
            ) + text@ + s.prompt_bar@.0.skip(s.prompt_bar@.1 as int),
            crate::model::BackendEvent::TuiCommandExecute { command } => match tui_command_of(command@) {
                Some(c) => r == (c != TuiCommand::Exit) && Self::tui_command_executed(
                    s,
                    t,
                    c,
                    TuiCommandContext { clear_prompt: true, toggle_panels: false },
                ),
                None => r && t == s,
            },
            crate::model::BackendEvent::TuiToastShow { title, message, variant, duration } => Self::toast_added(
                s,
                t,
                crate::chat::opt_view(title),
                message@,
                Self::toast_variant_of(variant@),
                match duration {
                    Some(d) => d,
                    None => 6,
                },
            ),
            crate::model::BackendEvent::TuiSessionSelect { session_id } => t == (AppState {
                pending_ops: t.pending_ops,
                ..s
            }) && t.pending_ops@ == s.pending_ops@.push(
                BackendOp::LoadSession { session_id },
            ),
            crate::model::BackendEvent::ServerConnected => Self::toast_added(
                s,
                t,
                Some("Server"@),
                "Connected"@,
                ToastVariant::Success,
                4,
            ),
            crate::model::BackendEvent::GlobalDisposed => t == (AppState {
                error: t.error,
                ..s
            }) && (t.error matches Some(e) && e@ == "Server disposed all instances"@),
            crate::model::BackendEvent::ServerInstanceDisposed { directory } => Self::toast_added(
                s,
                t,
                Some("Instance Disposed"@),
                directory@,
                ToastVariant::Warning,
                8,
            ),
            crate::model::BackendEvent::SessionIdle { .. } | crate::model::BackendEvent::SessionDiff { .. }
            | crate::model::BackendEvent::SessionCompacted { .. }
            | crate::model::BackendEvent::PtyUpdated { .. } | crate::model::BackendEvent::LspUpdated
            | crate::model::BackendEvent::WorkspaceReady { .. }
            | crate::model::BackendEvent::ProjectUpdated { .. } => t == s,
            _ => true,
        })
    }

    /// Reacts to an event from the server. Returns `false` when the
    /// application should quit (a `/exit` the server asked to run).
    #[verifier::rlimit(100)]
    fn handle_backend_event(&mut self, event: crate::model::BackendEvent) -> (r: bool)
        requires
            old(self).wf(),
            old(self).chat.partial_parts@.len() < usize::MAX,
        ensures
            final(self).wf(),
            Self::backend_event_handled(*old(self), *final(self), event, r),
    {
        match event {
            crate::model::BackendEvent::Error { message } => {
                self.error = Some(message);
                self.chat.clear_partial_stream();
                self.is_streaming = false;
                self.response_indicator_until_tick = 0;
                self.active_submission = None;
                let ghost u = *self;
                self.dispatch_next_queued_submission();
                assert(Self::next_dispatched(u, *self));
            },
            crate::model::BackendEvent::SessionCreated { session } => {
                let is_new = match &self.active_session {
                    Some(a) => !str_eq(a.id.as_str(), session.id.as_str()),
                    None => true,
                };
                self.active_session = Some(session);
                self.active_mode = AppMode::Chat;
                if is_new {
                    self.chat.clear_messages();
                }
                self.error = None;
            },
            crate::model::BackendEvent::SessionUpdated { session } => {
                let same = match &self.active_session {
                    Some(a) => str_eq(a.id.as_str(), session.id.as_str()),
                    None => false,
                };
                if same {
                    self.active_session = Some(session);
                }
            },
            crate::model::BackendEvent::SessionDeleted { .. } => {
                self.active_session = None;
                self.chat.clear_messages();
                self.active_mode = AppMode::StartPage;
            },
            crate::model::BackendEvent::SessionIdle { .. } => {},
            crate::model::BackendEvent::SessionDiff { .. } => {},
            crate::model::BackendEvent::SessionCompacted { .. } => {},
            crate::model::BackendEvent::SessionError { error, .. } => {
                let shown = debug_text(error.as_str());
                self.error = Some(concat("Session error: ", shown.as_str()));
            },
            crate::model::BackendEvent::MessageUpdated { session_id, message } => {
                self.apply_message_updated(session_id, message);
            },
            crate::model::BackendEvent::MessageRemoved { session_id, message_id } => {
                self.apply_message_removed(session_id, message_id);
            },
            crate::model::BackendEvent::MessagePartUpdated { session_id, part_id, part, .. } => {
                if self.active_session_matches(session_id.as_str()) {
                    self.mark_response_active();
                    self.chat.merge_stream_part(Some(part_id), part);
                }
            },
            crate::model::BackendEvent::MessagePartDelta { session_id, part_id, field, delta, .. } => {
                if str_eq(field.as_str(), "text") && self.active_session_matches(session_id.as_str()) {
                    self.mark_response_active();
                    self.chat.merge_stream_delta(part_id, delta);
                }
            },
            crate::model::BackendEvent::MessagePartRemoved { session_id, part_id, .. } => {
                if self.active_session_matches(session_id.as_str()) {
                    self.chat.remove_stream_part(part_id.as_str());
                }
            },
            crate::model::BackendEvent::PermissionAsked { request } => {
                self.pending_permissions.push_back(request);
                self.open_next_blocking_modal_if_idle();
            },
            crate::model::BackendEvent::PermissionReplied { request_id, .. } => {
                self.remove_pending_permission_by_id(request_id.as_str());
                self.close_permission_modal_if_matches(request_id.as_str());
                self.open_next_blocking_modal_if_idle();
            },
            crate::model::BackendEvent::QuestionAsked { request } => {
                self.pending_questions.push_back(request);
                self.open_next_blocking_modal_if_idle();
            },
            crate::model::BackendEvent::QuestionRejected { request_id, .. } => {
                self.remove_pending_question_by_id(request_id.as_str());
                self.close_question_modal_if_matches(request_id.as_str());
                self.open_next_blocking_modal_if_idle();
            },
            crate::model::BackendEvent::QuestionReplied { request_id, .. } => {
                self.remove_pending_question_by_id(request_id.as_str());
                self.close_question_modal_if_matches(request_id.as_str());
                self.open_next_blocking_modal_if_idle();
            },
            crate::model::BackendEvent::CommandExecuted { name, arguments, .. } => {
                let message = concat3(name.as_str(), " ", arguments.as_str());
                self.notify("Command", message, ToastVariant::Info, 12);
            },
            crate::model::BackendEvent::FileEdited { file } => {
                self.notify("File Edited", file, ToastVariant::Info, 8);
            },
            crate::model::BackendEvent::FileWatcherUpdated { file, event } => {
                let message = concat3(file.as_str(), ": ", event.as_str());
                self.notify("File Watcher", message, ToastVariant::Info, 6);
            },
            crate::model::BackendEvent::PtyCreated { info } => {
                self.terminal.set_from_pty(&info);
                self.side_panel_tab = Tab::Pane;
                self.active_mode = AppMode::Terminal;
            },
            crate::model::BackendEvent::PtyUpdated { .. } => {},
            crate::model::BackendEvent::PtyDeleted { .. } => {
                self.active_mode = AppMode::Chat;
            },
            crate::model::BackendEvent::PtyExited { exit_code, .. } => {
                self.terminal.status = PtyStatus::Exited;
                self.terminal.exit_code = Some(exit_code);
                let code = int_text(exit_code);
                let message = concat("exit code: ", code.as_str());
                let variant = if exit_code == 0 {
                    ToastVariant::Success
                } else {
                    ToastVariant::Error
                };
                self.notify("Terminal", message, variant, 8);
            },
            crate::model::BackendEvent::LspDiagnostics { .. } => {
                self.side_panel_tab = Tab::Diagnostics;
                self.side_panel_visible = true;
            },
            crate::model::BackendEvent::LspUpdated => {},
            crate::model::BackendEvent::McpBrowserOpenFailed { mcp_name, url } => {
                let message = concat3(mcp_name.as_str(), ": ", url.as_str());
                self.notify("MCP Error", message, ToastVariant::Error, 10);
            },
            crate::model::BackendEvent::McpToolsChanged { server } => {
                let message = concat("Updated from ", server.as_str());
                self.notify("MCP Tools", message, ToastVariant::Info, 6);
            },
            crate::model::BackendEvent::InstallationUpdateAvailable { version } => {
                let message = concat("version ", version.as_str());
                self.notify("Update Available", message, ToastVariant::Info, 12);
            },
            crate::model::BackendEvent::InstallationUpdated { version } => {
                let message = concat("now on ", version.as_str());
                self.notify("Updated", message, ToastVariant::Success, 6);
            },
            crate::model::BackendEvent::WorkspaceReady { .. } => {},
            crate::model::BackendEvent::WorkspaceFailed { message } => {
                self.error = Some(concat("Workspace error: ", message.as_str()));
            },
            crate::model::BackendEvent::WorktreeReady { branch, .. } => {
                self.current_branch = Some(branch);
            },
            crate::model::BackendEvent::WorktreeFailed { message } => {
                self.error = Some(concat("Worktree error: ", message.as_str()));
            },
            crate::model::BackendEvent::VcsBranchUpdated { branch } => {
                self.current_branch = Some(branch);
            },
            crate::model::BackendEvent::TodoUpdated { todos, .. } => {
                self.todos = todos;
            },
            crate::model::BackendEvent::TuiPromptAppend { text } => {
                self.prompt_bar.append_text(text.as_str());
            },
            crate::model::BackendEvent::TuiCommandExecute { command } => {
                match self.handle_tui_command_text(command.as_str(), TuiCommandContext::typed()) {
                    Some(should_continue) => {
                        return should_continue;
                    },
                    None => {},
                }
            },
            crate::model::BackendEvent::TuiToastShow { title, message, variant, duration } => {
                let v = if str_eq(variant.as_str(), "success") {
                    ToastVariant::Success
                } else if str_eq(variant.as_str(), "warning") {
                    ToastVariant::Warning
                } else if str_eq(variant.as_str(), "error") {
                    ToastVariant::Error
                } else {
                    ToastVariant::Info
                };
                let d: u64 = match duration {
                    Some(d) => d,
                    None => 6,
                };
                let toast = Toast { title, message, variant: v, created_at: self.tick, duration: d };
                self.push_toast(toast);
                proof {
                    if old(self).toasts@.len() < MAX_STORED_TOASTS {
                        assert(self.toasts@.drop_last() =~= old(self).toasts@);
                    } else {
                        assert(self.toasts@.drop_last() =~= old(self).toasts@.drop_first());
                    }
                }
            },
            crate::model::BackendEvent::TuiSessionSelect { session_id } => {
                self.queue_op(BackendOp::LoadSession { session_id });
            },
            crate::model::BackendEvent::ServerConnected => {
                self.notify("Server", "Connected".to_owned(), ToastVariant::Success, 4);
            },
            crate::model::BackendEvent::GlobalDisposed => {
                self.error = Some("Server disposed all instances".to_owned());
            },
            crate::model::BackendEvent::ServerInstanceDisposed { directory } => {
                self.notify("Instance Disposed", directory, ToastVariant::Warning, 8);
            },
            crate::model::BackendEvent::ProjectUpdated { .. } => {},
        }
        true
    }

    /// What a tick does to `s`, giving `t`: the clock advances, expired
    /// toasts go, a pending leader times out, and a planned subscription that
    /// is due is queued.
    pub open spec fn tick_handled(s: AppState, t: AppState) -> bool {
        let tick: u64 = if s.tick == u64::MAX {
            0
        } else {
            (s.tick + 1) as u64
        };
        &&& t.tick == tick
        &&& t.toasts@ == s.toasts@.filter(|x: Toast| toast_alive(x, tick))
        &&& t.key_chord@ == crate::key_chord::leader_after_timeout(s.key_chord@, tick)
        &&& (s.live_reconnect_at_tick matches Some(at) && tick >= at) ==> {
            &&& t == (AppState {
                tick,
                toasts: t.toasts,
                key_chord: t.key_chord,
                pending_ops: t.pending_ops,
                live_reconnect_at_tick: None,
                ..s
            })
            &&& t.pending_ops@.len() == s.pending_ops@.len() + 2
            &&& t.pending_ops@.take(s.pending_ops@.len() as int) == s.pending_ops@
            &&& t.pending_ops@.last() == BackendOp::Subscribe
        }
        &&& !(s.live_reconnect_at_tick matches Some(at) && tick >= at) ==> t == (AppState {
            tick,
            toasts: t.toasts,
            key_chord: t.key_chord,
            ..s
        })
    }

    /// Advances the clock by one tick (see `tick_handled`).
    fn handle_tick(&mut self) -> (r: bool)
        requires
            old(self).wf(),
        ensures
            final(self).wf(),
            r,
            Self::tick_handled(*old(self), *final(self)),
    {
        self.tick = self.tick.wrapping_add(1);
        let tick = self.tick;
        expire_toasts(&mut self.toasts, tick);
        proof {
            let s = self.toasts@;
            assert(s.len() <= old(self).toasts@.len()) by {
                old(self).toasts@.lemma_filter_len(|x: Toast| toast_alive(x, tick));
            }
        }
        let _ = self.key_chord.tick(tick);
        if self.live_reconnect_due() {
            self.queue_live_resubscribe();
        }
        true
    }

    /// What an event does to `s`, giving `t` and the result `r` (see
    /// `handle_event`).
    pub open spec fn app_event_handled(s: AppState, t: AppState, event: Event, r: bool) -> bool {
        match event {
            Event::Key(key) => Self::key_handled(s, t, key, r),
            Event::Backend(e) => Self::backend_event_handled(s, t, e, r),
            Event::Tick => r && Self::tick_handled(s, t),
            Event::Quit => !r && t == s,
        }
    }

    /// Quit always stops the application and changes nothing; a tick never
    /// stops it and advances the clock by one, wrapping; a server event stops
    /// it exactly when it asks the client to run "/exit".
    pub proof fn law_quit_tick_and_exit(s: AppState, t: AppState, event: Event, r: bool)
        requires
            Self::app_event_handled(s, t, event, r),
        ensures
            event is Quit ==> !r && t == s,
            event is Tick ==> r && t.tick == (if s.tick == u64::MAX {
                0
            } else {
                (s.tick + 1) as u64
            }),
            event matches Event::Backend(e) ==> (!r <==> (e matches crate::model::BackendEvent::TuiCommandExecute {
                command,
            } && trim_spec(command@) == "/exit"@)),
    {
        reveal_strlit("/models");
        reveal_strlit("/config");
        reveal_strlit("/new");
        reveal_strlit("/sessions");
        reveal_strlit("/help");
        reveal_strlit("/todos");
        reveal_strlit("/diagnostics");
        reveal_strlit("/pty");
        reveal_strlit("/server");
        reveal_strlit("/display");
        reveal_strlit("/abort");
        reveal_strlit("/dispose");
        reveal_strlit("/upgrade");
        reveal_strlit("/exit");
        match event {
            Event::Backend(e) => {
                assert(Self::backend_event_handled(s, t, e, r));
                match e {
                    crate::model::BackendEvent::TuiCommandExecute { command } => {
                        let tc = trim_spec(command@);
                        if tc == "/exit"@ {
                            assert("/exit"@[1] != "/help"@[1]);
                            assert(tc != "/help"@);
                            assert(tui_command_of(command@) == Some(TuiCommand::Exit));
                        } else {
                            assert(tui_command_of(command@) != Some(TuiCommand::Exit));
                        }
                    },
                    _ => {},
                }
            },
            _ => {},
        }
    }

    /// Reacts to an event: keys, server events, ticks and quitting. Returns
    /// `false` when the application should quit.
    pub fn handle_event(&mut self, event: Event) -> (r: bool)
        requires
            old(self).wf(),
            old(self).chat.partial_parts@.len() < usize::MAX,
        ensures
            final(self).wf(),
            final(self).chat.partial_parts@.len() <= old(self).chat.partial_parts@.len() + 1,
            Self::app_event_handled(*old(self), *final(self), event, r),
    {
        match event {
            Event::Key(key) => self.handle_key(key),
            Event::Backend(e) => self.handle_backend_event(e),
            Event::Tick => self.handle_tick(),
            Event::Quit => false,
        }
    }

    /// What applying the live event `envelope` does to `s`, giving `t` and
    /// the result `r` (see `apply_live_envelope`).
    pub open spec fn envelope_applied(s: AppState, t: AppState, envelope: EventEnvelope, r: bool) -> bool {
        &&& match envelope.cursor {
            Some(c) => match (c.aggregate_id, c.seq) {
                (Some(id), Some(seq)) => scope_matches(scope_of(s.active_session), envelope.scope)
                    ==> sequence_raised(s.sync_known_sequences@, t.sync_known_sequences@, id@, seq),
                _ => t.sync_known_sequences == s.sync_known_sequences,
            },
            None => t.sync_known_sequences == s.sync_known_sequences,
        }
        &&& !scope_matches(scope_of(s.active_session), envelope.scope) ==> r && t == s
        &&& scope_matches(scope_of(s.active_session), envelope.scope) ==> exists|mid: AppState|
            {
                &&& mid == (AppState { sync_known_sequences: mid.sync_known_sequences, ..s })
                &&& match envelope.cursor {
                    Some(c) => match (c.aggregate_id, c.seq) {
                        (Some(id), Some(seq)) => sequence_raised(
                            s.sync_known_sequences@,
                            mid.sync_known_sequences@,
                            id@,
                            seq,
                        ),
                        _ => mid.sync_known_sequences == s.sync_known_sequences,
                    },
                    None => mid.sync_known_sequences == s.sync_known_sequences,
                }
                &&& Self::backend_event_handled(mid, t, envelope.event, r)
            }
    }

    /// Applies an event from the live stream when it belongs to the active
    /// session's scope, recording its sequence number first; events of other
    /// scopes are ignored. Returns `false` when the application should quit.
    pub fn apply_live_envelope(&mut self, envelope: EventEnvelope) -> (r: bool)
        requires
            old(self).wf(),
            old(self).chat.partial_parts@.len() < usize::MAX,
        ensures
            final(self).wf(),
            final(self).chat.partial_parts@.len() <= old(self).chat.partial_parts@.len() + 1,
            Self::envelope_applied(*old(self), *final(self), envelope, r),
    {
        if !self.envelope_matches_scope(&envelope) {
            return true;
        }
        self.update_known_sequence(&envelope);
        let ghost mid = *self;
        let r = self.handle_backend_event(envelope.event);
        assert(Self::backend_event_handled(mid, *self, envelope.event, r));
        r
    }

    /// `states` runs through `envelopes`, one state after each: every event
    /// is applied to the state before it, with the results `results`.
    pub open spec fn replayed(states: Seq<AppState>, results: Seq<bool>, envelopes: Seq<EventEnvelope>) -> bool {
        &&& states.len() == envelopes.len() + 1
        &&& results.len() == envelopes.len()
        &&& forall|k: int|
            0 <= k < envelopes.len() ==> #[trigger] Self::envelope_applied(
                states[k],
                states[k + 1],
                envelopes[k],
                results[k],
            )
    }

    /// Applies missed history: the known sequences rise to those of the
    /// batch, and each event of the active scope is applied in order. A failed
    /// request shows its error.
    pub fn handle_sync_history_result(&mut self, result: Result<crate::model::SyncHistoryBatch, String>)
        requires
            old(self).wf(),
            result matches Ok(b) ==> old(self).chat.partial_parts@.len() + b.envelopes@.len() < usize::MAX,
        ensures
            final(self).wf(),
            result matches Err(e) ==> *final(self) == (AppState { error: Some(e), ..*old(self) }),
            result matches Ok(b) ==> forall|j: int|
                0 <= j < b.known_sequences@.len() ==> known_at_least(
                    final(self).sync_known_sequences@,
                    (#[trigger] b.known_sequences@[j]).0@,
                    b.known_sequences@[j].1,
                ),
            result matches Ok(b) ==> exists|states: Seq<AppState>, results: Seq<bool>|
                {
                    &&& #[trigger] Self::replayed(states, results, b.envelopes@)
                    &&& states[0] == (AppState { sync_known_sequences: states[0].sync_known_sequences, ..*old(self) })
                    &&& sequences_merged(
                        old(self).sync_known_sequences@,
                        states[0].sync_known_sequences@,
                        b.known_sequences@,
                    )
                    &&& states.last() == *final(self)
                },
    {
        match result {
            Ok(batch) => {
                let crate::model::SyncHistoryBatch { envelopes, known_sequences } = batch;
                let mut i: usize = 0;
                while i < known_sequences.len()
                    invariant
                        self.wf(),
                        self.chat == old(self).chat,
                        *self == (AppState { sync_known_sequences: self.sync_known_sequences, ..*old(self) }),
                        sequences_merged(
                            old(self).sync_known_sequences@,
                            self.sync_known_sequences@,
                            known_sequences@.take(i as int),
                        ),
                        i <= known_sequences@.len(),
                        forall|j: int|
                            0 <= j < i ==> known_at_least(
                                self.sync_known_sequences@,
                                (#[trigger] known_sequences@[j]).0@,
                                known_sequences@[j].1,
                            ),
                    decreases known_sequences@.len() - i,
                {
                    let key = known_sequences[i].0.clone();
                    let ghost before = self.sync_known_sequences@;
                    raise_sequence(&mut self.sync_known_sequences, key, known_sequences[i].1);
                    proof {
                        lemma_raise_keeps_known(before, self.sync_known_sequences@, known_sequences@[i as int].0@, known_sequences@[i as int].1);
                        let ks1 = known_sequences@.take(i + 1);
                        assert(ks1.drop_last() =~= known_sequences@.take(i as int));
                        assert(ks1.last() == known_sequences@[i as int]);
                    }
                    i = i + 1;
                }
                assert(known_sequences@.take(known_sequences@.len() as int) =~= known_sequences@);
                let ghost s0 = *self;
                let ghost all = envelopes@;
                let ghost mut states: Seq<AppState> = seq![*self];
                let ghost mut results: Seq<bool> = Seq::empty();
                let mut rest = envelopes;
                let ghost n0 = rest@.len();
                assert(all.skip(0) =~= all);
                while rest.len() > 0
                    invariant
                        self.wf(),
                        old(self).chat.partial_parts@.len() + n0 < usize::MAX,
                        self.chat.partial_parts@.len() + rest@.len() <= old(self).chat.partial_parts@.len() + n0,
                        n0 == all.len(),
                        rest@.len() <= n0,
                        rest@ == all.skip(n0 - rest@.len()),
                        states[0] == s0,
                        states.last() == *self,
                        Self::replayed(states, results, all.take(n0 - rest@.len())),
                        forall|j: int|
                            0 <= j < known_sequences@.len() ==> known_at_least(
                                self.sync_known_sequences@,
                                (#[trigger] known_sequences@[j]).0@,
                                known_sequences@[j].1,
                            ),
                    decreases rest@.len(),
                {
                    let ghost rest_before = rest@;
                    let ghost done: int = n0 - rest@.len();
                    assert(rest_before[0] == all[done]);
                    let envelope = rest.remove(0);
                    let ghost before = self.sync_known_sequences@;
                    let ghost cursor = envelope.cursor;
                    let ghost in_scope = scope_matches(scope_of(self.active_session), envelope.scope);
                    let ghost env = envelope;
                    let ghost prev_states = states;
                    let ghost prev_results = results;
                    assert(env == all[done]);
                    let applied = self.apply_live_envelope(envelope);
                    proof {
                        states = prev_states.push(*self);
                        results = prev_results.push(applied);
                        assert(all.take(done + 1).drop_last() =~= all.take(done));
                        assert(rest@ =~= all.skip(n0 - rest@.len()));
                        assert forall|k: int| 0 <= k < done + 1 implies #[trigger] Self::envelope_applied(
                            states[k],
                            states[k + 1],
                            all.take(done + 1)[k],
                            results[k],
                        ) by {
                            if k < done {
                                assert(states[k] == prev_states[k] && states[k + 1] == prev_states[k + 1]);
                                assert(all.take(done + 1)[k] == all.take(done)[k]);
                                assert(results[k] == prev_results[k]);
                            }
                        }
                    }
                    proof {
                        let after = self.sync_known_sequences@;
                        match cursor {
                            Some(c) => match (c.aggregate_id, c.seq) {
                                (Some(id), Some(seq)) => {
                                    if in_scope {
                                        lemma_raise_keeps_known(before, after, id@, seq);
                                    }
                                },
                                _ => {},
                            },
                            None => {},
                        }
                    }
                }
                proof {
                    assert(all.take(n0 as int) =~= all);
                    assert(Self::replayed(states, results, all));
                }
            },
            Err(error) => {
                self.error = Some(error);
            },
        }
    }

    /// The live stream failed: a new subscription is planned and the error
    /// is handled like a server error event.
    pub fn handle_live_stream_error(&mut self, message: String) -> (r: bool)
        requires
            old(self).wf(),
            old(self).chat.partial_parts@.len() < usize::MAX,
        ensures
            final(self).wf(),
            r,
            final(self).live_reconnect_at_tick is Some,
            final(self).error == Some(message),
            Self::stream_failed(
                AppState {
                    live_reconnect_at_tick: final(self).live_reconnect_at_tick,
                    ..*old(self)
                },
                *final(self),
                message,
            ),
    {
        self.schedule_live_reconnect();
        self.handle_backend_event(crate::model::BackendEvent::Error { message })
    }

    /// The live stream ended: a new subscription is planned.
    pub fn handle_live_stream_closed(&mut self) -> (r: bool)
        ensures
            r,
            *final(self) == (AppState { live_reconnect_at_tick: final(self).live_reconnect_at_tick, ..*old(self) }),
            final(self).live_reconnect_at_tick is Some,
    {
        self.schedule_live_reconnect();
        true
    }

    /// A submission was sent, or failed: a sent one becomes the active
    /// submission; a failed one shows its error, stops the response and sends
    /// the next in line.
    pub fn handle_submit_result(&mut self, submission: Submission, result: Result<(), String>)
        requires
            old(self).wf(),
        ensures
            final(self).wf(),
            result is Ok ==> *final(self) == (AppState { active_submission: Some(submission), ..*old(self) }),
            result matches Err(e) ==> Self::stream_failed(*old(self), *final(self), e),
    {
        match result {
            Ok(()) => {
                self.active_submission = Some(submission);
            },
            Err(e) => {
                self.error = Some(e);
                self.is_streaming = false;
                self.response_indicator_until_tick = 0;
                self.chat.clear_partial_stream();
                self.active_submission = None;
                let ghost u = *self;
                self.dispatch_next_queued_submission();
                assert(Self::next_dispatched(u, *self));
            },
        }
    }

    /// A session was created, or not: the session becomes the one shown, and
    /// then the text it was created for is sent, or an empty chat shows. A
    /// failure shows its error.
    pub fn handle_create_session_result(&mut self, purpose: CreateSessionPurpose, result: Result<Session, String>)
        requires
            old(self).wf(),
        ensures
            final(self).wf(),
            result matches Err(e) ==> *final(self) == (AppState { error: Some(e), ..*old(self) }),
            result matches Ok(session) ==> match purpose {
                CreateSessionPurpose::Send { text, mode, agent } => {
                    &&& final(self).active_session == Some(session)
                    &&& final(self).prompt_bar@ == (Seq::<char>::empty(), 0nat)
                    &&& exists|submission: Submission, message: LoadedMessage|
                        {
                            &&& #[trigger] Self::placed_in_session(*old(self), *final(self), session, submission, message)
                            &&& submission.session_id == session.id
                            &&& submission.text == text
                            &&& submission.agent == agent
                            &&& mode == InputMode::Shell ==> submission.kind == SubmissionKind::Command
                                && submission.execution_text@ == command_execution_text(text@)
                            &&& mode != InputMode::Shell ==> submission.kind == SubmissionKind::Prompt
                                && submission.execution_text@ == text@
                            &&& crate::chat::is_user_text_message(message, text@)
                        }
                },
                CreateSessionPurpose::NewChat => {
                    &&& *final(self) == (AppState {
                        active_session: Some(session),
                        prompt_bar: final(self).prompt_bar,
                        draft: None,
                        chat: final(self).chat,
                        active_modal: None,
                        active_mode: AppMode::Chat,
                        ..*old(self)
                    })
                    &&& final(self).prompt_bar@ == (Seq::<char>::empty(), 0nat)
                    &&& final(self).chat == (ChatState { messages: final(self).chat.messages, ..old(self).chat })
                    &&& final(self).chat.messages@.len() == 0
                },
            },
    {
        match result {
            Ok(session) => {
                let session_id = session.id.clone();
                let ghost sess = session;
                self.active_session = Some(session);
                self.prompt_bar.clear();
                assert(self.prompt_bar@.0 =~= Seq::<char>::empty());
                match purpose {
                    CreateSessionPurpose::Send { text, mode, agent } => {
                        let message = user_loaded_message(text.as_str());
                        let submission = match mode {
                            InputMode::Shell => Submission::command(session_id, text, agent),
                            _ => Submission::prompt(session_id, text, agent),
                        };
                        let ghost before = *self;
                        let ghost sub = submission;
                        let ghost msg = message;
                        self.queue_or_dispatch_submission(submission, message);
                        assert(before == (AppState {
                            active_session: Some(sess),
                            prompt_bar: self.prompt_bar,
                            ..*old(self)
                        }));
                        assert(Self::placed_in_session(*old(self), *self, sess, sub, msg));
                    },
                    CreateSessionPurpose::NewChat => {
                        self.draft = None;
                        self.chat.clear_messages();
                        self.active_modal = None;
                        self.active_mode = AppMode::Chat;
                    },
                }
            },
            Err(e) => {
                self.error = Some(e);
            },
        }
    }

    /// Shows the session list, or why it could not be loaded.
    pub fn handle_list_sessions(&mut self, result: Result<Vec<Session>, String>)
        requires
            old(self).wf(),
        ensures
            final(self).wf(),
            Self::modal_opened(*old(self), *final(self), ModalId::SessionList),
            final(self).active_modal matches Some(ActiveModal::SessionList(m)) && match result {
                Ok(sessions) => if sessions@.len() > 0 {
                    m.state == crate::modal::SessionListState::Loaded && m.sessions@ == sessions@
                } else {
                    m.state == crate::modal::SessionListState::Empty
                },
                Err(e) => m.state == crate::modal::SessionListState::Error(e),
            },
    {
        let mut modal = SessionListModal::new();
        match result {
            Ok(sessions) => modal.set_sessions(sessions),
            Err(e) => modal.set_error(e),
        }
        self.set_active_modal(ActiveModal::SessionList(modal));
    }

    /// Shows the session list after a deletion, or why it failed.
    pub fn handle_delete_session(&mut self, result: Result<Vec<Session>, String>)
        requires
            old(self).wf(),
        ensures
            final(self).wf(),
            Self::modal_opened(*old(self), *final(self), ModalId::SessionList),
            final(self).active_modal matches Some(ActiveModal::SessionList(m)) && match result {
                Ok(sessions) => if sessions@.len() > 0 {
                    m.state == crate::modal::SessionListState::Loaded && m.sessions@ == sessions@
                } else {
                    m.state == crate::modal::SessionListState::Empty
                },
                Err(e) => m.state == crate::modal::SessionListState::Error(e),
            },
    {
        self.handle_list_sessions(result);
    }

    /// Shows a loaded session with its messages; a failure shows its error.
    pub fn handle_load_session(&mut self, result: Result<(Session, Vec<LoadedMessage>), String>)
        requires
            old(self).wf(),
        ensures
            final(self).wf(),
            result matches Err(e) ==> *final(self) == (AppState { error: Some(e), ..*old(self) }),
            result matches Ok(p) ==> {
                let s = AppState {
                    active_session: Some(p.0),
                    active_mode: AppMode::Chat,
                    chat: ChatState { messages: p.1, ..old(self).chat },
                    ..*old(self)
                };
                Self::closed_then_next(s, *final(self))
            },
    {
        match result {
            Ok((session, messages)) => {
                self.active_session = Some(session);
                self.active_mode = AppMode::Chat;
                self.chat.replace_messages(messages);
                self.clear_active_modal();
                self.open_next_blocking_modal_if_idle();
            },
            Err(e) => {
                self.error = Some(e);
            },
        }
    }

    /// Shows the model picker for the configuration, listing the catalog
    /// models (remembered for later) or, without them, those the configuration
    /// declares; a failure shows its error in the picker.
    pub fn handle_open_model_picker(
        &mut self,
        result: Result<(crate::model::Config, Option<Vec<ModelSummary>>), String>,
    )
        requires
            old(self).wf(),
        ensures
            final(self).wf(),
            Self::modal_opened(
                AppState { model_cache: final(self).model_cache, ..*old(self) },
                *final(self),
                ModalId::ModelPicker,
            ),
            result matches Err(e) ==> final(self).model_cache == old(self).model_cache
                && (final(self).active_modal matches Some(ActiveModal::ModelPicker(m)) && m.error == Some(e)),
            result matches Ok(p) ==> {
                &&& final(self).model_cache == match p.1 {
                    Some(models) => Some(models),
                    None => old(self).model_cache,
                }
                &&& final(self).active_modal matches Some(ActiveModal::ModelPicker(m))
                    && ModelPickerModal::newly_listed(m, p.0, Self::cached_catalog(*final(self)))
            },
    {
        let mut modal = ModelPickerModal::new();
        match result {
            Ok((config, models)) => {
                match models {
                    Some(models) => {
                        self.model_cache = Some(models);
                    },
                    None => {},
                }
                match &self.model_cache {
                    Some(models) => modal.set_models_from_config(config, models.as_slice()),
                    None => modal.set_config(config),
                }
            },
            Err(e) => modal.set_error(e),
        }
        self.set_active_modal(ActiveModal::ModelPicker(modal));
    }

    /// Shows the result of testing a server in the server dialog, or, with
    /// the dialog closed, a failure as the error.
    pub fn handle_test_server_url(&mut self, result: Result<crate::modal::ConnectionStatusDisplay, String>)
        requires
            old(self).wf(),
        ensures
            final(self).wf(),
            match old(self).active_modal {
                Some(ActiveModal::ServerConfig(m)) => *final(self) == (AppState {
                    active_modal: Some(
                        ActiveModal::ServerConfig(
                            match result {
                                Ok(status) => crate::modal::ServerConfigModal { active_connection: status, ..m },
                                Err(e) => crate::modal::ServerConfigModal {
                                    status: crate::modal::ServerConfigStatus::Error(e),
                                    ..m
                                },
                            },
                        ),
                    ),
                    ..*old(self)
                }),
                _ => match result {
                    Ok(_) => *final(self) == *old(self),
                    Err(e) => *final(self) == (AppState { error: Some(e), ..*old(self) }),
                },
            },
    {
        match &mut self.active_modal {
            Some(ActiveModal::ServerConfig(m)) => {
                match result {
                    Ok(status) => m.set_connection_status(status),
                    Err(e) => m.set_apply_error(e),
                }
                return;
            },
            _ => {},
        }
        match result {
            Ok(_) => {},
            Err(e) => {
                self.error = Some(e);
            },
        }
    }

    /// Switches to the server at `url` once it answered; a failure shows in
    /// the server dialog, or as the error when the dialog is closed.
    pub fn handle_apply_server_url_result(&mut self, url: String, result: Result<(), String>)
        requires
            old(self).wf(),
        ensures
            final(self).wf(),
            result is Ok ==> Self::server_switched(
                AppState { active_modal: None, active_blocking_prompt: None, ..*old(self) },
                *final(self),
                url,
            ),
            result matches Err(e) ==> match old(self).active_modal {
                Some(ActiveModal::ServerConfig(m)) => *final(self) == (AppState {
                    active_modal: Some(
                        ActiveModal::ServerConfig(
                            crate::modal::ServerConfigModal { status: crate::modal::ServerConfigStatus::Error(e), ..m },
                        ),
                    ),
                    ..*old(self)
                }),
                _ => *final(self) == (AppState { error: Some(e), ..*old(self) }),
            },
    {
        match result {
            Ok(()) => {
                self.clear_active_modal();
                self.reset_for_server_switch(url);
            },
            Err(e) => {
                match &mut self.active_modal {
                    Some(ActiveModal::ServerConfig(m)) => {
                        m.set_apply_error(e);
                        return;
                    },
                    _ => {},
                }
                self.error = Some(e);
            },
        }
    }

    /// A model was selected, or not: the picker shows the configuration's
    /// model (the requested one when the configuration names none), or the
    /// error; a picker opens if none is open.
    pub fn handle_select_model(&mut self, requested: String, result: Result<crate::model::Config, String>)
        requires
            old(self).wf(),
        ensures
            final(self).wf(),
            final(self).active_modal matches Some(m) && m.id() == ModalId::ModelPicker,
            final(self).active_modal matches Some(ActiveModal::ModelPicker(m)) && match result {
                Ok(config) => m.current_model == match config.model {
                    Some(x) => Some(x),
                    None => Some(requested),
                } && m.error is None,
                Err(e) => m.error == Some(e),
            },
            *final(self) == (AppState {
                active_modal: final(self).active_modal,
                active_blocking_prompt: final(self).active_blocking_prompt,
                ..*old(self)
            }),
            (old(self).active_modal matches Some(m) && m.id() == ModalId::ModelPicker) ==> final(self).active_blocking_prompt
                == old(self).active_blocking_prompt,
            match (old(self).active_modal, final(self).active_modal) {
                (Some(ActiveModal::ModelPicker(om)), Some(ActiveModal::ModelPicker(m))) => match result {
                    Ok(_) => {
                        &&& m.models == om.models
                        &&& m.filtered_indices == om.filtered_indices
                        &&& m.search == om.search
                        &&& m.selected == om.selected
                        &&& m.scroll == om.scroll
                        &&& m.visible_rows == om.visible_rows
                    },
                    Err(e) => m == (ModelPickerModal { error: Some(e), ..om }),
                },
                (_, Some(ActiveModal::ModelPicker(m))) => match result {
                    Ok(config) => ModelPickerModal::newly_listed(
                        m,
                        crate::model::Config {
                            model: match config.model {
                                Some(x) => Some(x),
                                None => Some(requested),
                            },
                            ..config
                        },
                        Self::cached_catalog(*old(self)),
                    ),
                    Err(e) => {
                        &&& m.error == Some(e)
                        &&& m.models@.len() == 0
                        &&& m.filtered_indices@.len() == 0
                        &&& m.search@.len() == 0
                        &&& m.current_model is None
                        &&& m.agent_model is None
                        &&& m.selected == 0
                        &&& m.scroll == 0
                        &&& m.visible_rows == 10
                    },
                },
                _ => true,
            },
            !(old(self).active_modal matches Some(m) && m.id() == ModalId::ModelPicker) ==> final(self).active_blocking_prompt
                is None,
    {
        match result {
            Ok(updated) => {
                let mut config = updated;
                if config.model.is_none() {
                    config.model = Some(requested);
                }
                match &mut self.active_modal {
                    Some(ActiveModal::ModelPicker(m)) => {
                        m.update_current_from_config(&config);
                        return;
                    },
                    _ => {},
                }
                let mut modal = ModelPickerModal::new();
                match &self.model_cache {
                    Some(models) => modal.set_models_from_config(config, models.as_slice()),
                    None => modal.set_config(config),
                }
                self.set_active_modal(ActiveModal::ModelPicker(modal));
            },
            Err(e) => {
                match &mut self.active_modal {
                    Some(ActiveModal::ModelPicker(m)) => {
                        m.set_error(e);
                        return;
                    },
                    _ => {},
                }
                let mut modal = ModelPickerModal::new();
                modal.set_error(e);
                self.set_active_modal(ActiveModal::ModelPicker(modal));
            },
        }
    }

    /// The model catalog the application holds, if it has fetched one.
    pub open spec fn cached_catalog(s: AppState) -> Option<Seq<ModelSummary>> {
        match s.model_cache {
            Some(v) => Some(v@),
            None => None,
        }
    }

    /// Tells how a permission reply went.
    pub fn handle_permission_reply_result(&mut self, message: String, result: Result<(), String>)
        requires
            old(self).wf(),
        ensures
            final(self).wf(),
            result is Ok ==> Self::toast_added(*old(self), *final(self), Some("Permission"@), message@, ToastVariant::Success, 6),
            result matches Err(e) ==> Self::toast_added(
                *old(self),
                *final(self),
                Some("Permission"@),
                message@ + ": "@ + e@,
                ToastVariant::Error,
                8,
            ),
    {
        match result {
            Ok(()) => self.notify("Permission", message, ToastVariant::Success, 6),
            Err(e) => {
                let text = concat3(message.as_str(), ": ", e.as_str());
                self.notify("Permission", text, ToastVariant::Error, 8);
            },
        }
    }

    /// Tells how an answer to a question went.
    pub fn handle_question_reply_result(&mut self, result: Result<(), String>)
        requires
            old(self).wf(),
        ensures
            final(self).wf(),
            result is Ok ==> Self::toast_added(*old(self), *final(self), Some("Question"@), "Answer submitted"@, ToastVariant::Success, 6),
            result matches Err(e) ==> Self::toast_added(
                *old(self),
                *final(self),
                Some("Question"@),
                "Answer failed: "@ + e@,
                ToastVariant::Error,
                8,
            ),
    {
        match result {
            Ok(()) => self.notify("Question", "Answer submitted".to_owned(), ToastVariant::Success, 6),
            Err(e) => {
                let text = concat("Answer failed: ", e.as_str());
                self.notify("Question", text, ToastVariant::Error, 8);
            },
        }
    }

    /// Tells how rejecting a question went.
    pub fn handle_question_reject_result(&mut self, result: Result<(), String>)
        requires
            old(self).wf(),
        ensures
            final(self).wf(),
            result is Ok ==> Self::toast_added(*old(self), *final(self), Some("Question"@), "Question rejected"@, ToastVariant::Success, 6),
            result matches Err(e) ==> Self::toast_added(
                *old(self),
                *final(self),
                Some("Question"@),
                "Reject failed: "@ + e@,
                ToastVariant::Error,
                8,
            ),
    {
        match result {
            Ok(()) => self.notify("Question", "Question rejected".to_owned(), ToastVariant::Success, 6),
            Err(e) => {
                let text = concat("Reject failed: ", e.as_str());
                self.notify("Question", text, ToastVariant::Error, 8);
            },
        }
    }

    /// Shows the error of a request that returns nothing else.
    pub fn handle_simple_result(&mut self, result: Result<(), String>)
        ensures
            result is Ok ==> *final(self) == *old(self),
            result matches Err(e) ==> *final(self) == (AppState { error: Some(e), ..*old(self) }),
    {
        match result {
            Ok(()) => {},
            Err(e) => {
                self.error = Some(e);
            },
        }
    }

    /// Shows the renamed session, or the error.
    pub fn handle_rename_session(&mut self, result: Result<Session, String>)
        ensures
            result matches Ok(s) ==> *final(self) == (AppState { active_session: Some(s), ..*old(self) }),
            result matches Err(e) ==> *final(self) == (AppState { error: Some(e), ..*old(self) }),
    {
        match result {
            Ok(session) => {
                self.active_session = Some(session);
            },
            Err(e) => {
                self.error = Some(e);
            },
        }
    }
}

/// The highest sequence that `ks` gives for `key`, if it names the key.
pub open spec fn highest_given(ks: Seq<(String, u64)>, key: Seq<char>) -> Option<u64>
    decreases ks.len(),
{
    if ks.len() == 0 {
        None
    } else {
        let rest = highest_given(ks.drop_last(), key);
        if ks.last().0@ == key {
            Some(
                match rest {
                    Some(x) => if x >= ks.last().1 {
                        x
                    } else {
                        ks.last().1
                    },
                    None => ks.last().1,
                },
            )
        } else {
            rest
        }
    }
}

/// `after` holds, for each key, the largest of what `before` held for it and
/// what `ks` gives for it.
pub open spec fn sequences_merged(before: Seq<(String, u64)>, after: Seq<(String, u64)>, ks: Seq<(String, u64)>) -> bool {
    forall|k: Seq<char>|
        #[trigger] lookup(after, k) == match highest_given(ks, k) {
            None => lookup(before, k),
            Some(m) => Some(
                match lookup(before, k) {
                    Some(x) => if x >= m {
                        x
                    } else {
                        m
                    },
                    None => m,
                },
            ),
        }
}

/// The known sequence of `key` is at least `seq`.
pub open spec fn known_at_least(known: Seq<(String, u64)>, key: Seq<char>, seq: u64) -> bool {
    lookup(known, key) matches Some(x) && x >= seq
}

/// Raising one key's sequence keeps every sequence at least what it was, and
/// the raised key at least the new number.
pub proof fn lemma_raise_keeps_known(before: Seq<(String, u64)>, after: Seq<(String, u64)>, key: Seq<char>, seq: u64)
    requires
        sequence_raised(before, after, key, seq),
    ensures
        known_at_least(after, key, seq),
        forall|k: Seq<char>, x: u64| #[trigger] known_at_least(before, k, x) ==> known_at_least(after, k, x),
{
    assert(lookup(after, key) == lookup(after, key));
}

/// A permission request with the id `id`.
pub open spec fn permission_with_id(id: Seq<char>) -> spec_fn(PermissionRequest) -> bool {
    |p: PermissionRequest| p.id@ == id
}

/// A question request with the id `id`.
pub open spec fn question_with_id(id: Seq<char>) -> spec_fn(QuestionRequest) -> bool {
    |p: QuestionRequest| p.id@ == id
}

/// The smaller of two numbers.
pub open spec fn min_u16(a: u16, b: u16) -> u16 {
    if a < b {
        a
    } else {
        b
    }
}

/// `a + b`, or the largest `u16` where that overflows.
pub open spec fn sat_add_u16(a: u16, b: u16) -> u16 {
    if a as int + b as int > u16::MAX {
        u16::MAX
    } else {
        (a + b) as u16
    }
}

/// `a - b`, or 0 where that would be negative.
pub open spec fn sat_sub_u16(a: u16, b: u16) -> u16 {
    if a >= b {
        (a - b) as u16
    } else {
        0
    }
}

/// `t` is `s` scrolled by `amount` lines, up or down: the terminal where it
/// shows, up to its limit, else the chat.
pub open spec fn self_scrolled(s: AppState, t: AppState, up: bool, amount: u16) -> bool {
    if s.scroll_targets_terminal_spec() {
        &&& t == (AppState { terminal: t.terminal, ..s })
        &&& t.terminal == (TerminalPane {
            scroll: if up {
                min_u16(sat_add_u16(s.terminal.scroll, amount), s.max_terminal_scroll_spec())
            } else {
                sat_sub_u16(s.terminal.scroll, amount)
            },
            ..s.terminal
        })
    } else {
        t == (AppState {
            chat_scroll: if up {
                sat_add_u16(s.chat_scroll, amount)
            } else {
                sat_sub_u16(s.chat_scroll, amount)
            },
            ..s
        })
    }
}

/// `a + b`, or the largest `u64` where that overflows.
pub open spec fn sat_add(a: u64, b: u64) -> u64 {
    if a as int + b as int > u64::MAX {
        u64::MAX
    } else {
        (a + b) as u64
    }
}

/// The contents of an optional string slice.
pub open spec fn opt_str_view(o: Option<&str>) -> Option<Seq<char>> {
    match o {
        Some(s) => Some(s@),
        None => None,
    }
}

/// The agents of `agents` whose mode is primary, in order.
pub fn primary_agents(agents: Vec<Agent>) -> (r: Vec<Agent>)
    ensures
        r@ == agents@.filter(|a: Agent| a.mode == AgentMode::Primary),
{
    let ghost pred = |a: Agent| a.mode == AgentMode::Primary;
    let mut rest = agents;
    let ghost orig = rest@;
    let mut kept: Vec<Agent> = Vec::new();
    let ghost mut n: int = 0;
    while rest.len() > 0
        invariant
            0 <= n <= orig.len(),
            rest@ == orig.subrange(n, orig.len() as int),
            kept@ == orig.take(n).filter(pred),
            pred == (|a: Agent| a.mode == AgentMode::Primary),
        decreases rest@.len(),
    {
        let a = rest.remove(0);
        proof {
            let s = orig.take(n + 1);
            assert(s.drop_last() =~= orig.take(n));
            assert(s.last() == a);
            reveal_with_fuel(Seq::<Agent>::filter, 1);
            assert(s.filter(pred) == if pred(a) {
                s.drop_last().filter(pred).push(a)
            } else {
                s.drop_last().filter(pred)
            });
            n = n + 1;
            assert(rest@ =~= orig.subrange(n, orig.len() as int));
        }
        if a.mode == AgentMode::Primary {
            kept.push(a);
        }
    }
    assert(orig.take(n) =~= orig);
    kept
}

/// The agent after `i` among `n`, wrapping to the first.
pub open spec fn next_agent(i: usize, n: usize) -> usize {
    if n == 0 {
        i
    } else {
        ((i as int + 1) % (n as int)) as usize
    }
}

/// The agent before `i` among `n`, wrapping to the last.
pub open spec fn prev_agent(i: usize, n: usize) -> usize {
    if n == 0 {
        i
    } else if i == 0 {
        (n - 1) as usize
    } else {
        (i - 1) as usize
    }
}

/// Cycling agents forward then back, or back then forward, returns to the
/// agent that was selected.
pub proof fn law_cycle_agent_round_trip(i: usize, n: usize)
    requires
        i < n,
    ensures
        prev_agent(next_agent(i, n), n) == i,
        next_agent(prev_agent(i, n), n) == i,
{
    if i + 1 < n {
        assert((i as int + 1) % (n as int) == i as int + 1) by (nonlinear_arith)
            requires 0 <= i as int + 1 < n as int;
    } else {
        assert((i as int + 1) % (n as int) == 0) by (nonlinear_arith)
            requires i as int + 1 == n as int, n > 0;
    }
    if i == 0 {
        assert(((n - 1) as int + 1) % (n as int) == 0) by (nonlinear_arith)
            requires n > 0;
    } else {
        assert(((i - 1) as int + 1) % (n as int) == i as int) by (nonlinear_arith)
            requires 0 < i < n;
    }
}

/// `url` without the slashes it ends in.
pub open spec fn without_trailing_slashes(url: Seq<char>) -> Seq<char>
    decreases url.len(),
{
    if url.len() > 0 && url.last() == '/' {
        without_trailing_slashes(url.drop_last())
    } else {
        url
    }
}

/// The server URL as it is applied: without the slashes it ends in.
pub fn normalize_server_url(url: &str) -> (r: String)
    ensures
        r@ == without_trailing_slashes(url@),
{
    let cs = chars_of(url);
    let mut n: usize = cs.len();
    assert(cs@.take(n as int) =~= cs@);
    while n > 0 && cs[n - 1] == '/'
        invariant
            n <= cs@.len(),
            cs@ == url@,
            without_trailing_slashes(cs@.take(n as int)) == without_trailing_slashes(url@),
        decreases n,
    {
        assert(cs@.take(n as int).drop_last() =~= cs@.take(n - 1));
        n = n - 1;
    }
    assert(cs@.take(n as int) == cs@.subrange(0, n as int));
    let r = string_of_range(cs.as_slice(), 0, n);
    assert(r@ == cs@.take(n as int));
    r
}

/// Whether a failed model catalog request fails the model picker: only when
/// the configuration declares no provider to list models from instead.
pub fn catalog_error_is_fatal(config: &crate::model::Config) -> (r: bool)
    ensures
        r == (config.provider@.len() == 0),
{
    config.provider.len() == 0
}

} // verus!
