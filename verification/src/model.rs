//! Data received from and sent to the agent server, held as plain values.
//!
//! Keyed collections that the server sends as maps are kept as lists of
//! `(key, value)` entries; where the order of the keys matters, the library
//! goes by the keys, not by the place of the entries.
use vstd::prelude::*;

verus! {

/// Where and how to reach the server.
#[derive(Debug, Clone, PartialEq, Eq)]
pub struct ServerConnection {
    pub url: String,
    pub username: Option<String>,
    pub password: Option<String>,
}

impl ServerConnection {
    /// A connection with the given credentials.
    pub fn new(url: String, username: Option<String>, password: Option<String>) -> (r:
        ServerConnection)
        ensures
            r.url == url,
            r.username == username,
            r.password == password,
    {
        ServerConnection { url, username, password }
    }

    /// A connection without credentials.
    pub fn unauthenticated(url: String) -> (r: ServerConnection)
        ensures
            r.url == url,
            r.username is None,
            r.password is None,
    {
        ServerConnection { url, username: None, password: None }
    }
}

/// Who wrote a message.
#[derive(Debug, Clone, Copy, PartialEq, Eq, Structural)]
pub enum MessageRole {
    User,
    Assistant,
}

/// Identifiers attached to a part by the server.
#[derive(Debug, Clone, PartialEq, Eq)]
pub struct PartIdentity {
    pub id: Option<String>,
    pub message_id: Option<String>,
    pub session_id: Option<String>,
}

impl PartIdentity {
    pub open spec fn empty_spec() -> PartIdentity {
        PartIdentity { id: None, message_id: None, session_id: None }
    }

    /// An identity with no identifiers.
    pub fn empty() -> (r: PartIdentity)
        ensures
            r == PartIdentity::empty_spec(),
    {
        PartIdentity { id: None, message_id: None, session_id: None }
    }
}

#[derive(Debug, Clone, PartialEq, Eq)]
pub struct TextPart {
    pub identity: PartIdentity,
    pub text: String,
}

#[derive(Debug, Clone, PartialEq, Eq)]
pub struct ReasoningPart {
    pub identity: PartIdentity,
    pub text: String,
}

/// A file attached to a part.
#[derive(Debug, Clone, PartialEq, Eq)]
pub struct FilePart {
    pub identity: PartIdentity,
    pub mime: String,
    pub filename: Option<String>,
    pub url: String,
}

/// Progress of a tool call.
#[derive(Debug, Clone, PartialEq, Eq)]
pub enum ToolState {
    Pending { input: Vec<(String, String)>, raw: String },
    Running {
        input: Vec<(String, String)>,
        title: Option<String>,
        metadata: Option<Vec<(String, String)>>,
        start: Option<u64>,
    },
    Completed {
        input: Vec<(String, String)>,
        output: String,
        title: String,
        metadata: Vec<(String, String)>,
        start: u64,
        end: u64,
        attachments: Vec<FilePart>,
    },
    Error {
        input: Vec<(String, String)>,
        error: String,
        metadata: Option<Vec<(String, String)>>,
    },
}

#[derive(Debug, Clone, PartialEq, Eq)]
pub struct ToolPart {
    pub identity: PartIdentity,
    pub call_id: String,
    pub tool: String,
    pub state: ToolState,
}

#[derive(Debug, Clone, PartialEq, Eq)]
pub struct StepStartPart {
    pub identity: PartIdentity,
    pub snapshot: Option<String>,
    pub session_id: Option<String>,
}

#[derive(Debug, Clone, PartialEq, Eq)]
pub struct StepFinishPart {
    pub identity: PartIdentity,
    pub reason: Option<String>,
    pub snapshot: Option<String>,
    pub session_id: Option<String>,
}

#[derive(Debug, Clone, PartialEq, Eq)]
pub struct SnapshotPart {
    pub identity: PartIdentity,
    pub snapshot: String,
}

#[derive(Debug, Clone, PartialEq, Eq)]
pub struct PatchPart {
    pub identity: PartIdentity,
    pub hash: String,
    pub files: Vec<String>,
}

#[derive(Debug, Clone, PartialEq, Eq)]
pub struct AgentPart {
    pub identity: PartIdentity,
    pub name: String,
}

#[derive(Debug, Clone, PartialEq, Eq)]
pub struct SubtaskPart {
    pub identity: PartIdentity,
    pub prompt: String,
    pub description: String,
    pub agent: String,
}

#[derive(Debug, Clone, PartialEq, Eq)]
pub struct RetryPart {
    pub identity: PartIdentity,
    pub attempt: u64,
}

#[derive(Debug, Clone, PartialEq, Eq)]
pub struct CompactionPart {
    pub identity: PartIdentity,
    pub auto: bool,
    pub overflow: Option<bool>,
}

/// One piece of a message.
#[derive(Debug, Clone, PartialEq, Eq)]
pub enum Part {
    Text(TextPart),
    Reasoning(ReasoningPart),
    Tool(ToolPart),
    StepStart(StepStartPart),
    StepFinish(StepFinishPart),
    File(FilePart),
    Snapshot(SnapshotPart),
    Patch(PatchPart),
    Agent(AgentPart),
    Subtask(SubtaskPart),
    Retry(RetryPart),
    Compaction(CompactionPart),
}

impl Part {
    /// A text part with no identity.
    pub fn text(text: String) -> (r: Part)
        ensures
            r is Text,
            r->Text_0.text == text,
            r->Text_0.identity == PartIdentity::empty_spec(),
    {
        Part::Text(TextPart { identity: PartIdentity::empty(), text })
    }
}

/// The header of a message.
#[derive(Debug, Clone, PartialEq, Eq)]
pub struct Message {
    pub id: String,
    pub session_id: String,
    pub role: MessageRole,
    pub created: u64,
    pub completed: Option<u64>,
}

/// A message header with its parts.
#[derive(Debug, Clone, PartialEq, Eq)]
pub struct MessageDetail {
    pub info: Message,
    pub parts: Vec<Part>,
}

/// A chat session on the server.
#[derive(Debug, Clone, PartialEq, Eq)]
pub struct Session {
    pub id: String,
    pub title: String,
    pub directory: String,
    pub workspace_id: Option<String>,
}

#[derive(Debug, Clone, Copy, PartialEq, Eq, Structural)]
pub enum AgentMode {
    Primary,
    Subagent,
    All,
}

/// The model an agent is pinned to.
#[derive(Debug, Clone, PartialEq, Eq)]
pub struct AgentModel {
    pub provider_id: String,
    pub model_id: String,
}

/// An agent the server offers.
#[derive(Debug, Clone, PartialEq, Eq)]
pub struct Agent {
    pub name: String,
    pub mode: AgentMode,
    pub model: Option<AgentModel>,
}

/// The tool call a request belongs to.
#[derive(Debug, Clone, PartialEq, Eq)]
pub struct ToolCallRef {
    pub message_id: String,
    pub call_id: String,
}

/// The agent asks for permission to do something.
#[derive(Debug, Clone, PartialEq, Eq)]
pub struct PermissionRequest {
    pub id: String,
    pub session_id: String,
    pub permission: String,
    pub patterns: Vec<String>,
    pub always: Vec<String>,
    pub metadata: Vec<(String, String)>,
    pub tool: Option<ToolCallRef>,
}

#[derive(Debug, Clone, PartialEq, Eq)]
pub struct QuestionOption {
    pub label: String,
    pub description: String,
}

/// One question of a question request.
#[derive(Debug, Clone, PartialEq, Eq)]
pub struct QuestionInfo {
    pub question: String,
    pub header: String,
    pub options: Vec<QuestionOption>,
    pub multiple: bool,
    pub custom: bool,
}

/// The agent asks the user one or more questions.
#[derive(Debug, Clone, PartialEq, Eq)]
pub struct QuestionRequest {
    pub id: String,
    pub session_id: String,
    pub questions: Vec<QuestionInfo>,
    pub tool: Option<ToolCallRef>,
}

impl ModelSummary {
    /// A copy of the model.
    pub fn copy(&self) -> (r: ModelSummary)
        ensures
            r == *self,
    {
        ModelSummary {
            id: self.id.clone(),
            provider_id: self.provider_id.clone(),
            name: crate::text::copy_opt_string(&self.name),
            family: crate::text::copy_opt_string(&self.family),
        }
    }
}

/// `a` and `b` both hold no list, or lists of the same models.
pub open spec fn same_model_list(a: Option<Vec<ModelSummary>>, b: Option<Vec<ModelSummary>>) -> bool {
    match (a, b) {
        (Some(x), Some(y)) => x@ == y@,
        (None, None) => true,
        _ => false,
    }
}

/// A copy of an optional list of models.
pub fn copy_model_list(v: &Option<Vec<ModelSummary>>) -> (r: Option<Vec<ModelSummary>>)
    ensures
        same_model_list(r, *v),
{
    match v {
        None => None,
        Some(v) => {
            let mut out: Vec<ModelSummary> = Vec::new();
            let mut i: usize = 0;
            while i < v.len()
                invariant
                    i <= v@.len(),
                    out@ == v@.take(i as int),
                decreases v@.len() - i,
            {
                out.push(v[i].copy());
                assert(v@.take(i + 1) == v@.take(i as int).push(v@[i as int]));
                i += 1;
            }
            assert(v@.take(v@.len() as int) == v@);
            Some(out)
        },
    }
}

/// `a` and `b` hold the same permission request, field by field.
pub open spec fn same_permission_request(a: PermissionRequest, b: PermissionRequest) -> bool {
    &&& a.id == b.id
    &&& a.session_id == b.session_id
    &&& a.permission == b.permission
    &&& a.patterns@ == b.patterns@
    &&& a.always@ == b.always@
    &&& a.metadata@ == b.metadata@
    &&& a.tool == b.tool
}

/// `a` and `b` hold the same question, field by field.
pub open spec fn same_question_info(a: QuestionInfo, b: QuestionInfo) -> bool {
    &&& a.question == b.question
    &&& a.header == b.header
    &&& a.options@ == b.options@
    &&& a.multiple == b.multiple
    &&& a.custom == b.custom
}

/// `a` and `b` hold the same question request, field by field.
pub open spec fn same_question_request(a: QuestionRequest, b: QuestionRequest) -> bool {
    &&& a.id == b.id
    &&& a.session_id == b.session_id
    &&& a.questions@.len() == b.questions@.len()
    &&& forall|i: int|
        0 <= i < a.questions@.len() ==> same_question_info(#[trigger] a.questions@[i], b.questions@[i])
    &&& a.tool == b.tool
}

fn copy_tool(t: &Option<ToolCallRef>) -> (r: Option<ToolCallRef>)
    ensures
        r == *t,
{
    match t {
        Some(t) => Some(ToolCallRef { message_id: t.message_id.clone(), call_id: t.call_id.clone() }),
        None => None,
    }
}

fn copy_pairs(v: &Vec<(String, String)>) -> (r: Vec<(String, String)>)
    ensures
        r@ == v@,
{
    let mut out: Vec<(String, String)> = Vec::new();
    let mut i: usize = 0;
    while i < v.len()
        invariant
            i <= v@.len(),
            out@ == v@.take(i as int),
        decreases v@.len() - i,
    {
        out.push((v[i].0.clone(), v[i].1.clone()));
        assert(v@.take(i + 1) == v@.take(i as int).push(v@[i as int]));
        i += 1;
    }
    assert(v@.take(v@.len() as int) == v@);
    out
}

fn copy_options(v: &Vec<QuestionOption>) -> (r: Vec<QuestionOption>)
    ensures
        r@ == v@,
{
    let mut out: Vec<QuestionOption> = Vec::new();
    let mut i: usize = 0;
    while i < v.len()
        invariant
            i <= v@.len(),
            out@ == v@.take(i as int),
        decreases v@.len() - i,
    {
        out.push(QuestionOption { label: v[i].label.clone(), description: v[i].description.clone() });
        assert(v@.take(i + 1) == v@.take(i as int).push(v@[i as int]));
        i += 1;
    }
    assert(v@.take(v@.len() as int) == v@);
    out
}

impl PermissionRequest {
    /// A copy of the request.
    pub fn copy(&self) -> (r: PermissionRequest)
        ensures
            same_permission_request(r, *self),
    {
        PermissionRequest {
            id: self.id.clone(),
            session_id: self.session_id.clone(),
            permission: self.permission.clone(),
            patterns: crate::text::copy_strings(&self.patterns),
            always: crate::text::copy_strings(&self.always),
            metadata: copy_pairs(&self.metadata),
            tool: copy_tool(&self.tool),
        }
    }
}

impl QuestionRequest {
    /// A copy of the request.
    pub fn copy(&self) -> (r: QuestionRequest)
        ensures
            same_question_request(r, *self),
    {
        let mut questions: Vec<QuestionInfo> = Vec::new();
        let mut i: usize = 0;
        while i < self.questions.len()
            invariant
                i <= self.questions@.len(),
                questions@.len() == i,
                forall|j: int| 0 <= j < i ==> same_question_info(#[trigger] questions@[j], self.questions@[j]),
            decreases self.questions@.len() - i,
        {
            let q = &self.questions[i];
            questions.push(
                QuestionInfo {
                    question: q.question.clone(),
                    header: q.header.clone(),
                    options: copy_options(&q.options),
                    multiple: q.multiple,
                    custom: q.custom,
                },
            );
            i += 1;
        }
        QuestionRequest {
            id: self.id.clone(),
            session_id: self.session_id.clone(),
            questions,
            tool: copy_tool(&self.tool),
        }
    }
}

#[derive(Debug, Clone, PartialEq, Eq)]
pub struct ModelConfig {
    pub id: Option<String>,
    pub name: Option<String>,
    pub family: Option<String>,
}

#[derive(Debug, Clone, PartialEq, Eq)]
pub struct ProviderConfig {
    pub models: Vec<(String, ModelConfig)>,
}

#[derive(Debug, Clone, PartialEq, Eq)]
pub struct AgentConfig {
    pub model: Option<String>,
}

/// The server's configuration.
#[derive(Debug, Clone, PartialEq, Eq)]
pub struct Config {
    pub model: Option<String>,
    pub provider: Vec<(String, ProviderConfig)>,
    pub agent: Vec<(String, AgentConfig)>,
}

/// A model from the server's model catalog.
#[derive(Debug, Clone, PartialEq, Eq)]
pub struct ModelSummary {
    pub id: String,
    pub provider_id: String,
    pub name: Option<String>,
    pub family: Option<String>,
}

#[derive(Debug, Clone, PartialEq, Eq)]
pub struct Todo {
    pub content: String,
    pub status: String,
}

#[derive(Debug, Clone, Copy, PartialEq, Eq, Structural)]
pub enum PtyStatus {
    Running,
    Exited,
}

/// A pseudo-terminal on the server.
#[derive(Debug, Clone, PartialEq, Eq)]
pub struct Pty {
    pub id: String,
    pub title: String,
    pub command: String,
    pub status: PtyStatus,
}

/// Which instance of the server an event belongs to.
#[derive(Debug, Clone, PartialEq, Eq)]
pub struct EventScope {
    pub directory: Option<String>,
    pub workspace: Option<String>,
}

/// Position of an event in the stream of one aggregate.
#[derive(Debug, Clone, PartialEq, Eq)]
pub struct EventCursor {
    pub event_id: Option<String>,
    pub aggregate_id: Option<String>,
    pub seq: Option<u64>,
}

/// An event with where it came from.
#[derive(Debug, Clone, PartialEq, Eq)]
pub struct EventEnvelope {
    pub event: BackendEvent,
    pub scope: EventScope,
    pub cursor: Option<EventCursor>,
}

/// Asks the server for the events missed since the known sequence numbers.
#[derive(Debug, Clone, PartialEq, Eq)]
pub struct SyncHistoryRequest {
    pub scope: EventScope,
    pub known_sequences: Vec<(String, u64)>,
}

/// Missed events, and the sequence numbers they bring each aggregate to.
#[derive(Debug, Clone, PartialEq, Eq)]
pub struct SyncHistoryBatch {
    pub envelopes: Vec<EventEnvelope>,
    pub known_sequences: Vec<(String, u64)>,
}

/// Something that happened on the server.
#[derive(Debug, Clone, PartialEq, Eq)]
pub enum BackendEvent {
    Error { message: String },
    SessionCreated { session: Session },
    SessionUpdated { session: Session },
    SessionDeleted { session_id: String },
    SessionIdle { session_id: String },
    SessionError { session_id: Option<String>, error: String },
    SessionDiff { session_id: String },
    SessionCompacted { session_id: String },
    MessageUpdated { session_id: String, message: Message },
    MessageRemoved { session_id: String, message_id: String },
    MessagePartUpdated { session_id: String, message_id: String, part_id: String, part: Part },
    MessagePartDelta {
        session_id: String,
        message_id: String,
        part_id: String,
        field: String,
        delta: String,
    },
    MessagePartRemoved { session_id: String, message_id: String, part_id: String },
    PermissionAsked { request: PermissionRequest },
    PermissionReplied { session_id: String, request_id: String, reply: String },
    QuestionAsked { request: QuestionRequest },
    QuestionReplied { session_id: String, request_id: String },
    QuestionRejected { session_id: String, request_id: String },
    CommandExecuted { name: String, arguments: String, session_id: String },
    FileEdited { file: String },
    FileWatcherUpdated { file: String, event: String },
    PtyCreated { info: Pty },
    PtyUpdated { info: Pty },
    PtyDeleted { id: String },
    PtyExited { id: String, exit_code: i32 },
    LspDiagnostics { path: String, server_id: String },
    LspUpdated,
    McpBrowserOpenFailed { mcp_name: String, url: String },
    McpToolsChanged { server: String },
    InstallationUpdateAvailable { version: String },
    InstallationUpdated { version: String },
    WorkspaceReady { name: String },
    WorkspaceFailed { message: String },
    WorktreeReady { name: String, branch: String },
    WorktreeFailed { message: String },
    VcsBranchUpdated { branch: String },
    TodoUpdated { session_id: String, todos: Vec<Todo> },
    TuiPromptAppend { text: String },
    TuiCommandExecute { command: String },
    TuiToastShow { title: Option<String>, message: String, variant: String, duration: Option<u64> },
    TuiSessionSelect { session_id: String },
    ServerConnected,
    GlobalDisposed,
    ServerInstanceDisposed { directory: String },
    ProjectUpdated { id: String },
}

} // verus!
