//! How each queued operation is carried out: the calls it makes to the
//! server, one at a time, what it decides from each answer, and the result
//! the application state takes back at the end.
use vstd::prelude::*;

use crate::app::{
    catalog_error_is_fatal, normalize_server_url, without_trailing_slashes, BackendOp,
    CreateSessionPurpose, PermissionReply, QuestionReply, Submission, SubmissionKind,
};
use crate::chat::{loaded_messages_from_details, LoadedMessage};
use crate::modal::ConnectionStatusDisplay;
use crate::model::{
    Agent, Config, Message, MessageDetail, ModelSummary, Session, SyncHistoryBatch,
    SyncHistoryRequest,
};

verus! {

/// One call to the server.
#[derive(Debug)]
pub enum ServerCall {
    ListAgents,
    SyncHistory { request: SyncHistoryRequest },
    CreateSession { title: String, session_directory: String },
    SubmitPrompt { session_id: String, text: String, agent: String },
    SubmitCommand { session_id: String, text: String, agent: String },
    ListSessions,
    GetSession { session_id: String },
    ListMessages { session_id: String },
    GetMessage { session_id: String, message_id: String },
    DeleteSession { session_id: String },
    UpdateSession { session_id: String, title: String },
    AbortSession { session_id: String },
    GetConfig,
    SetConfig { config: Config },
    ListModels,
    TestServerUrl { url: String },
    SetServerUrl { url: String },
    ReplyPermission { reply: PermissionReply },
    ReplyQuestion { reply: QuestionReply },
    RejectQuestion { request_id: String },
    Dispose,
    Upgrade,
}

/// What the server answered to a call; errors arrive as the text shown.
#[derive(Debug)]
pub enum ServerReply {
    Done(Result<(), String>),
    Agents(Result<Vec<Agent>, String>),
    History(Result<SyncHistoryBatch, String>),
    Session(Result<Session, String>),
    Sessions(Result<Vec<Session>, String>),
    Messages(Result<Vec<Message>, String>),
    Detail(Result<MessageDetail, String>),
    Config(Result<Config, String>),
    Models(Result<Vec<ModelSummary>, String>),
    Status(Result<ConnectionStatusDisplay, String>),
}

/// The result of an operation, for the application state to take in.
#[derive(Debug)]
pub enum OpOutcome {
    Agents(Result<Vec<Agent>, String>),
    History(Result<SyncHistoryBatch, String>),
    SessionCreated(CreateSessionPurpose, Result<Session, String>),
    Submitted(Submission, Result<(), String>),
    Sessions(Result<Vec<Session>, String>),
    SessionLoaded(Result<(Session, Vec<LoadedMessage>), String>),
    SessionDeleted(Result<Vec<Session>, String>),
    ModelPicker(Result<(Config, Option<Vec<ModelSummary>>), String>),
    ServerTested(Result<ConnectionStatusDisplay, String>),
    ServerApplied(String, Result<(), String>),
    ModelSelected(String, Result<Config, String>),
    PermissionReplied(String, Result<(), String>),
    QuestionReplied(Result<(), String>),
    QuestionRejected(Result<(), String>),
    Done(Result<(), String>),
    SessionRenamed(Result<Session, String>),
}

/// What an operation waits for, with what it keeps until then.
#[derive(Debug)]
pub enum OpProgress {
    Agents,
    History,
    Created { purpose: CreateSessionPurpose },
    Submitted { submission: Submission },
    Sessions,
    /// Loading a session: its header first.
    SessionHeader { session_id: String },
    /// Loading a session: the list of its messages.
    MessageList { session_id: String, session: Session },
    /// Loading a session: the message at `next` of `messages`; `details`
    /// holds those fetched so far, in order.
    MessageParts {
        session_id: String,
        session: Session,
        messages: Vec<Message>,
        next: usize,
        details: Vec<MessageDetail>,
    },
    Deleted,
    SessionsAfterDelete,
    PickerConfig { cached_models: Option<Vec<ModelSummary>> },
    Catalog { config: Config },
    Tested,
    UrlTested { url: String },
    UrlSet { url: String },
    ModelConfig { model: String },
    ModelSet { requested: String },
    PermissionReplied { message: String },
    QuestionReplied,
    QuestionRejected,
    Done,
    Renamed,
}

/// The next thing an operation needs: a call, the live subscription (which
/// the driver keeps), or nothing more.
#[derive(Debug)]
pub enum OpStep {
    Call(OpProgress, ServerCall),
    Subscribe,
    Finished(OpOutcome),
}

/// The first step of `op`: the call it makes first, and what it then waits
/// for. A submission goes to the prompt or the command endpoint by its kind,
/// with its execution text and agent; a new server address is tested first,
/// with its trailing slashes removed.
pub open spec fn op_started(op: BackendOp, r: OpStep) -> bool {
    match op {
        BackendOp::LoadAgents => r == OpStep::Call(OpProgress::Agents, ServerCall::ListAgents),
        BackendOp::Subscribe => r == OpStep::Subscribe,
        BackendOp::SyncHistory { request } => r == OpStep::Call(
            OpProgress::History,
            ServerCall::SyncHistory { request },
        ),
        BackendOp::CreateSession { title, session_directory, purpose } => r == OpStep::Call(
            OpProgress::Created { purpose },
            ServerCall::CreateSession { title, session_directory },
        ),
        BackendOp::Submit { submission } => r == OpStep::Call(
            OpProgress::Submitted { submission },
            match submission.kind {
                SubmissionKind::Prompt => ServerCall::SubmitPrompt {
                    session_id: submission.session_id,
                    text: submission.execution_text,
                    agent: submission.agent,
                },
                SubmissionKind::Command => ServerCall::SubmitCommand {
                    session_id: submission.session_id,
                    text: submission.execution_text,
                    agent: submission.agent,
                },
            },
        ),
        BackendOp::ListSessions => r == OpStep::Call(OpProgress::Sessions, ServerCall::ListSessions),
        BackendOp::LoadSession { session_id } => r == OpStep::Call(
            OpProgress::SessionHeader { session_id },
            ServerCall::GetSession { session_id },
        ),
        BackendOp::DeleteSession { session_id } => r == OpStep::Call(
            OpProgress::Deleted,
            ServerCall::DeleteSession { session_id },
        ),
        BackendOp::OpenModelPicker { cached_models } => r == OpStep::Call(
            OpProgress::PickerConfig { cached_models },
            ServerCall::GetConfig,
        ),
        BackendOp::TestServerUrl { url } => r == OpStep::Call(
            OpProgress::Tested,
            ServerCall::TestServerUrl { url },
        ),
        BackendOp::ApplyServerUrl { url } => r matches OpStep::Call(
            OpProgress::UrlTested { url: a },
            ServerCall::TestServerUrl { url: b },
        ) && a == b && a@ == without_trailing_slashes(url@),
        BackendOp::SelectModel { model } => r == OpStep::Call(
            OpProgress::ModelConfig { model },
            ServerCall::GetConfig,
        ),
        BackendOp::ReplyPermission { reply, message } => r == OpStep::Call(
            OpProgress::PermissionReplied { message },
            ServerCall::ReplyPermission { reply },
        ),
        BackendOp::ReplyQuestion { reply } => r == OpStep::Call(
            OpProgress::QuestionReplied,
            ServerCall::ReplyQuestion { reply },
        ),
        BackendOp::RejectQuestion { request_id } => r == OpStep::Call(
            OpProgress::QuestionRejected,
            ServerCall::RejectQuestion { request_id },
        ),
        BackendOp::AbortSession { session_id } => r == OpStep::Call(
            OpProgress::Done,
            ServerCall::AbortSession { session_id },
        ),
        BackendOp::Dispose => r == OpStep::Call(OpProgress::Done, ServerCall::Dispose),
        BackendOp::Upgrade => r == OpStep::Call(OpProgress::Done, ServerCall::Upgrade),
        BackendOp::RenameSession { session_id, title } => r == OpStep::Call(
            OpProgress::Renamed,
            ServerCall::UpdateSession { session_id, title },
        ),
    }
}

/// Starts `op` (see `op_started`).
pub fn start_op(op: BackendOp) -> (r: OpStep)
    ensures
        op_started(op, r),
        r matches OpStep::Call(q, _) ==> q.wf(),
{
    match op {
        BackendOp::LoadAgents => OpStep::Call(OpProgress::Agents, ServerCall::ListAgents),
        BackendOp::Subscribe => OpStep::Subscribe,
        BackendOp::SyncHistory { request } => OpStep::Call(
            OpProgress::History,
            ServerCall::SyncHistory { request },
        ),
        BackendOp::CreateSession { title, session_directory, purpose } => OpStep::Call(
            OpProgress::Created { purpose },
            ServerCall::CreateSession { title, session_directory },
        ),
        BackendOp::Submit { submission } => {
            let session_id = submission.session_id.clone();
            let text = submission.execution_text.clone();
            let agent = submission.agent.clone();
            let call = match submission.kind {
                SubmissionKind::Prompt => ServerCall::SubmitPrompt { session_id, text, agent },
                SubmissionKind::Command => ServerCall::SubmitCommand { session_id, text, agent },
            };
            OpStep::Call(OpProgress::Submitted { submission }, call)
        },
        BackendOp::ListSessions => OpStep::Call(OpProgress::Sessions, ServerCall::ListSessions),
        BackendOp::LoadSession { session_id } => {
            let id = session_id.clone();
            OpStep::Call(OpProgress::SessionHeader { session_id }, ServerCall::GetSession { session_id: id })
        },
        BackendOp::DeleteSession { session_id } => OpStep::Call(
            OpProgress::Deleted,
            ServerCall::DeleteSession { session_id },
        ),
        BackendOp::OpenModelPicker { cached_models } => OpStep::Call(
            OpProgress::PickerConfig { cached_models },
            ServerCall::GetConfig,
        ),
        BackendOp::TestServerUrl { url } => OpStep::Call(OpProgress::Tested, ServerCall::TestServerUrl { url }),
        BackendOp::ApplyServerUrl { url } => {
            let normalized = normalize_server_url(url.as_str());
            let tested = normalized.clone();
            OpStep::Call(OpProgress::UrlTested { url: normalized }, ServerCall::TestServerUrl { url: tested })
        },
        BackendOp::SelectModel { model } => OpStep::Call(OpProgress::ModelConfig { model }, ServerCall::GetConfig),
        BackendOp::ReplyPermission { reply, message } => OpStep::Call(
            OpProgress::PermissionReplied { message },
            ServerCall::ReplyPermission { reply },
        ),
        BackendOp::ReplyQuestion { reply } => OpStep::Call(
            OpProgress::QuestionReplied,
            ServerCall::ReplyQuestion { reply },
        ),
        BackendOp::RejectQuestion { request_id } => OpStep::Call(
            OpProgress::QuestionRejected,
            ServerCall::RejectQuestion { request_id },
        ),
        BackendOp::AbortSession { session_id } => OpStep::Call(
            OpProgress::Done,
            ServerCall::AbortSession { session_id },
        ),
        BackendOp::Dispose => OpStep::Call(OpProgress::Done, ServerCall::Dispose),
        BackendOp::Upgrade => OpStep::Call(OpProgress::Done, ServerCall::Upgrade),
        BackendOp::RenameSession { session_id, title } => OpStep::Call(
            OpProgress::Renamed,
            ServerCall::UpdateSession { session_id, title },
        ),
    }
}

/// `msgs` are the messages of `details`, in order.
pub open spec fn loaded_from(details: Seq<MessageDetail>, msgs: Seq<LoadedMessage>) -> bool {
    &&& msgs.len() == details.len()
    &&& forall|k: int|
        0 <= k < details.len() ==> #[trigger] msgs[k] == (LoadedMessage {
            id: Some(details[k].info.id),
            session_id: Some(details[k].info.session_id),
            role: details[k].info.role,
            parts: details[k].parts,
        })
}

impl OpProgress {
    /// A message still to fetch is in the list.
    pub open spec fn wf(&self) -> bool {
        match self {
            OpProgress::MessageParts { messages, next, .. } => *next < messages@.len(),
            _ => true,
        }
    }

    /// `reply` answers the call this progress waits for.
    pub open spec fn fits(&self, reply: ServerReply) -> bool {
        match self {
            OpProgress::Agents => reply is Agents,
            OpProgress::History => reply is History,
            OpProgress::Created { .. } | OpProgress::SessionHeader { .. } | OpProgress::Renamed => reply is Session,
            OpProgress::Sessions | OpProgress::SessionsAfterDelete => reply is Sessions,
            OpProgress::MessageList { .. } => reply is Messages,
            OpProgress::MessageParts { .. } => reply is Detail,
            OpProgress::PickerConfig { .. } | OpProgress::ModelConfig { .. } | OpProgress::ModelSet { .. } => reply is Config,
            OpProgress::Catalog { .. } => reply is Models,
            OpProgress::Tested | OpProgress::UrlTested { .. } => reply is Status,
            OpProgress::Submitted { .. } | OpProgress::Deleted | OpProgress::UrlSet { .. }
            | OpProgress::PermissionReplied { .. } | OpProgress::QuestionReplied
            | OpProgress::QuestionRejected | OpProgress::Done => reply is Done,
        }
    }

    /// Whether `reply` may be handed to `continue_op` with this progress.
    pub fn accepts(&self, reply: &ServerReply) -> (r: bool)
        ensures
            r == (self.wf() && self.fits(*reply)),
    {
        match self {
            OpProgress::Agents => matches!(reply, ServerReply::Agents(_)),
            OpProgress::History => matches!(reply, ServerReply::History(_)),
            OpProgress::Created { .. } | OpProgress::SessionHeader { .. } | OpProgress::Renamed => matches!(reply, ServerReply::Session(_)),
            OpProgress::Sessions | OpProgress::SessionsAfterDelete => matches!(reply, ServerReply::Sessions(_)),
            OpProgress::MessageList { .. } => matches!(reply, ServerReply::Messages(_)),
            OpProgress::MessageParts { messages, next, .. } => *next < messages.len() && matches!(reply, ServerReply::Detail(_)),
            OpProgress::PickerConfig { .. } | OpProgress::ModelConfig { .. } | OpProgress::ModelSet { .. } => matches!(reply, ServerReply::Config(_)),
            OpProgress::Catalog { .. } => matches!(reply, ServerReply::Models(_)),
            OpProgress::Tested | OpProgress::UrlTested { .. } => matches!(reply, ServerReply::Status(_)),
            OpProgress::Submitted { .. } | OpProgress::Deleted | OpProgress::UrlSet { .. }
            | OpProgress::PermissionReplied { .. } | OpProgress::QuestionReplied
            | OpProgress::QuestionRejected | OpProgress::Done => matches!(reply, ServerReply::Done(_)),
        }
    }
}

/// The step after `p` got `reply`. A session's messages are fetched one by
/// one after its header and list, and a message that cannot be fetched is
/// left out; a deleted session is followed by the new session list; the
/// model picker lists the cached models, else asks for the catalog, whose
/// failure only counts where the configuration declares no provider; a new
/// server address is set only once it answered; a chosen model is written
/// into the configuration the server holds.
pub open spec fn op_continued(p: OpProgress, reply: ServerReply, r: OpStep) -> bool {
    match (p, reply) {
        (OpProgress::Agents, ServerReply::Agents(x)) => r == OpStep::Finished(OpOutcome::Agents(x)),
        (OpProgress::History, ServerReply::History(x)) => r == OpStep::Finished(OpOutcome::History(x)),
        (OpProgress::Created { purpose }, ServerReply::Session(x)) => r == OpStep::Finished(
            OpOutcome::SessionCreated(purpose, x),
        ),
        (OpProgress::Submitted { submission }, ServerReply::Done(x)) => r == OpStep::Finished(
            OpOutcome::Submitted(submission, x),
        ),
        (OpProgress::Sessions, ServerReply::Sessions(x)) => r == OpStep::Finished(OpOutcome::Sessions(x)),
        (OpProgress::SessionHeader { session_id }, ServerReply::Session(x)) => match x {
            Ok(session) => r == OpStep::Call(
                OpProgress::MessageList { session_id, session },
                ServerCall::ListMessages { session_id },
            ),
            Err(e) => r == OpStep::Finished(OpOutcome::SessionLoaded(Err(e))),
        },
        (OpProgress::MessageList { session_id, session }, ServerReply::Messages(x)) => match x {
            Ok(messages) => if messages@.len() == 0 {
                r matches OpStep::Finished(OpOutcome::SessionLoaded(Ok((s, loaded)))) && s == session
                    && loaded@.len() == 0
            } else {
                r matches OpStep::Call(
                    OpProgress::MessageParts { session_id: a, session: s, messages: m, next, details },
                    ServerCall::GetMessage { session_id: b, message_id },
                ) && a == session_id && b == session_id && s == session && m@ == messages@ && next == 0
                    && details@.len() == 0 && message_id == messages@[0].id
            },
            Err(e) => r == OpStep::Finished(OpOutcome::SessionLoaded(Err(e))),
        },
        (OpProgress::MessageParts { session_id, session, messages, next, details }, ServerReply::Detail(x)) => {
            let kept = match x {
                Ok(d) => details@.push(d),
                Err(_) => details@,
            };
            if next + 1 < messages@.len() {
                r matches OpStep::Call(
                    OpProgress::MessageParts { session_id: a, session: s, messages: m, next: n, details: d },
                    ServerCall::GetMessage { session_id: b, message_id },
                ) && a == session_id && b == session_id && s == session && m@ == messages@ && n == next + 1
                    && d@ == kept && message_id == messages@[next + 1].id
            } else {
                r matches OpStep::Finished(OpOutcome::SessionLoaded(Ok((s, loaded)))) && s == session
                    && loaded_from(kept, loaded@)
            }
        },
        (OpProgress::Deleted, ServerReply::Done(x)) => match x {
            Ok(_) => r == OpStep::Call(OpProgress::SessionsAfterDelete, ServerCall::ListSessions),
            Err(e) => r == OpStep::Finished(OpOutcome::SessionDeleted(Err(e))),
        },
        (OpProgress::SessionsAfterDelete, ServerReply::Sessions(x)) => r == OpStep::Finished(
            OpOutcome::SessionDeleted(x),
        ),
        (OpProgress::PickerConfig { cached_models }, ServerReply::Config(x)) => match x {
            Ok(config) => match cached_models {
                Some(models) => r == OpStep::Finished(OpOutcome::ModelPicker(Ok((config, Some(models))))),
                None => r == OpStep::Call(OpProgress::Catalog { config }, ServerCall::ListModels),
            },
            Err(e) => r == OpStep::Finished(OpOutcome::ModelPicker(Err(e))),
        },
        (OpProgress::Catalog { config }, ServerReply::Models(x)) => match x {
            Ok(models) => r == OpStep::Finished(OpOutcome::ModelPicker(Ok((config, Some(models))))),
            Err(e) => if config.provider@.len() == 0 {
                r == OpStep::Finished(OpOutcome::ModelPicker(Err(e)))
            } else {
                r == OpStep::Finished(OpOutcome::ModelPicker(Ok((config, None))))
            },
        },
        (OpProgress::Tested, ServerReply::Status(x)) => r == OpStep::Finished(OpOutcome::ServerTested(x)),
        (OpProgress::UrlTested { url }, ServerReply::Status(x)) => match x {
            Ok(_) => r matches OpStep::Call(OpProgress::UrlSet { url: a }, ServerCall::SetServerUrl { url: b })
                && a == url && b == url,
            Err(e) => r == OpStep::Finished(OpOutcome::ServerApplied(url, Err(e))),
        },
        (OpProgress::UrlSet { url }, ServerReply::Done(x)) => r == OpStep::Finished(OpOutcome::ServerApplied(url, x)),
        (OpProgress::ModelConfig { model }, ServerReply::Config(x)) => match x {
            Ok(config) => r matches OpStep::Call(OpProgress::ModelSet { requested }, ServerCall::SetConfig { config: c })
                && requested == model && c == (Config { model: Some(model), ..config }),
            Err(e) => r == OpStep::Finished(OpOutcome::ModelSelected(model, Err(e))),
        },
        (OpProgress::ModelSet { requested }, ServerReply::Config(x)) => r == OpStep::Finished(
            OpOutcome::ModelSelected(requested, x),
        ),
        (OpProgress::PermissionReplied { message }, ServerReply::Done(x)) => r == OpStep::Finished(
            OpOutcome::PermissionReplied(message, x),
        ),
        (OpProgress::QuestionReplied, ServerReply::Done(x)) => r == OpStep::Finished(OpOutcome::QuestionReplied(x)),
        (OpProgress::QuestionRejected, ServerReply::Done(x)) => r == OpStep::Finished(OpOutcome::QuestionRejected(x)),
        (OpProgress::Done, ServerReply::Done(x)) => r == OpStep::Finished(OpOutcome::Done(x)),
        (OpProgress::Renamed, ServerReply::Session(x)) => r == OpStep::Finished(OpOutcome::SessionRenamed(x)),
        _ => false,
    }
}

/// Takes the server's `reply` to the call `p` waits for (see `op_continued`).
pub fn continue_op(p: OpProgress, reply: ServerReply) -> (r: OpStep)
    requires
        p.wf(),
        p.fits(reply),
    ensures
        op_continued(p, reply, r),
        r matches OpStep::Call(q, _) ==> q.wf(),
{
    match (p, reply) {
        (OpProgress::Agents, ServerReply::Agents(x)) => OpStep::Finished(OpOutcome::Agents(x)),
        (OpProgress::History, ServerReply::History(x)) => OpStep::Finished(OpOutcome::History(x)),
        (OpProgress::Created { purpose }, ServerReply::Session(x)) => OpStep::Finished(
            OpOutcome::SessionCreated(purpose, x),
        ),
        (OpProgress::Submitted { submission }, ServerReply::Done(x)) => OpStep::Finished(
            OpOutcome::Submitted(submission, x),
        ),
        (OpProgress::Sessions, ServerReply::Sessions(x)) => OpStep::Finished(OpOutcome::Sessions(x)),
        (OpProgress::SessionHeader { session_id }, ServerReply::Session(x)) => match x {
            Ok(session) => {
                let id = session_id.clone();
                OpStep::Call(OpProgress::MessageList { session_id, session }, ServerCall::ListMessages { session_id: id })
            },
            Err(e) => OpStep::Finished(OpOutcome::SessionLoaded(Err(e))),
        },
        (OpProgress::MessageList { session_id, session }, ServerReply::Messages(x)) => match x {
            Ok(messages) => {
                if messages.len() == 0 {
                    OpStep::Finished(OpOutcome::SessionLoaded(Ok((session, Vec::new()))))
                } else {
                    let id = session_id.clone();
                    let message_id = messages[0].id.clone();
                    OpStep::Call(
                        OpProgress::MessageParts { session_id, session, messages, next: 0, details: Vec::new() },
                        ServerCall::GetMessage { session_id: id, message_id },
                    )
                }
            },
            Err(e) => OpStep::Finished(OpOutcome::SessionLoaded(Err(e))),
        },
        (OpProgress::MessageParts { session_id, session, messages, next, details }, ServerReply::Detail(x)) => {
            let len: usize = messages.len();
            let mut details = details;
            match x {
                Ok(d) => details.push(d),
                Err(_) => {},
            }
            if next + 1 < len {
                let id = session_id.clone();
                let message_id = messages[next + 1].id.clone();
                OpStep::Call(
                    OpProgress::MessageParts { session_id, session, messages, next: next + 1, details },
                    ServerCall::GetMessage { session_id: id, message_id },
                )
            } else {
                OpStep::Finished(OpOutcome::SessionLoaded(Ok((session, loaded_messages_from_details(details)))))
            }
        },
        (OpProgress::Deleted, ServerReply::Done(x)) => match x {
            Ok(_) => OpStep::Call(OpProgress::SessionsAfterDelete, ServerCall::ListSessions),
            Err(e) => OpStep::Finished(OpOutcome::SessionDeleted(Err(e))),
        },
        (OpProgress::SessionsAfterDelete, ServerReply::Sessions(x)) => OpStep::Finished(OpOutcome::SessionDeleted(x)),
        (OpProgress::PickerConfig { cached_models }, ServerReply::Config(x)) => match x {
            Ok(config) => match cached_models {
                Some(models) => OpStep::Finished(OpOutcome::ModelPicker(Ok((config, Some(models))))),
                None => OpStep::Call(OpProgress::Catalog { config }, ServerCall::ListModels),
            },
            Err(e) => OpStep::Finished(OpOutcome::ModelPicker(Err(e))),
        },
        (OpProgress::Catalog { config }, ServerReply::Models(x)) => match x {
            Ok(models) => OpStep::Finished(OpOutcome::ModelPicker(Ok((config, Some(models))))),
            Err(e) => {
                if catalog_error_is_fatal(&config) {
                    OpStep::Finished(OpOutcome::ModelPicker(Err(e)))
                } else {
                    OpStep::Finished(OpOutcome::ModelPicker(Ok((config, None))))
                }
            },
        },
        (OpProgress::Tested, ServerReply::Status(x)) => OpStep::Finished(OpOutcome::ServerTested(x)),
        (OpProgress::UrlTested { url }, ServerReply::Status(x)) => match x {
            Ok(_) => {
                let target = url.clone();
                OpStep::Call(OpProgress::UrlSet { url }, ServerCall::SetServerUrl { url: target })
            },
            Err(e) => OpStep::Finished(OpOutcome::ServerApplied(url, Err(e))),
        },
        (OpProgress::UrlSet { url }, ServerReply::Done(x)) => OpStep::Finished(OpOutcome::ServerApplied(url, x)),
        (OpProgress::ModelConfig { model }, ServerReply::Config(x)) => match x {
            Ok(config) => {
                let requested = model.clone();
                let mut config = config;
                config.model = Some(model);
                OpStep::Call(OpProgress::ModelSet { requested }, ServerCall::SetConfig { config })
            },
            Err(e) => OpStep::Finished(OpOutcome::ModelSelected(model, Err(e))),
        },
        (OpProgress::ModelSet { requested }, ServerReply::Config(x)) => OpStep::Finished(
            OpOutcome::ModelSelected(requested, x),
        ),
        (OpProgress::PermissionReplied { message }, ServerReply::Done(x)) => OpStep::Finished(
            OpOutcome::PermissionReplied(message, x),
        ),
        (OpProgress::QuestionReplied, ServerReply::Done(x)) => OpStep::Finished(OpOutcome::QuestionReplied(x)),
        (OpProgress::QuestionRejected, ServerReply::Done(x)) => OpStep::Finished(OpOutcome::QuestionRejected(x)),
        (OpProgress::Done, ServerReply::Done(x)) => OpStep::Finished(OpOutcome::Done(x)),
        (OpProgress::Renamed, ServerReply::Session(x)) => OpStep::Finished(OpOutcome::SessionRenamed(x)),
        _ => {
            assert(false);
            OpStep::Finished(OpOutcome::Done(Ok(())))
        },
    }
}

} // verus!
