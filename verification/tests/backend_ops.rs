use ocpncord_tui::app::{BackendOp, Submission};
use ocpncord_tui::backend_ops::{continue_op, start_op, OpOutcome, OpStep, ServerCall, ServerReply};
use ocpncord_tui::model::{
    Config, Message, MessageDetail, MessageRole, ModelConfig, ProviderConfig, Session,
};

fn session(id: &str) -> Session {
    Session { id: id.into(), title: "Title".into(), directory: "/".into(), workspace_id: None }
}

fn message(id: &str) -> Message {
    Message { id: id.into(), session_id: "s1".into(), role: MessageRole::User, created: 1, completed: None }
}

fn detail(id: &str) -> MessageDetail {
    MessageDetail { info: message(id), parts: Vec::new() }
}

fn answer(step: OpStep, reply: ServerReply) -> OpStep {
    match step {
        OpStep::Call(progress, _) => {
            assert!(progress.accepts(&reply));
            continue_op(progress, reply)
        }
        other => panic!("no call pending: {other:?}"),
    }
}

#[test]
fn submissions_go_to_the_endpoint_of_their_kind() {
    let prompt = Submission::prompt("s1".into(), "hello".into(), "build".into());
    match start_op(BackendOp::Submit { submission: prompt }) {
        OpStep::Call(_, ServerCall::SubmitPrompt { session_id, text, agent }) => {
            assert_eq!((session_id.as_str(), text.as_str(), agent.as_str()), ("s1", "hello", "build"));
        }
        other => panic!("unexpected step: {other:?}"),
    }
    let command = Submission::command("s1".into(), "!ls -la".into(), "plan".into());
    let step = start_op(BackendOp::Submit { submission: command });
    match &step {
        OpStep::Call(_, ServerCall::SubmitCommand { text, agent, .. }) => {
            assert_eq!((text.as_str(), agent.as_str()), ("ls -la", "plan"));
        }
        other => panic!("unexpected step: {other:?}"),
    }
    match answer(step, ServerReply::Done(Err("busy".into()))) {
        OpStep::Finished(OpOutcome::Submitted(s, Err(e))) => {
            assert_eq!(s.text, "!ls -la");
            assert_eq!(e, "busy");
        }
        other => panic!("unexpected step: {other:?}"),
    }
}

#[test]
fn loading_a_session_skips_messages_that_fail() {
    let step = start_op(BackendOp::LoadSession { session_id: "s1".into() });
    assert!(matches!(&step, OpStep::Call(_, ServerCall::GetSession { session_id }) if session_id == "s1"));
    let step = answer(step, ServerReply::Session(Ok(session("s1"))));
    assert!(matches!(&step, OpStep::Call(_, ServerCall::ListMessages { session_id }) if session_id == "s1"));
    let step = answer(step, ServerReply::Messages(Ok(vec![message("m1"), message("m2"), message("m3")])));
    assert!(matches!(&step, OpStep::Call(_, ServerCall::GetMessage { message_id, .. }) if message_id == "m1"));
    let step = answer(step, ServerReply::Detail(Ok(detail("m1"))));
    assert!(matches!(&step, OpStep::Call(_, ServerCall::GetMessage { message_id, .. }) if message_id == "m2"));
    let step = answer(step, ServerReply::Detail(Err("gone".into())));
    assert!(matches!(&step, OpStep::Call(_, ServerCall::GetMessage { message_id, .. }) if message_id == "m3"));
    match answer(step, ServerReply::Detail(Ok(detail("m3")))) {
        OpStep::Finished(OpOutcome::SessionLoaded(Ok((s, messages)))) => {
            assert_eq!(s.id, "s1");
            let ids: Vec<Option<String>> = messages.iter().map(|m| m.id.clone()).collect();
            assert_eq!(ids, vec![Some("m1".to_string()), Some("m3".to_string())]);
        }
        other => panic!("unexpected step: {other:?}"),
    }
}

#[test]
fn loading_a_session_stops_at_the_first_failure_before_its_messages() {
    let step = start_op(BackendOp::LoadSession { session_id: "s1".into() });
    match answer(step, ServerReply::Session(Err("not found".into()))) {
        OpStep::Finished(OpOutcome::SessionLoaded(Err(e))) => assert_eq!(e, "not found"),
        other => panic!("unexpected step: {other:?}"),
    }
}

#[test]
fn deleting_a_session_lists_the_sessions_left() {
    let step = start_op(BackendOp::DeleteSession { session_id: "s1".into() });
    let step = answer(step, ServerReply::Done(Ok(())));
    assert!(matches!(&step, OpStep::Call(_, ServerCall::ListSessions)));
    match answer(step, ServerReply::Sessions(Ok(vec![session("s2")]))) {
        OpStep::Finished(OpOutcome::SessionDeleted(Ok(list))) => assert_eq!(list.len(), 1),
        other => panic!("unexpected step: {other:?}"),
    }
}

#[test]
fn a_catalog_failure_only_counts_without_providers() {
    let bare = Config { model: None, provider: Vec::new(), agent: Vec::new() };
    let step = start_op(BackendOp::OpenModelPicker { cached_models: None });
    let step = answer(step, ServerReply::Config(Ok(bare)));
    assert!(matches!(&step, OpStep::Call(_, ServerCall::ListModels)));
    assert!(matches!(
        answer(step, ServerReply::Models(Err("down".into()))),
        OpStep::Finished(OpOutcome::ModelPicker(Err(_)))
    ));

    let provider = ProviderConfig {
        models: vec![("m".to_string(), ModelConfig { id: None, name: None, family: None })],
    };
    let declared = Config { model: None, provider: vec![("acme".to_string(), provider)], agent: Vec::new() };
    let step = start_op(BackendOp::OpenModelPicker { cached_models: None });
    let step = answer(step, ServerReply::Config(Ok(declared)));
    assert!(matches!(
        answer(step, ServerReply::Models(Err("down".into()))),
        OpStep::Finished(OpOutcome::ModelPicker(Ok((_, None))))
    ));
}

#[test]
fn a_new_server_address_is_tested_before_it_is_set() {
    let step = start_op(BackendOp::ApplyServerUrl { url: "http://host:4096//".into() });
    assert!(matches!(&step, OpStep::Call(_, ServerCall::TestServerUrl { url }) if url == "http://host:4096"));
    match answer(step, ServerReply::Status(Err("refused".into()))) {
        OpStep::Finished(OpOutcome::ServerApplied(url, Err(e))) => {
            assert_eq!(url, "http://host:4096");
            assert_eq!(e, "refused");
        }
        other => panic!("unexpected step: {other:?}"),
    }
}

#[test]
fn a_chosen_model_is_written_into_the_server_configuration() {
    let step = start_op(BackendOp::SelectModel { model: "acme/m".into() });
    assert!(matches!(&step, OpStep::Call(_, ServerCall::GetConfig)));
    let config = Config { model: None, provider: Vec::new(), agent: Vec::new() };
    let step = answer(step, ServerReply::Config(Ok(config)));
    match &step {
        OpStep::Call(_, ServerCall::SetConfig { config }) => assert_eq!(config.model.as_deref(), Some("acme/m")),
        other => panic!("unexpected step: {other:?}"),
    }
    assert!(matches!(
        answer(step, ServerReply::Config(Err("denied".into()))),
        OpStep::Finished(OpOutcome::ModelSelected(requested, Err(_))) if requested == "acme/m"
    ));
}

#[test]
fn a_reply_of_another_kind_is_refused() {
    match start_op(BackendOp::ListSessions) {
        OpStep::Call(progress, _) => {
            assert!(!progress.accepts(&ServerReply::Done(Ok(()))));
            assert!(progress.accepts(&ServerReply::Sessions(Ok(Vec::new()))));
        }
        other => panic!("unexpected step: {other:?}"),
    }
}
