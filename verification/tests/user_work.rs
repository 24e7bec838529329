use ocpncord_tui::model::Part;
use ocpncord_tui::user_work::{UserWorkEffect, UserWorkKind, UserWorkQueue};

fn queued_texts(queue: &UserWorkQueue) -> Vec<String> {
    queue
        .queued_messages()
        .into_iter()
        .filter_map(|message| match message.parts.into_iter().next() {
            Some(Part::Text(text)) => Some(text.text),
            _ => None,
        })
        .collect()
}

#[test]
fn enqueue_without_session_requests_session_and_keeps_visible_message() {
    let mut queue = UserWorkQueue::new();
    let effect = queue.enqueue(UserWorkKind::Prompt, "hello".into(), "build".into(), None, false);
    assert!(matches!(effect, Some(UserWorkEffect::CreateSession { work_id: 0 })));
    assert_eq!(queue.queued_messages().len(), 1);
    assert!(!queue.has_active_work());
}

#[test]
fn session_created_starts_waiting_work() {
    let mut queue = UserWorkQueue::new();
    queue.enqueue(UserWorkKind::Prompt, "hello".into(), "build".into(), None, false);
    let start = queue.session_created(0, "session-1".into(), false).expect("work should start");
    assert_eq!(start.submission.session_id, "session-1");
    assert_eq!(start.submission.text, "hello");
    assert_eq!(queue.queued_messages().len(), 0);
    assert!(queue.has_active_work());
}

#[test]
fn active_work_blocks_later_work_and_preserves_fifo() {
    let mut queue = UserWorkQueue::new();
    let first = queue
        .enqueue(UserWorkKind::Prompt, "first".into(), "build".into(), Some("session-1".into()), false)
        .expect("first should start");
    queue.enqueue(UserWorkKind::Prompt, "second".into(), "build".into(), Some("session-1".into()), true);
    queue.enqueue(UserWorkKind::Prompt, "third".into(), "build".into(), Some("session-1".into()), true);

    let UserWorkEffect::Submit(first) = first else {
        panic!("first should start");
    };
    assert_eq!(first.submission.text, "first");
    assert_eq!(queued_texts(&queue), vec!["second", "third"]);

    let next = queue.finish_active(false).expect("second should dispatch next");
    assert_eq!(next.submission.text, "second");
    assert_eq!(queued_texts(&queue), vec!["third"]);
}

#[test]
fn failed_create_can_be_requested_again() {
    let mut queue = UserWorkQueue::new();
    queue.enqueue(UserWorkKind::Prompt, "hello".into(), "build".into(), None, false);
    queue.create_session_failed(0);
    assert_eq!(queue.request_next_session_creation(), Some(0));
    assert_eq!(queue.request_next_session_creation(), None);
}

#[test]
fn multiple_no_session_enqueues_share_one_session_creation() {
    let mut queue = UserWorkQueue::new();
    let first = queue.enqueue(UserWorkKind::Prompt, "first".into(), "build".into(), None, false);
    let second = queue.enqueue(UserWorkKind::Prompt, "second".into(), "build".into(), None, false);
    assert!(matches!(first, Some(UserWorkEffect::CreateSession { work_id: 0 })));
    assert!(second.is_none());
    assert_eq!(queue.request_next_session_creation(), None);

    let start = queue.session_created(0, "session-1".into(), false).expect("first work should start");
    assert_eq!(start.submission.text, "first");
    assert_eq!(start.submission.session_id, "session-1");

    let next = queue.finish_active(false).expect("second work should dispatch after first");
    assert_eq!(next.submission.text, "second");
    assert_eq!(next.submission.session_id, "session-1");
}

#[test]
fn command_work_runs_text_without_bang() {
    let mut queue = UserWorkQueue::new();
    let effect = queue
        .enqueue(UserWorkKind::Command, "  ! ls -la".into(), "build".into(), Some("s".into()), false)
        .expect("command should start");
    let UserWorkEffect::Submit(start) = effect else {
        panic!("command should start");
    };
    assert_eq!(start.submission.execution_text, "ls -la");
    assert_eq!(start.submission.text, "  ! ls -la");
}

#[test]
fn response_in_progress_holds_work_with_session() {
    let mut queue = UserWorkQueue::new();
    let effect = queue.enqueue(UserWorkKind::Prompt, "wait".into(), "build".into(), Some("s".into()), true);
    assert!(effect.is_none());
    assert!(queue.has_pending_work());
    let start = queue.dispatch_next(false).expect("work should start once idle");
    assert_eq!(start.submission.text, "wait");
}
