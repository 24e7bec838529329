use ocpncord_tui::event::Event;
use ocpncord_tui::screen::{Action, StartPage};

#[test]
fn handle_event_returns_none() {
    let mut start_page = StartPage;
    let event = Event::Tick;
    assert_eq!(start_page.handle_event(event), Action::NoAction);
}

#[test]
fn duplicate_copies_the_action() {
    let action = Action::ReplyQuestion("s".into(), "r".into(), vec![vec!["A".into()]]);
    assert_eq!(action.duplicate(), action);
}
