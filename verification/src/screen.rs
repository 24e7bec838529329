//! Screen-level actions, as produced by the command palette and full-screen views.
use vstd::prelude::*;

use crate::event::Event;
use crate::text::{copy_string_lists, copy_opt_string};

verus! {

/// What a screen or the command palette asks the application to do.
#[derive(Debug, Clone, PartialEq, Eq)]
pub enum Action {
    NoAction,
    Quit,
    SwitchScreen(ScreenId),
    OpenModal(ModalId),
    CloseModal,
    CycleAgent,
    Interrupt,
    SendMessage,
    OpenPalette,
    ScrollUp,
    ScrollDown,
    ScrollPageUp,
    ScrollPageDown,
    ToggleDetails,
    SelectModel(String),
    LoadSession(String),
    DeleteSession(String),
    NewSession,
    RenameSession(String, String),
    AbortSession(String),
    SwitchToChat(String),
    OpenSettings,
    OpenTerminal(String),
    CloseTerminal,
    ToggleSidePanel,
    ToggleSidePanelTab(Tab),
    SidePanelSelectTab(Tab),
    ReplyPermission(String, String, PermissionReplyAction),
    ReplyQuestion(String, String, Vec<Vec<String>>),
    RejectQuestion(String),
}

/// The two actions are equal, comparing the answers of a question reply by content.
pub open spec fn same_action(a: Action, b: Action) -> bool {
    match (a, b) {
        (Action::ReplyQuestion(s1, r1, v1), Action::ReplyQuestion(s2, r2, v2)) => s1 == s2 && r1
            == r2 && v1.deep_view() == v2.deep_view(),
        _ => a == b,
    }
}

impl Action {
    /// A copy of the action.
    pub fn duplicate(&self) -> (r: Action)
        ensures
            same_action(r, *self),
    {
        match self {
            Action::NoAction => Action::NoAction,
            Action::Quit => Action::Quit,
            Action::SwitchScreen(s) => Action::SwitchScreen(*s),
            Action::OpenModal(m) => Action::OpenModal(*m),
            Action::CloseModal => Action::CloseModal,
            Action::CycleAgent => Action::CycleAgent,
            Action::Interrupt => Action::Interrupt,
            Action::SendMessage => Action::SendMessage,
            Action::OpenPalette => Action::OpenPalette,
            Action::ScrollUp => Action::ScrollUp,
            Action::ScrollDown => Action::ScrollDown,
            Action::ScrollPageUp => Action::ScrollPageUp,
            Action::ScrollPageDown => Action::ScrollPageDown,
            Action::ToggleDetails => Action::ToggleDetails,
            Action::SelectModel(s) => Action::SelectModel(s.clone()),
            Action::LoadSession(s) => Action::LoadSession(s.clone()),
            Action::DeleteSession(s) => Action::DeleteSession(s.clone()),
            Action::NewSession => Action::NewSession,
            Action::RenameSession(a, b) => Action::RenameSession(a.clone(), b.clone()),
            Action::AbortSession(s) => Action::AbortSession(s.clone()),
            Action::SwitchToChat(s) => Action::SwitchToChat(s.clone()),
            Action::OpenSettings => Action::OpenSettings,
            Action::OpenTerminal(s) => Action::OpenTerminal(s.clone()),
            Action::CloseTerminal => Action::CloseTerminal,
            Action::ToggleSidePanel => Action::ToggleSidePanel,
            Action::ToggleSidePanelTab(t) => Action::ToggleSidePanelTab(*t),
            Action::SidePanelSelectTab(t) => Action::SidePanelSelectTab(*t),
            Action::ReplyPermission(a, b, p) => Action::ReplyPermission(a.clone(), b.clone(), *p),
            Action::ReplyQuestion(a, b, v) => Action::ReplyQuestion(
                a.clone(),
                b.clone(),
                copy_string_lists(v),
            ),
            Action::RejectQuestion(s) => Action::RejectQuestion(s.clone()),
        }
    }
}

#[derive(Debug, Clone, Copy, PartialEq, Eq, Structural)]
pub enum ScreenId {
    StartPage,
    Chat,
    Terminal,
}

#[derive(Debug, Clone, Copy, PartialEq, Eq, Structural)]
pub enum ModalId {
    SessionList,
    Help,
    ModelPicker,
    CommandPalette,
    Settings,
    PermissionApproval,
    QuestionApproval,
}

#[derive(Debug, Clone, Copy, PartialEq, Eq, Structural)]
pub enum Tab {
    Diagnostics,
    Todos,
    Pane,
}

#[derive(Debug, Clone, Copy, PartialEq, Eq, Structural)]
pub enum PermissionReplyAction {
    Once,
    Always,
    Reject,
}

/// The start page: a logo and a tip. It ignores every event.
pub struct StartPage;

impl StartPage {
    /// Events reach the start page only to be ignored.
    pub fn handle_event(&mut self, event: Event) -> (r: Action)
        ensures
            r == Action::NoAction,
    {
        Action::NoAction
    }
}

} // verus!
