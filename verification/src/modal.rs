//! Overlay dialogs: sessions, server connection, display settings, models,
//! help, permission and question prompts.
use vstd::prelude::*;

use crate::app::{Action, PermissionReplyAction};
use crate::chat::{part_kind_at, part_kind_order, ChatDisplayPolicy, PartKind, PART_KIND_COUNT};
use crate::event::{Event, KeyEvent, Scancode};
use crate::model::{
    AgentConfig, Config, ModelConfig, ModelSummary, PermissionRequest, ProviderConfig, QuestionInfo, QuestionRequest,
    ServerConnection, Session,
};
use crate::text::{
    chars_lt, chars_of, concat, concat3, copy_opt_string, has_infix, lower_text, pop_char,
    push_char, str_contains, str_eq, str_lt, string_of_range, to_lowercase,
};

use crate::transcript::{lines_view, push_line, push_text, LineStyle, StyledLine};
use crate::user_work::{first_where, lemma_first_where};

verus! {

/// An overlay dialog drawn on top of a full-screen view.
pub trait Modal: Sized {
    /// What an event does to the dialog `s`, giving `t` and the action `r`;
    /// a dialog that states nothing of it leaves it open.
    open spec fn handles(s: Self, t: Self, event: Event, r: Action) -> bool {
        true
    }

    /// The dialog's title; a dialog that states nothing of it leaves it open.
    open spec fn title_text(&self) -> Seq<char> {
        arbitrary()
    }

    /// Reacts to an event and says what the application should do.
    fn handle_event(&mut self, event: Event) -> (r: Action)
        ensures
            Self::handles(*old(self), *final(self), event, r),
    ;

    /// The dialog's title.
    fn title(&self) -> (r: &str)
        ensures
            r@ == self.title_text(),
    ;
}

/// `text` shortened to `width` characters, ending in "..." when there is room.
pub open spec fn fit_spec(text: Seq<char>, width: nat) -> Seq<char> {
    if text.len() <= width {
        text
    } else if width == 0 {
        Seq::empty()
    } else if width <= 3 {
        Seq::new(width, |i: int| '.')
    } else {
        text.take(width - 3) + "..."@
    }
}

/// Shortens `text` to at most `width` characters.
pub fn fit_with_ellipsis(text: String, width: usize) -> (r: String)
    ensures
        r@ == fit_spec(text@, width as nat),
        r@.len() <= width || r@ == text@,
{
    let cs = chars_of(text.as_str());
    if cs.len() <= width {
        return text;
    }
    if width == 0 {
        return String::new();
    }
    proof {
        reveal_strlit("...");
    }
    if width <= 3 {
        let mut out = String::new();
        let mut i: usize = 0;
        while i < width
            invariant
                i <= width,
                out@ == Seq::new(i as nat, |k: int| '.'),
            decreases width - i,
        {
            push_char(&mut out, '.');
            assert(out@ =~= Seq::new((i + 1) as nat, |k: int| '.'));
            i += 1;
        }
        return out;
    }
    let mut out = string_of_range(cs.as_slice(), 0, width - 3);
    out.append("...");
    out
}

/// `id` as shown in lists: ids longer than 12 characters keep their first 6
/// and last 4 characters around "...".
pub open spec fn short_id_spec(id: Seq<char>) -> Seq<char> {
    if id.len() <= 12 {
        id
    } else {
        id.take(6) + "..."@ + id.skip(id.len() - 4)
    }
}

/// A shortened session id.
pub fn short_id(id: &str) -> (r: String)
    ensures
        r@ == short_id_spec(id@),
{
    let cs = chars_of(id);
    if cs.len() <= 12 {
        return id.to_owned();
    }
    proof {
        reveal_strlit("...");
    }
    let mut out = string_of_range(cs.as_slice(), 0, 6);
    out.append("...");
    let tail = string_of_range(cs.as_slice(), cs.len() - 4, cs.len());
    out.append(tail.as_str());
    out
}

// --- Session list ---
#[derive(Debug, Clone, PartialEq, Eq)]
pub enum SessionListState {
    Loading,
    Loaded,
    Empty,
    Error(String),
}

/// The list of sessions, with a selection, a scroll offset and a pending
/// delete confirmation.
pub struct SessionListModal {
    pub state: SessionListState,
    pub sessions: Vec<Session>,
    pub selected: usize,
    pub scroll: u16,
    pub confirm_delete: Option<usize>,
}

/// The scroll offset that keeps row `selected` visible in `height` rows.
pub open spec fn scroll_to_show(selected: u16, scroll: u16, height: u16) -> u16 {
    if height == 0 {
        scroll
    } else if selected < scroll {
        selected
    } else {
        let keep = (height - 1) as u16;
        let bottom = if scroll + keep > u16::MAX {
            u16::MAX
        } else {
            (scroll + keep) as u16
        };
        if selected > bottom {
            (selected - keep) as u16
        } else {
            scroll
        }
    }
}

impl SessionListModal {
    /// A list that is still loading.
    pub fn new() -> (r: SessionListModal)
        ensures
            r.state == SessionListState::Loading,
            r.sessions@.len() == 0,
            r.selected == 0,
            r.scroll == 0,
            r.confirm_delete is None,
    {
        SessionListModal {
            state: SessionListState::Loading,
            sessions: Vec::new(),
            selected: 0,
            scroll: 0,
            confirm_delete: None,
        }
    }

    /// Shows `sessions`; an empty list shows the empty state instead.
    pub fn set_sessions(&mut self, sessions: Vec<Session>)
        ensures
            sessions@.len() == 0 ==> final(self).state == SessionListState::Empty
                && final(self).sessions == old(self).sessions && final(self).selected == old(self).selected,
            sessions@.len() > 0 ==> final(self).state == SessionListState::Loaded
                && final(self).sessions@ == sessions@ && final(self).selected == if old(self).selected < sessions@.len() {
                old(self).selected
            } else {
                (sessions@.len() - 1) as usize
            },
            final(self).scroll == old(self).scroll,
            final(self).confirm_delete == old(self).confirm_delete,
    {
        if sessions.len() == 0 {
            self.state = SessionListState::Empty;
        } else {
            let last = sessions.len() - 1;
            if self.selected > last {
                self.selected = last;
            }
            self.ensure_selected_visible(0);
            self.sessions = sessions;
            self.state = SessionListState::Loaded;
        }
    }

    /// Shows an error instead of the list.
    pub fn set_error(&mut self, error: String)
        ensures
            final(self).state == SessionListState::Error(error),
            final(self).sessions == old(self).sessions,
            final(self).selected == old(self).selected,
            final(self).scroll == old(self).scroll,
            final(self).confirm_delete == old(self).confirm_delete,
    {
        self.state = SessionListState::Error(error);
    }

    /// Position of the selection.
    pub fn selected_index(&self) -> (r: usize)
        ensures
            r == self.selected,
    {
        self.selected
    }

    /// Index of the first visible row.
    pub fn scroll_offset(&self) -> (r: u16)
        ensures
            r == self.scroll,
    {
        self.scroll
    }

    fn ensure_selected_visible(&mut self, visible_height: u16)
        ensures
            final(self).scroll == scroll_to_show(
                old(self).selected as u16,
                old(self).scroll,
                visible_height,
            ),
            final(self).state == old(self).state,
            final(self).sessions == old(self).sessions,
            final(self).selected == old(self).selected,
            final(self).confirm_delete == old(self).confirm_delete,
    {
        if visible_height == 0 {
            return;
        }
        let selected = self.selected as u16;
        if selected < self.scroll {
            self.scroll = selected;
        } else {
            let bottom = self.scroll.saturating_add(visible_height - 1);
            if selected > bottom {
                self.scroll = selected - (visible_height - 1);
            }
        }
    }

    /// What an event does to the dialog `s`, giving `t` and the action `r`
    /// (see `handle_event`).
    pub open spec fn event_handled(s: SessionListModal, t: SessionListModal, event: Event, r: Action) -> bool {
        &&& (t.sessions == s.sessions)
        &&& (t.state == s.state)
        &&& (s.state != SessionListState::Loaded ==> r == Action::NoAction && t
            == s)
        &&& (s.state == SessionListState::Loaded ==> match event {
            Event::Key(ke) => match ke.scancode {
                Scancode::Up => {
                    let sel = if s.selected > 0 {
                        (s.selected - 1) as usize
                    } else {
                        0
                    };
                    &&& r == Action::NoAction
                    &&& t.selected == sel
                    &&& t.scroll == scroll_to_show(sel as u16, s.scroll, 1)
                    &&& t.confirm_delete == s.confirm_delete
                },
                Scancode::Down => {
                    let max = if s.sessions@.len() > 0 {
                        s.sessions@.len() - 1
                    } else {
                        0
                    };
                    let sel = if s.selected + 1 <= max {
                        (s.selected + 1) as usize
                    } else {
                        max as usize
                    };
                    let sc = scroll_to_show(sel as u16, s.scroll, 1);
                    &&& r == Action::NoAction
                    &&& t.selected == sel
                    &&& t.scroll == if sel as u16 >= sc + 1 {
                        sel as u16
                    } else {
                        sc
                    }
                    &&& t.confirm_delete == s.confirm_delete
                },
                Scancode::Enter => {
                    &&& t == s
                    &&& (s.confirm_delete is Some ==> r == Action::NoAction)
                    &&& (s.confirm_delete is None && s.selected < s.sessions@.len() ==> (r matches Action::LoadSession(id) && id == s.sessions@[s.selected as int].id))
                    &&& (s.confirm_delete is None && s.selected >= s.sessions@.len() ==> r == Action::NoAction)
                },
                Scancode::Delete => {
                    &&& t.selected == s.selected
                    &&& t.scroll == s.scroll
                    &&& if s.confirm_delete == Some(s.selected) {
                        if s.selected < s.sessions@.len() {
                            &&& t.confirm_delete is None
                            &&& (r matches Action::DeleteSession(id) && id == s.sessions@[s.selected as int].id)
                        } else {
                            t.confirm_delete == s.confirm_delete && r
                                == Action::NoAction
                        }
                    } else {
                        t.confirm_delete == Some(s.selected) && r
                            == Action::NoAction
                    }
                },
                Scancode::Escape => {
                    &&& r == Action::CloseModal
                    &&& t.confirm_delete is None
                    &&& t.selected == s.selected
                    &&& t.scroll == s.scroll
                },
                _ => r == Action::NoAction && t == s,
            },
            _ => r == Action::NoAction && t == s,
        })
    }

    /// Moves the selection, opens the selected session, asks for and confirms
    /// deletion, or closes. Only a loaded list reacts.
    pub fn handle_event(&mut self, event: Event) -> (r: Action)
        ensures
            Self::event_handled(*old(self), *final(self), event, r),
    {
        let loaded = match self.state {
            SessionListState::Loaded => true,
            _ => false,
        };
        if !loaded {
            return Action::NoAction;
        }
        match event {
            Event::Key(ke) => match ke.scancode {
                Scancode::Up => {
                    self.selected = self.selected.saturating_sub(1);
                    self.ensure_selected_visible(1);
                    Action::NoAction
                },
                Scancode::Down => {
                    let max = self.sessions.len().saturating_sub(1);
                    let next = self.selected.saturating_add(1);
                    self.selected = if next < max {
                        next
                    } else {
                        max
                    };
                    self.ensure_selected_visible(1);
                    if self.selected as u16 >= self.scroll.saturating_add(1) {
                        self.scroll = self.selected as u16;
                    }
                    Action::NoAction
                },
                Scancode::Enter => {
                    if self.confirm_delete.is_some() {
                        Action::NoAction
                    } else if self.selected < self.sessions.len() {
                        Action::LoadSession(self.sessions[self.selected].id.clone())
                    } else {
                        Action::NoAction
                    }
                },
                Scancode::Delete => {
                    if self.confirm_delete == Some(self.selected) {
                        if self.selected < self.sessions.len() {
                            let id = self.sessions[self.selected].id.clone();
                            self.confirm_delete = None;
                            Action::DeleteSession(id)
                        } else {
                            Action::NoAction
                        }
                    } else {
                        self.confirm_delete = Some(self.selected);
                        Action::NoAction
                    }
                },
                Scancode::Escape => {
                    self.confirm_delete = None;
                    Action::CloseModal
                },
                _ => Action::NoAction,
            },
            _ => Action::NoAction,
        }
    }

    /// The dialog's title.
    pub fn title(&self) -> (r: &'static str)
        ensures
            r@ == "Sessions"@,
    {
        "Sessions"
    }
}

impl Modal for SessionListModal {
    open spec fn handles(s: SessionListModal, t: SessionListModal, event: Event, r: Action) -> bool {
        SessionListModal::event_handled(s, t, event, r)
    }

    open spec fn title_text(&self) -> Seq<char> {
        "Sessions"@
    }

    fn handle_event(&mut self, event: Event) -> (r: Action) {
        SessionListModal::handle_event(self, event)
    }

    fn title(&self) -> (r: &str) {
        SessionListModal::title(self)
    }
}

// --- Server connection ---
#[derive(Debug, Clone, Copy, PartialEq, Eq, Structural)]
pub enum ConnectionTier {
    Green,
    Yellow,
    Red,
}

/// How the active connection is doing, for display.
#[derive(Debug, Clone, PartialEq, Eq)]
pub struct ConnectionStatusDisplay {
    pub tier: ConnectionTier,
    pub summary: String,
    pub detail: String,
}

#[derive(Debug, Clone, PartialEq, Eq)]
pub enum ServerConfigStatus {
    Idle,
    Applying,
    Error(String),
}

#[derive(Debug, Clone, Copy, PartialEq, Eq, Structural)]
pub enum ServerConfigFocus {
    Url,
    Username,
    Password,
    Apply,
}

/// Focus after Tab or Right.
pub open spec fn focus_forward(f: ServerConfigFocus) -> ServerConfigFocus {
    match f {
        ServerConfigFocus::Url => ServerConfigFocus::Username,
        ServerConfigFocus::Username => ServerConfigFocus::Password,
        ServerConfigFocus::Password => ServerConfigFocus::Apply,
        ServerConfigFocus::Apply => ServerConfigFocus::Url,
    }
}

/// Focus after Left.
pub open spec fn focus_back(f: ServerConfigFocus) -> ServerConfigFocus {
    match f {
        ServerConfigFocus::Url => ServerConfigFocus::Apply,
        ServerConfigFocus::Username => ServerConfigFocus::Url,
        ServerConfigFocus::Password => ServerConfigFocus::Username,
        ServerConfigFocus::Apply => ServerConfigFocus::Password,
    }
}

/// Moving focus forward then back returns to the same field.
pub proof fn law_focus_round_trip(f: ServerConfigFocus)
    ensures
        focus_back(focus_forward(f)) == f,
        focus_forward(focus_back(f)) == f,
{
}

/// Edits the server URL and credentials and applies them.
pub struct ServerConfigModal {
    pub url: String,
    pub username: String,
    pub password: String,
    pub status: ServerConfigStatus,
    pub focus: ServerConfigFocus,
    pub active_connection: ConnectionStatusDisplay,
}

/// The connection the dialog applies: no password when it is empty, and no
/// username without a password or when it is empty.
pub open spec fn applied_connection(url: String, username: String, password: String, c: ServerConnection) -> bool {
    &&& c.url == url
    &&& (password@.len() == 0 ==> c.password is None)
    &&& (password@.len() > 0 ==> c.password == Some(password))
    &&& (password@.len() == 0 || username@.len() == 0 ==> c.username is None)
    &&& (password@.len() > 0 && username@.len() > 0 ==> c.username == Some(username))
}

impl ServerConfigModal {
    /// The connection status shown before the server has sent anything.
    pub open spec fn awaiting_first_event(c: ConnectionStatusDisplay) -> bool {
        &&& c.tier == ConnectionTier::Yellow
        &&& c.summary@ == "connecting"@
        &&& c.detail@ == "Waiting for the first live event from the active server"@
    }

    /// A dialog for `url` without credentials.
    pub fn new(url: String) -> (r: ServerConfigModal)
        ensures
            r.url == url,
            r.username@ == "opencode"@,
            r.password@.len() == 0,
            r.status == ServerConfigStatus::Idle,
            r.focus == ServerConfigFocus::Url,
            Self::awaiting_first_event(r.active_connection),
    {
        Self::new_with_connection(ServerConnection::unauthenticated(url))
    }

    /// A dialog prefilled with `connection`; the username defaults to "opencode".
    pub fn new_with_connection(connection: ServerConnection) -> (r: ServerConfigModal)
        ensures
            r.url == connection.url,
            connection.username matches Some(u) ==> r.username == u,
            connection.username is None ==> r.username@ == "opencode"@,
            connection.password matches Some(p) ==> r.password == p,
            connection.password is None ==> r.password@.len() == 0,
            r.status == ServerConfigStatus::Idle,
            r.focus == ServerConfigFocus::Url,
            Self::awaiting_first_event(r.active_connection),
    {
        let username = match connection.username {
            Some(u) => u,
            None => "opencode".to_owned(),
        };
        let password = match connection.password {
            Some(p) => p,
            None => String::new(),
        };
        ServerConfigModal {
            url: connection.url,
            username,
            password,
            status: ServerConfigStatus::Idle,
            focus: ServerConfigFocus::Url,
            active_connection: ConnectionStatusDisplay {
                tier: ConnectionTier::Yellow,
                summary: "connecting".to_owned(),
                detail: "Waiting for the first live event from the active server".to_owned(),
            },
        }
    }

    /// Replaces the shown status of the active connection.
    pub fn set_connection_status(&mut self, status: ConnectionStatusDisplay)
        ensures
            final(self).active_connection == status,
            final(self).url == old(self).url,
            final(self).username == old(self).username,
            final(self).password == old(self).password,
            final(self).status == old(self).status,
            final(self).focus == old(self).focus,
    {
        self.active_connection = status;
    }

    /// Marks the connection as being applied.
    pub fn set_applying(&mut self)
        ensures
            final(self).status == ServerConfigStatus::Applying,
            final(self).url == old(self).url,
            final(self).username == old(self).username,
            final(self).password == old(self).password,
            final(self).focus == old(self).focus,
            final(self).active_connection == old(self).active_connection,
    {
        self.status = ServerConfigStatus::Applying;
    }

    /// Shows why applying failed.
    pub fn set_apply_error(&mut self, error: String)
        ensures
            final(self).status == ServerConfigStatus::Error(error),
            final(self).url == old(self).url,
            final(self).username == old(self).username,
            final(self).password == old(self).password,
            final(self).focus == old(self).focus,
            final(self).active_connection == old(self).active_connection,
    {
        self.status = ServerConfigStatus::Error(error);
    }

    /// The URL being edited.
    pub fn url(&self) -> (r: &str)
        ensures
            r@ == self.url@,
    {
        self.url.as_str()
    }

    /// The username being edited.
    pub fn username(&self) -> (r: &str)
        ensures
            r@ == self.username@,
    {
        self.username.as_str()
    }

    /// The password being edited.
    pub fn password(&self) -> (r: &str)
        ensures
            r@ == self.password@,
    {
        self.password.as_str()
    }

    /// The one-line summary of the active connection.
    pub fn active_connection_summary(&self) -> (r: &str)
        ensures
            r@ == self.active_connection.summary@,
    {
        self.active_connection.summary.as_str()
    }

    /// The connection the fields describe.
    pub fn connection(&self) -> (r: ServerConnection)
        ensures
            applied_connection(self.url, self.username, self.password, r),
    {
        let password = if self.password.as_str().unicode_len() == 0 {
            None
        } else {
            Some(self.password.clone())
        };
        let username = if password.is_none() || self.username.as_str().unicode_len() == 0 {
            None
        } else {
            Some(self.username.clone())
        };
        ServerConnection::new(self.url.clone(), username, password)
    }

    /// What an event does to the dialog `s`, giving `t` and the action `r`
    /// (see `handle_event`).
    pub open spec fn event_handled(s: ServerConfigModal, t: ServerConfigModal, event: Event, r: Action) -> bool {
        &&& (t.active_connection == s.active_connection)
        &&& (match event {
            Event::Key(ke) => {
                let on_field = s.focus != ServerConfigFocus::Apply;
                match ke.scancode {
                    Scancode::Escape => r == Action::CloseModal && t == s,
                    Scancode::Tab | Scancode::Right => r == Action::NoAction && t.focus
                        == focus_forward(s.focus) && t.url == s.url
                        && t.username == s.username && t.password
                        == s.password && t.status == s.status,
                    Scancode::Left => r == Action::NoAction && t.focus == focus_back(
                        s.focus,
                    ) && t.url == s.url && t.username == s.username && t.password == s.password && t.status == s.status,
                    Scancode::Backspace => {
                        &&& r == Action::NoAction
                        &&& t.focus == s.focus
                        &&& (on_field ==> t.status == ServerConfigStatus::Idle)
                        &&& (!on_field ==> t == s)
                        &&& (s.focus == ServerConfigFocus::Url ==> t.url@ == (
                        if s.url@.len() > 0 {
                            s.url@.drop_last()
                        } else {
                            s.url@
                        }) && t.username == s.username && t.password == s.password)
                        &&& (s.focus == ServerConfigFocus::Username ==> t.username@ == (if s.username@.len() > 0 {
                            s.username@.drop_last()
                        } else {
                            s.username@
                        }) && t.url == s.url && t.password == s.password)
                        &&& (s.focus == ServerConfigFocus::Password ==> t.password@ == (if s.password@.len() > 0 {
                            s.password@.drop_last()
                        } else {
                            s.password@
                        }) && t.url == s.url && t.username == s.username)
                    },
                    Scancode::Char(ch) => {
                        let plain = !ke.modifiers.ctrl && !ke.modifiers.alt
                            && !ke.modifiers.meta;
                        &&& r == Action::NoAction
                        &&& t.focus == s.focus
                        &&& (!on_field || !plain ==> t == s)
                        &&& (on_field && plain ==> t.status
                            == ServerConfigStatus::Idle)
                        &&& (on_field && plain && s.focus == ServerConfigFocus::Url
                            ==> t.url@ == s.url@.push(ch) && t.username == s.username && t.password == s.password)
                        &&& (on_field && plain && s.focus
                            == ServerConfigFocus::Username ==> t.username@ == s.username@.push(ch) && t.url == s.url && t.password == s.password)
                        &&& (on_field && plain && s.focus
                            == ServerConfigFocus::Password ==> t.password@ == s.password@.push(ch) && t.url == s.url && t.username == s.username)
                    },
                    Scancode::Enter => if on_field {
                        r == Action::NoAction && t.focus == ServerConfigFocus::Apply
                            && t.url == s.url && t.username == s.username && t.password == s.password && t.status == s.status
                    } else {
                        &&& t.status == ServerConfigStatus::Applying
                        &&& t.focus == s.focus
                        &&& t.url == s.url
                        &&& t.username == s.username
                        &&& t.password == s.password
                        &&& (r matches Action::ApplyServerConnection(c) && applied_connection(
                            s.url,
                            s.username,
                            s.password,
                            c,
                        ))
                    },
                    _ => r == Action::NoAction && t == s,
                }
            },
            _ => r == Action::NoAction && t == s,
        })
    }

    /// Handles a key: Escape closes; Tab, Right and Left move focus; typing
    /// and Backspace edit the focused field; Enter on a field moves to Apply,
    /// and on Apply applies the connection.
    pub fn handle_event(&mut self, event: Event) -> (r: Action)
        ensures
            Self::event_handled(*old(self), *final(self), event, r),
    {
        match event {
            Event::Key(ke) => {
                let on_field = match self.focus {
                    ServerConfigFocus::Apply => false,
                    _ => true,
                };
                match ke.scancode {
                    Scancode::Escape => Action::CloseModal,
                    Scancode::Tab | Scancode::Right => {
                        self.focus =
                        match self.focus {
                            ServerConfigFocus::Url => ServerConfigFocus::Username,
                            ServerConfigFocus::Username => ServerConfigFocus::Password,
                            ServerConfigFocus::Password => ServerConfigFocus::Apply,
                            ServerConfigFocus::Apply => ServerConfigFocus::Url,
                        };
                        Action::NoAction
                    },
                    Scancode::Left => {
                        self.focus =
                        match self.focus {
                            ServerConfigFocus::Url => ServerConfigFocus::Apply,
                            ServerConfigFocus::Username => ServerConfigFocus::Url,
                            ServerConfigFocus::Password => ServerConfigFocus::Username,
                            ServerConfigFocus::Apply => ServerConfigFocus::Password,
                        };
                        Action::NoAction
                    },
                    Scancode::Backspace => {
                        if on_field {
                            match self.focus {
                                ServerConfigFocus::Url => {
                                    pop_char(&mut self.url);
                                },
                                ServerConfigFocus::Username => {
                                    pop_char(&mut self.username);
                                },
                                ServerConfigFocus::Password => {
                                    pop_char(&mut self.password);
                                },
                                ServerConfigFocus::Apply => {},
                            }
                            self.status = ServerConfigStatus::Idle;
                        }
                        Action::NoAction
                    },
                    Scancode::Char(ch) => {
                        if on_field && !ke.modifiers.ctrl && !ke.modifiers.alt
                            && !ke.modifiers.meta {
                            match self.focus {
                                ServerConfigFocus::Url => push_char(&mut self.url, ch),
                                ServerConfigFocus::Username => push_char(&mut self.username, ch),
                                ServerConfigFocus::Password => push_char(&mut self.password, ch),
                                ServerConfigFocus::Apply => {},
                            }
                            self.status = ServerConfigStatus::Idle;
                        }
                        Action::NoAction
                    },
                    Scancode::Enter => {
                        if on_field {
                            self.focus = ServerConfigFocus::Apply;
                            Action::NoAction
                        } else {
                            self.set_applying();
                            Action::ApplyServerConnection(self.connection())
                        }
                    },
                    _ => Action::NoAction,
                }
            },
            _ => Action::NoAction,
        }
    }

    /// The dialog's title.
    pub fn title(&self) -> (r: &'static str)
        ensures
            r@ == "Server Connection"@,
    {
        "Server Connection"
    }
}

impl Modal for ServerConfigModal {
    open spec fn handles(s: ServerConfigModal, t: ServerConfigModal, event: Event, r: Action) -> bool {
        ServerConfigModal::event_handled(s, t, event, r)
    }

    open spec fn title_text(&self) -> Seq<char> {
        "Server Connection"@
    }

    fn handle_event(&mut self, event: Event) -> (r: Action) {
        ServerConfigModal::handle_event(self, event)
    }

    fn title(&self) -> (r: &str) {
        ServerConfigModal::title(self)
    }
}

// --- Display settings ---
/// Cycles the display mode of each part kind.
pub struct DisplayConfigModal {
    pub policy: ChatDisplayPolicy,
    pub selected: usize,
}

impl DisplayConfigModal {
    /// A dialog over `policy`, with the first kind selected.
    pub fn new(policy: ChatDisplayPolicy) -> (r: DisplayConfigModal)
        ensures
            r.policy == policy,
            r.selected == 0,
    {
        DisplayConfigModal { policy, selected: 0 }
    }

    /// Shows `policy`.
    pub fn set_policy(&mut self, policy: ChatDisplayPolicy)
        ensures
            final(self).policy == policy,
            final(self).selected == old(self).selected,
    {
        self.policy = policy;
    }

    /// The kind on the selected row.
    pub fn selected_kind(&self) -> (r: PartKind)
        ensures
            r == part_kind_order()[if self.selected < PART_KIND_COUNT {
                self.selected as int
            } else {
                PART_KIND_COUNT - 1
            }],
    {
        let i = if self.selected < PART_KIND_COUNT {
            self.selected
        } else {
            PART_KIND_COUNT - 1
        };
        part_kind_at(i)
    }

    /// What an event does to the dialog `s`, giving `t` and the action `r`
    /// (see `handle_event`).
    pub open spec fn event_handled(s: DisplayConfigModal, t: DisplayConfigModal, event: Event, r: Action) -> bool {
        &&& (t.policy == s.policy)
        &&& (match event {
            Event::Key(ke) => match ke.scancode {
                Scancode::Escape => r == Action::CloseModal && t.selected == s.selected,
                Scancode::Up => r == Action::NoAction && t.selected == if s.selected > 0 {
                    (s.selected - 1) as usize
                } else {
                    0
                },
                Scancode::Down => r == Action::NoAction && t.selected == if s.selected + 1 < PART_KIND_COUNT {
                    (s.selected + 1) as usize
                } else {
                    (PART_KIND_COUNT - 1) as usize
                },
                Scancode::Enter => {
                    let k = part_kind_order()[if s.selected < PART_KIND_COUNT {
                        s.selected as int
                    } else {
                        PART_KIND_COUNT - 1
                    }];
                    r == Action::SetDisplayMode(k, s.policy.mode_spec(k).next_spec())
                        && t.selected == s.selected
                },
                Scancode::Char(c) => if c == ' ' {
                    let k = part_kind_order()[if s.selected < PART_KIND_COUNT {
                        s.selected as int
                    } else {
                        PART_KIND_COUNT - 1
                    }];
                    r == Action::SetDisplayMode(k, s.policy.mode_spec(k).next_spec())
                        && t.selected == s.selected
                } else {
                    r == Action::NoAction && t.selected == s.selected
                },
                _ => r == Action::NoAction && t.selected == s.selected,
            },
            _ => r == Action::NoAction && t.selected == s.selected,
        })
    }

    /// Handles a key: Escape closes, Up and Down move, Enter or Space cycles
    /// the selected kind's mode.
    pub fn handle_event(&mut self, event: Event) -> (r: Action)
        ensures
            Self::event_handled(*old(self), *final(self), event, r),
    {
        match event {
            Event::Key(ke) => match ke.scancode {
                Scancode::Escape => Action::CloseModal,
                Scancode::Up => {
                    self.selected = self.selected.saturating_sub(1);
                    Action::NoAction
                },
                Scancode::Down => {
                    self.selected =
                    if self.selected < PART_KIND_COUNT - 1 {
                        self.selected + 1
                    } else {
                        PART_KIND_COUNT - 1
                    };
                    Action::NoAction
                },
                Scancode::Enter => {
                    let kind = self.selected_kind();
                    Action::SetDisplayMode(kind, self.policy.mode_for_kind(kind).next())
                },
                Scancode::Char(c) => {
                    if c == ' ' {
                        let kind = self.selected_kind();
                        Action::SetDisplayMode(kind, self.policy.mode_for_kind(kind).next())
                    } else {
                        Action::NoAction
                    }
                },
                _ => Action::NoAction,
            },
            _ => Action::NoAction,
        }
    }

    /// The dialog's title.
    pub fn title(&self) -> (r: &'static str)
        ensures
            r@ == "Display"@,
    {
        "Display"
    }
}

impl Modal for DisplayConfigModal {
    open spec fn handles(s: DisplayConfigModal, t: DisplayConfigModal, event: Event, r: Action) -> bool {
        DisplayConfigModal::event_handled(s, t, event, r)
    }

    open spec fn title_text(&self) -> Seq<char> {
        "Display"@
    }

    fn handle_event(&mut self, event: Event) -> (r: Action) {
        DisplayConfigModal::handle_event(self, event)
    }

    fn title(&self) -> (r: &str) {
        DisplayConfigModal::title(self)
    }
}

// --- Help ---
/// Number of lines in the help text.
pub const HELP_LINE_COUNT: u16 = 32;

/// The help text, scrollable.
pub struct HelpModal {
    pub scroll: u16,
    /// Rows available for the text, as last drawn.
    pub visible_height: u16,
}

/// The scroll offset after moving `delta` lines, clamped to the text.
pub open spec fn help_scroll_after(scroll: u16, visible_height: u16, delta: int) -> u16 {
    let vh = if visible_height >= 1 {
        visible_height
    } else {
        1
    };
    let max_scroll = if HELP_LINE_COUNT >= vh {
        (HELP_LINE_COUNT - vh) as u16
    } else {
        0
    };
    let s = if scroll <= max_scroll {
        scroll
    } else {
        max_scroll
    };
    if delta < 0 {
        if s >= -delta {
            (s + delta) as u16
        } else {
            0
        }
    } else {
        if s + delta <= max_scroll {
            (s + delta) as u16
        } else {
            max_scroll
        }
    }
}

impl HelpModal {
    /// Help scrolled to the top.
    pub fn new() -> (r: HelpModal)
        ensures
            r.scroll == 0,
            r.visible_height == 1,
    {
        HelpModal { scroll: 0, visible_height: 1 }
    }

    /// Records how many rows the text has on screen.
    pub fn set_visible_height(&mut self, visible_height: u16)
        ensures
            final(self).visible_height == visible_height,
            final(self).scroll == old(self).scroll,
    {
        self.visible_height = visible_height;
    }

    /// Index of the first visible line.
    pub fn scroll_offset(&self) -> (r: u16)
        ensures
            r == self.scroll,
    {
        self.scroll
    }

    fn move_scroll(&mut self, delta: i16)
        ensures
            final(self).scroll == help_scroll_after(
                old(self).scroll,
                old(self).visible_height,
                delta as int,
            ),
            final(self).visible_height == old(self).visible_height,
    {
        let visible_height = if self.visible_height >= 1 {
            self.visible_height
        } else {
            1
        };
        let max_scroll = HELP_LINE_COUNT.saturating_sub(visible_height);
        let scroll = if self.scroll <= max_scroll {
            self.scroll
        } else {
            max_scroll
        };
        if delta < 0 {
            let d: u16 = if delta == i16::MIN {
                32768u16
            } else {
                (-delta) as u16
            };
            self.scroll = scroll.saturating_sub(d);
        } else {
            let d = delta as u16;
            self.scroll =
            if scroll as u32 + d as u32 <= max_scroll as u32 {
                scroll + d
            } else {
                max_scroll
            };
        }
    }

    /// What an event does to the dialog `s`, giving `t` and the action `r`
    /// (see `handle_event`).
    pub open spec fn event_handled(s: HelpModal, t: HelpModal, event: Event, r: Action) -> bool {
        &&& (t.visible_height == s.visible_height)
        &&& (match event {
            Event::Key(ke) => match ke.scancode {
                Scancode::Escape => r == Action::CloseModal && t.scroll == s.scroll,
                Scancode::Up => r == Action::NoAction && t.scroll
                    == help_scroll_after(s.scroll, s.visible_height, -1),
                Scancode::Down => r == Action::NoAction && t.scroll
                    == help_scroll_after(s.scroll, s.visible_height, 1),
                Scancode::PageUp => r == Action::NoAction && t.scroll
                    == help_scroll_after(s.scroll, s.visible_height, -8),
                Scancode::PageDown => r == Action::NoAction && t.scroll
                    == help_scroll_after(s.scroll, s.visible_height, 8),
                _ => r == Action::NoAction && t.scroll == s.scroll,
            },
            _ => r == Action::NoAction && t.scroll == s.scroll,
        })
    }

    /// Handles a key: Escape closes; Up, Down, PageUp and PageDown scroll by
    /// 1 and 8 lines.
    pub fn handle_event(&mut self, event: Event) -> (r: Action)
        ensures
            Self::event_handled(*old(self), *final(self), event, r),
    {
        match event {
            Event::Key(ke) => match ke.scancode {
                Scancode::Escape => Action::CloseModal,
                Scancode::Up => {
                    self.move_scroll(-1);
                    Action::NoAction
                },
                Scancode::Down => {
                    self.move_scroll(1);
                    Action::NoAction
                },
                Scancode::PageUp => {
                    self.move_scroll(-8);
                    Action::NoAction
                },
                Scancode::PageDown => {
                    self.move_scroll(8);
                    Action::NoAction
                },
                _ => Action::NoAction,
            },
            _ => Action::NoAction,
        }
    }

    /// The dialog's title.
    pub fn title(&self) -> (r: &'static str)
        ensures
            r@ == "Help"@,
    {
        "Help"
    }
}

/// The help text: each line and whether it heads a section.
pub open spec fn help_text() -> Seq<(Seq<char>, LineStyle)> {
    seq![
        ("Slash Commands"@, LineStyle::TextAccent),
        ("  /help         Show this help"@, LineStyle::Text),
        ("  /sessions     List sessions"@, LineStyle::Text),
        ("  /new          New session"@, LineStyle::Text),
        ("  /models       Model picker"@, LineStyle::Text),
        ("  /todos        Toggle todos panel"@, LineStyle::Text),
        ("  /diagnostics  Toggle diagnostics panel"@, LineStyle::Text),
        ("  /pty          Toggle terminal panel"@, LineStyle::Text),
        ("  /server       Configure server connection"@, LineStyle::Text),
        ("  /display      Configure transcript detail"@, LineStyle::Text),
        ("  /abort        Abort current session"@, LineStyle::Text),
        ("  /exit         Quit"@, LineStyle::Text),
        (""@, LineStyle::Text),
        ("Keybindings"@, LineStyle::TextAccent),
        ("  Ctrl+X H      Help"@, LineStyle::Text),
        ("  Ctrl+X Q      Quit"@, LineStyle::Text),
        ("  Ctrl+X N      New session"@, LineStyle::Text),
        ("  Ctrl+X L      Sessions"@, LineStyle::Text),
        ("  Ctrl+X M      Models"@, LineStyle::Text),
        ("  Ctrl+X T      Terminal"@, LineStyle::Text),
        ("  Ctrl+X D      Diagnostics"@, LineStyle::Text),
        ("  Ctrl+X O      Todos"@, LineStyle::Text),
        ("  Ctrl+P        Command palette"@, LineStyle::Text),
        ("  Tab           Cycle agent forward"@, LineStyle::Text),
        ("  Shift+Tab     Cycle agent backward"@, LineStyle::Text),
        ("  Escape        Close modal / interrupt"@, LineStyle::Text),
        ("Input Prefixes"@, LineStyle::TextAccent),
        ("  /             Command mode"@, LineStyle::Text),
        ("  !             Shell mode"@, LineStyle::Text),
        ("  @             File reference"@, LineStyle::Text),
        ("  #             Tool reference"@, LineStyle::Text),
    ]
}

impl HelpModal {
    /// The lines of the help text, headings in the accent style.
    pub fn lines(&self) -> (r: Vec<StyledLine>)
        ensures
            lines_view(r@) == help_text(),
    {
        let mut lines: Vec<StyledLine> = Vec::new();
        push_text(&mut lines, "Slash Commands", LineStyle::TextAccent);
        push_text(&mut lines, "  /help         Show this help", LineStyle::Text);
        push_text(&mut lines, "  /sessions     List sessions", LineStyle::Text);
        push_text(&mut lines, "  /new          New session", LineStyle::Text);
        push_text(&mut lines, "  /models       Model picker", LineStyle::Text);
        push_text(&mut lines, "  /todos        Toggle todos panel", LineStyle::Text);
        push_text(&mut lines, "  /diagnostics  Toggle diagnostics panel", LineStyle::Text);
        push_text(&mut lines, "  /pty          Toggle terminal panel", LineStyle::Text);
        push_text(&mut lines, "  /server       Configure server connection", LineStyle::Text);
        push_text(&mut lines, "  /display      Configure transcript detail", LineStyle::Text);
        push_text(&mut lines, "  /abort        Abort current session", LineStyle::Text);
        push_text(&mut lines, "  /exit         Quit", LineStyle::Text);
        push_text(&mut lines, "", LineStyle::Text);
        push_text(&mut lines, "Keybindings", LineStyle::TextAccent);
        push_text(&mut lines, "  Ctrl+X H      Help", LineStyle::Text);
        push_text(&mut lines, "  Ctrl+X Q      Quit", LineStyle::Text);
        push_text(&mut lines, "  Ctrl+X N      New session", LineStyle::Text);
        push_text(&mut lines, "  Ctrl+X L      Sessions", LineStyle::Text);
        push_text(&mut lines, "  Ctrl+X M      Models", LineStyle::Text);
        push_text(&mut lines, "  Ctrl+X T      Terminal", LineStyle::Text);
        push_text(&mut lines, "  Ctrl+X D      Diagnostics", LineStyle::Text);
        push_text(&mut lines, "  Ctrl+X O      Todos", LineStyle::Text);
        push_text(&mut lines, "  Ctrl+P        Command palette", LineStyle::Text);
        push_text(&mut lines, "  Tab           Cycle agent forward", LineStyle::Text);
        push_text(&mut lines, "  Shift+Tab     Cycle agent backward", LineStyle::Text);
        push_text(&mut lines, "  Escape        Close modal / interrupt", LineStyle::Text);
        push_text(&mut lines, "Input Prefixes", LineStyle::TextAccent);
        push_text(&mut lines, "  /             Command mode", LineStyle::Text);
        push_text(&mut lines, "  !             Shell mode", LineStyle::Text);
        push_text(&mut lines, "  @             File reference", LineStyle::Text);
        push_text(&mut lines, "  #             Tool reference", LineStyle::Text);
        assert(lines_view(lines@) =~= help_text());
        lines
    }
}

impl Modal for HelpModal {
    open spec fn handles(s: HelpModal, t: HelpModal, event: Event, r: Action) -> bool {
        HelpModal::event_handled(s, t, event, r)
    }

    open spec fn title_text(&self) -> Seq<char> {
        "Help"@
    }

    fn handle_event(&mut self, event: Event) -> (r: Action) {
        HelpModal::handle_event(self, event)
    }

    fn title(&self) -> (r: &str) {
        HelpModal::title(self)
    }
}

/// Scrolling help never goes past the last screenful of text.
pub proof fn law_help_scroll_bounded(scroll: u16, visible_height: u16, delta: int)
    ensures
        help_scroll_after(scroll, visible_height, delta) as int <= if HELP_LINE_COUNT >= (
        if visible_height >= 1 {
            visible_height
        } else {
            1
        }) {
            HELP_LINE_COUNT - (if visible_height >= 1 {
                visible_height
            } else {
                1
            })
        } else {
            0
        },
{
}


// --- Permission prompt ---
/// Asks the user to allow a tool action once, always, or not at all.
pub struct PermissionModal {
    pub request: PermissionRequest,
    pub selected: usize,
}

/// The reply for a button position: 0 allows once, 1 always, anything else denies.
pub open spec fn reply_for_button(selected: usize) -> PermissionReplyAction {
    if selected == 0 {
        PermissionReplyAction::Once
    } else if selected == 1 {
        PermissionReplyAction::Always
    } else {
        PermissionReplyAction::Reject
    }
}

impl PermissionModal {
    /// A prompt for `request` with "Allow Once" focused.
    pub fn new(request: PermissionRequest) -> (r: PermissionModal)
        ensures
            r.request == request,
            r.selected == 0,
    {
        PermissionModal { request, selected: 0 }
    }

    /// What an event does to the dialog `s`, giving `t` and the action `r`
    /// (see `handle_event`).
    pub open spec fn event_handled(s: PermissionModal, t: PermissionModal, event: Event, r: Action) -> bool {
        &&& (t.request == s.request)
        &&& (match event {
            Event::Key(ke) => match ke.scancode {
                Scancode::Left => r == Action::NoAction && t.selected == if s.selected > 0 {
                    (s.selected - 1) as usize
                } else {
                    0
                },
                Scancode::Right => r == Action::NoAction && t.selected == if s.selected + 1 < 2 {
                    (s.selected + 1) as usize
                } else {
                    2
                },
                Scancode::Enter => t.selected == s.selected && r
                    == Action::ReplyPermission(
                    s.request.session_id,
                    s.request.id,
                    reply_for_button(s.selected),
                ),
                Scancode::Escape => t.selected == s.selected && r
                    == Action::ReplyPermission(
                    s.request.session_id,
                    s.request.id,
                    PermissionReplyAction::Reject,
                ),
                _ => r == Action::NoAction && t.selected == s.selected,
            },
            _ => r == Action::NoAction && t.selected == s.selected,
        })
    }

    /// Handles a key: Left and Right choose a button, Enter replies with it,
    /// Escape denies.
    pub fn handle_event(&mut self, event: Event) -> (r: Action)
        ensures
            Self::event_handled(*old(self), *final(self), event, r),
    {
        match event {
            Event::Key(ke) => match ke.scancode {
                Scancode::Left => {
                    self.selected = self.selected.saturating_sub(1);
                    Action::NoAction
                },
                Scancode::Right => {
                    self.selected =
                    if self.selected < 1 {
                        self.selected + 1
                    } else {
                        2
                    };
                    Action::NoAction
                },
                Scancode::Enter => {
                    let reply = if self.selected == 0 {
                        PermissionReplyAction::Once
                    } else if self.selected == 1 {
                        PermissionReplyAction::Always
                    } else {
                        PermissionReplyAction::Reject
                    };
                    Action::ReplyPermission(
                        self.request.session_id.clone(),
                        self.request.id.clone(),
                        reply,
                    )
                },
                Scancode::Escape => Action::ReplyPermission(
                    self.request.session_id.clone(),
                    self.request.id.clone(),
                    PermissionReplyAction::Reject,
                ),
                _ => Action::NoAction,
            },
            _ => Action::NoAction,
        }
    }

    /// The dialog's title.
    pub fn title(&self) -> (r: &'static str)
        ensures
            r@ == "Permission Request"@,
    {
        "Permission Request"
    }
}

/// After `i` presses of Right on a prompt that starts on the first button,
/// the prompt is on button `min(i, 2)`, for the same request.
proof fn lemma_rights_move(ms: Seq<PermissionModal>, keys: Seq<KeyEvent>, acts: Seq<Action>, i: int)
    requires
        ms.len() == keys.len() + 1,
        acts.len() == keys.len(),
        ms[0].selected == 0,
        forall|j: int| 0 <= j < keys.len() ==> (#[trigger] keys[j]).scancode == Scancode::Right,
        forall|j: int|
            0 <= j < keys.len() ==> PermissionModal::event_handled(
                #[trigger] ms[j],
                ms[j + 1],
                Event::Key(keys[j]),
                acts[j],
            ),
        0 <= i <= keys.len(),
    ensures
        ms[i].request == ms[0].request,
        ms[i].selected == (if i < 2 {
            i
        } else {
            2
        }),
    decreases i,
{
    if i > 0 {
        lemma_rights_move(ms, keys, acts, i - 1);
        assert(PermissionModal::event_handled(ms[i - 1], ms[i], Event::Key(keys[i - 1]), acts[i - 1]));
    }
}

/// On a fresh permission prompt, Right pressed `n` times and then Enter
/// replies with "Allow Once" for no press, "Allow Always" for one, and
/// "Reject" for two or more; Right alone never replies.
pub proof fn law_permission_rights_then_enter(
    request: PermissionRequest,
    ms: Seq<PermissionModal>,
    keys: Seq<KeyEvent>,
    acts: Seq<Action>,
    enter: KeyEvent,
    last: PermissionModal,
    reply: Action,
)
    requires
        ms.len() == keys.len() + 1,
        acts.len() == keys.len(),
        ms[0] == (PermissionModal { request, selected: 0 }),
        forall|j: int| 0 <= j < keys.len() ==> (#[trigger] keys[j]).scancode == Scancode::Right,
        forall|j: int|
            0 <= j < keys.len() ==> PermissionModal::event_handled(
                #[trigger] ms[j],
                ms[j + 1],
                Event::Key(keys[j]),
                acts[j],
            ),
        enter.scancode == Scancode::Enter,
        PermissionModal::event_handled(ms.last(), last, Event::Key(enter), reply),
    ensures
        forall|j: int| 0 <= j < acts.len() ==> #[trigger] acts[j] == Action::NoAction,
        reply == Action::ReplyPermission(
            request.session_id,
            request.id,
            if keys.len() == 0 {
                PermissionReplyAction::Once
            } else if keys.len() == 1 {
                PermissionReplyAction::Always
            } else {
                PermissionReplyAction::Reject
            },
        ),
{
    lemma_rights_move(ms, keys, acts, keys.len() as int);
    assert forall|j: int| 0 <= j < acts.len() implies #[trigger] acts[j] == Action::NoAction by {
        assert(PermissionModal::event_handled(ms[j], ms[j + 1], Event::Key(keys[j]), acts[j]));
    }
}

impl Modal for PermissionModal {
    open spec fn handles(s: PermissionModal, t: PermissionModal, event: Event, r: Action) -> bool {
        PermissionModal::event_handled(s, t, event, r)
    }

    open spec fn title_text(&self) -> Seq<char> {
        "Permission Request"@
    }

    fn handle_event(&mut self, event: Event) -> (r: Action) {
        PermissionModal::handle_event(self, event)
    }

    fn title(&self) -> (r: &str) {
        PermissionModal::title(self)
    }
}

// --- Question prompt ---
/// The answer being composed for one question.
#[derive(Debug, Clone, PartialEq, Eq)]
pub struct QuestionDraft {
    /// Row under the cursor: an option, or the custom row after them.
    pub cursor: usize,
    /// The chosen option of a single-choice question.
    pub selected_option: Option<usize>,
    /// The toggled options of a multiple-choice question.
    pub selected_options: Vec<bool>,
    pub custom_input: String,
    pub custom_selected: bool,
}

impl QuestionDraft {
    /// A draft with nothing answered yet: the cursor on the first option,
    /// no option chosen, no answer of its own.
    pub open spec fn is_blank(d: QuestionDraft, question: QuestionInfo) -> bool {
        &&& d.cursor == 0
        &&& d.selected_option is None
        &&& d.selected_options@ == Seq::new(question.options@.len(), |i: int| false)
        &&& d.custom_input@.len() == 0
        &&& !d.custom_selected
    }

    /// A blank draft for `question`.
    pub fn new(question: &QuestionInfo) -> (r: QuestionDraft)
        ensures
            Self::is_blank(r, *question),
    {
        let mut flags: Vec<bool> = Vec::new();
        let mut i: usize = 0;
        while i < question.options.len()
            invariant
                i <= question.options@.len(),
                flags@ == Seq::new(i as nat, |k: int| false),
            decreases question.options@.len() - i,
        {
            flags.push(false);
            assert(flags@ =~= Seq::new((i + 1) as nat, |k: int| false));
            i += 1;
        }
        QuestionDraft {
            cursor: 0,
            selected_option: None,
            selected_options: flags,
            custom_input: String::new(),
            custom_selected: false,
        }
    }
}

/// Number of selectable rows of a question: its options, plus the custom row.
pub open spec fn row_count(q: QuestionInfo) -> nat {
    q.options@.len() + if q.custom {
        1nat
    } else {
        0nat
    }
}

/// The labels of the toggled options among the first `n`, in order.
pub open spec fn toggled_labels(q: QuestionInfo, flags: Seq<bool>, n: int) -> Seq<Seq<char>>
    decreases n,
{
    if n <= 0 {
        Seq::empty()
    } else if n - 1 < flags.len() && flags[n - 1] {
        toggled_labels(q, flags, n - 1).push(q.options@[n - 1].label@)
    } else {
        toggled_labels(q, flags, n - 1)
    }
}

/// The answer a draft gives to its question.
pub open spec fn draft_answer(q: QuestionInfo, d: QuestionDraft) -> Seq<Seq<char>> {
    if q.multiple {
        toggled_labels(q, d.selected_options@, q.options@.len() as int) + if q.custom
            && d.custom_selected && d.custom_input@.len() > 0 {
            seq![d.custom_input@]
        } else {
            Seq::empty()
        }
    } else if d.custom_selected {
        if d.custom_input@.len() > 0 {
            seq![d.custom_input@]
        } else {
            Seq::empty()
        }
    } else {
        match d.selected_option {
            Some(i) => if i < q.options@.len() {
                seq![q.options@[i as int].label@]
            } else {
                Seq::empty()
            },
            None => Seq::empty(),
        }
    }
}

/// The positions of the options toggled among the first `n`, ascending,
/// with the labels `toggled_labels` gives for them.
proof fn lemma_toggled_positions(q: QuestionInfo, flags: Seq<bool>, n: int) -> (idx: Seq<int>)
    requires
        0 <= n <= q.options@.len(),
    ensures
        idx.len() == toggled_labels(q, flags, n).len(),
        forall|i: int|
            0 <= i < idx.len() ==> 0 <= #[trigger] idx[i] < n && idx[i] < flags.len() && flags[idx[i]]
                && toggled_labels(q, flags, n)[i] == q.options@[idx[i]].label@,
        forall|i: int, j: int| 0 <= i < j < idx.len() ==> #[trigger] idx[i] < #[trigger] idx[j],
        forall|k: int|
            0 <= k < n && k < flags.len() && #[trigger] flags[k] ==> exists|i: int|
                0 <= i < idx.len() && idx[i] == k,
    decreases n,
{
    if n <= 0 {
        Seq::empty()
    } else {
        let rest = lemma_toggled_positions(q, flags, n - 1);
        if n - 1 < flags.len() && flags[n - 1] {
            let idx = rest.push(n - 1);
            assert forall|k: int|
                0 <= k < n && k < flags.len() && #[trigger] flags[k] implies exists|i: int|
                    0 <= i < idx.len() && idx[i] == k by {
                if k == n - 1 {
                    assert(idx[rest.len() as int] == k);
                } else {
                    let i = choose|i: int| 0 <= i < rest.len() && rest[i] == k;
                    assert(idx[i] == k);
                }
            }
            idx
        } else {
            rest
        }
    }
}

/// The answer to a multiple-choice question: the labels of the toggled
/// options, each once and in option order, followed by the typed answer when
/// the question allows one, its row is chosen and something was typed.
pub proof fn law_multiple_choice_answer(q: QuestionInfo, d: QuestionDraft)
    requires
        q.multiple,
    ensures
        ({
            let a = draft_answer(q, d);
            let typed = q.custom && d.custom_selected && d.custom_input@.len() > 0;
            let m = if typed {
                a.len() - 1
            } else {
                a.len() as int
            };
            &&& typed ==> a.len() >= 1 && a.last() == d.custom_input@
            &&& exists|idx: Seq<int>|
                {
                    &&& idx.len() == m
                    &&& forall|i: int|
                        0 <= i < m ==> 0 <= #[trigger] idx[i] < q.options@.len() && idx[i]
                            < d.selected_options@.len() && d.selected_options@[idx[i]] && a[i]
                            == q.options@[idx[i]].label@
                    &&& forall|i: int, j: int| 0 <= i < j < m ==> #[trigger] idx[i] < #[trigger] idx[j]
                    &&& forall|k: int|
                        0 <= k < q.options@.len() && k < d.selected_options@.len()
                            && #[trigger] d.selected_options@[k] ==> exists|i: int| 0 <= i < m && idx[i] == k
                }
        }),
{
    let n = q.options@.len() as int;
    let flags = d.selected_options@;
    let idx = lemma_toggled_positions(q, flags, n);
    let labels = toggled_labels(q, flags, n);
    let a = draft_answer(q, d);
    let typed = q.custom && d.custom_selected && d.custom_input@.len() > 0;
    if typed {
        assert(a == labels + seq![d.custom_input@]);
    } else {
        assert(a =~= labels);
    }
    assert forall|i: int| 0 <= i < labels.len() implies a[i] == labels[i] by {}
}

/// The answer to a single-choice question has at most one entry: the typed
/// answer when its row is chosen (none when nothing was typed), else the
/// label of the chosen option (none when no option is chosen).
pub proof fn law_single_choice_answer(q: QuestionInfo, d: QuestionDraft)
    requires
        !q.multiple,
    ensures
        draft_answer(q, d).len() <= 1,
        d.custom_selected && d.custom_input@.len() > 0 ==> draft_answer(q, d) == seq![d.custom_input@],
        d.custom_selected && d.custom_input@.len() == 0 ==> draft_answer(q, d).len() == 0,
        forall|i: usize|
            !d.custom_selected && d.selected_option == Some(i) && i < q.options@.len() ==> draft_answer(q, d)
                == seq![#[trigger] q.options@[i as int].label@],
        !d.custom_selected && d.selected_option is None ==> draft_answer(q, d).len() == 0,
{
}

/// Walks the user through the questions of a request, one at a time.
pub struct QuestionModal {
    pub request: QuestionRequest,
    pub current_q: usize,
    pub drafts: Vec<QuestionDraft>,
}

impl QuestionModal {
    /// Every question has a draft with one flag per option.
    pub open spec fn wf(&self) -> bool {
        &&& self.drafts@.len() == self.request.questions@.len()
        &&& forall|i: int|
            0 <= i < self.drafts@.len() ==> #[trigger] self.drafts@[i].selected_options@.len()
                == self.request.questions@[i].options@.len()
    }

    /// The answers of all drafts, question by question.
    pub open spec fn answers(&self) -> Seq<Seq<Seq<char>>> {
        Seq::new(
            self.request.questions@.len(),
            |i: int| draft_answer(self.request.questions@[i], self.drafts@[i]),
        )
    }

    /// The reply holds one answer per question, in question order: the
    /// answer of that question's draft.
    pub proof fn law_answers_in_question_order(m: QuestionModal)
        ensures
            m.answers().len() == m.request.questions@.len(),
            forall|i: int|
                0 <= i < m.request.questions@.len() ==> #[trigger] m.answers()[i] == draft_answer(
                    m.request.questions@[i],
                    m.drafts@[i],
                ),
    {
    }

    /// A prompt for `request`, on its first question, with blank drafts.
    pub fn new(request: QuestionRequest) -> (r: QuestionModal)
        ensures
            r.wf(),
            r.request == request,
            r.current_q == 0,
            r.drafts@.len() == request.questions@.len(),
            forall|i: int|
                0 <= i < r.drafts@.len() ==> QuestionDraft::is_blank(#[trigger] r.drafts@[i], request.questions@[i]),
    {
        let mut drafts: Vec<QuestionDraft> = Vec::new();
        let mut i: usize = 0;
        while i < request.questions.len()
            invariant
                i <= request.questions@.len(),
                drafts@.len() == i,
                forall|k: int|
                    0 <= k < i ==> #[trigger] drafts@[k].selected_options@.len()
                        == request.questions@[k].options@.len(),
                forall|k: int| 0 <= k < i ==> #[trigger] QuestionDraft::is_blank(drafts@[k], request.questions@[k]),
            decreases request.questions@.len() - i,
        {
            drafts.push(QuestionDraft::new(&request.questions[i]));
            i += 1;
        }
        QuestionModal { request, current_q: 0, drafts }
    }

    /// What moving the cursor by `delta` does to `s`, giving `t`.
    pub open spec fn cursor_moved(s: QuestionModal, t: QuestionModal, delta: isize) -> bool {
        &&& (t.request == s.request)
        &&& (t.current_q == s.current_q)
        &&& (s.current_q >= s.drafts@.len() || row_count(
            s.request.questions@[s.current_q as int],
        ) == 0 ==> t.drafts@ == s.drafts@)
        &&& (s.current_q < s.drafts@.len() && row_count(
            s.request.questions@[s.current_q as int],
        ) > 0 ==> {
            let q = s.current_q as int;
            let d = s.drafts@[q];
            let rows = row_count(s.request.questions@[q]);
            let c = if delta < 0 {
                if d.cursor >= -delta {
                    d.cursor + delta
                } else {
                    0
                }
            } else if d.cursor + delta <= rows - 1 {
                d.cursor + delta
            } else {
                rows - 1
            };
            t.drafts@ == s.drafts@.update(
                q,
                QuestionDraft { cursor: c as usize, ..d },
            )
        })
    }

    /// Moves the cursor of the current question by `delta` rows, within its rows.
    pub fn move_cursor(&mut self, delta: isize)
        requires
            old(self).wf(),
        ensures
            final(self).wf(),
            Self::cursor_moved(*old(self), *final(self), delta),
    {
        if self.current_q >= self.drafts.len() {
            return ;
        }
        let q = self.current_q;
        let n = self.request.questions[q].options.len();
        let last_row: usize = if self.request.questions[q].custom {
            n
        } else if n > 0 {
            n - 1
        } else {
            return ;
        };
        let mut d = self.drafts.remove(q);
        if delta < 0 {
            let m: usize = if delta == isize::MIN {
                (isize::MAX as usize) + 1
            } else {
                (-delta) as usize
            };
            d.cursor = d.cursor.saturating_sub(m);
        } else {
            let m = delta as usize;
            d.cursor =
            if d.cursor <= last_row && m <= last_row - d.cursor {
                d.cursor + m
            } else {
                last_row
            };
        }
        self.drafts.insert(q, d);
        proof {
            assert(self.drafts@ =~= old(self).drafts@.update(q as int, d));
        }
    }

    /// What typing `ch` into the custom answer does to `s`, giving `t` and `r`.
    pub open spec fn custom_appended(s: QuestionModal, t: QuestionModal, ch: char, r: bool) -> bool {
        &&& (t.request == s.request)
        &&& (t.current_q == s.current_q)
        &&& (({
            let qi = s.current_q as int;
            let applies = qi < s.drafts@.len() && s.request.questions@[qi].custom
                && s.drafts@[qi].cursor == s.request.questions@[qi].options@.len();
            &&& r == applies
            &&& !applies ==> t.drafts@ == s.drafts@
            &&& applies ==> {
                let d = s.drafts@[qi];
                let nd = t.drafts@[qi];
                &&& t.drafts@.len() == s.drafts@.len()
                &&& forall|j: int|
                    0 <= j < s.drafts@.len() && j != qi ==> #[trigger] t.drafts@[j] == s.drafts@[j]
                &&& nd.custom_input@ == d.custom_input@.push(ch)
                &&& nd.custom_selected
                &&& nd.cursor == d.cursor
                &&& nd.selected_options == d.selected_options
                &&& nd.selected_option == if s.request.questions@[qi].multiple {
                    d.selected_option
                } else {
                    None
                }
            }
        }))
    }

    /// Types a character into the custom answer, when the cursor is on the
    /// custom row; a single-choice question then drops its chosen option.
    pub fn append_custom_char(&mut self, ch: char) -> (r: bool)
        requires
            old(self).wf(),
        ensures
            final(self).wf(),
            Self::custom_appended(*old(self), *final(self), ch, r),
    {
        let q = self.current_q;
        if q >= self.drafts.len() {
            return false;
        }
        if !self.request.questions[q].custom {
            return false;
        }
        let custom_index = self.request.questions[q].options.len();
        let multiple = self.request.questions[q].multiple;
        if self.drafts[q].cursor != custom_index {
            return false;
        }
        let mut d = self.drafts.remove(q);
        push_char(&mut d.custom_input, ch);
        d.custom_selected = true;
        if !multiple {
            d.selected_option = None;
        }
        self.drafts.insert(q, d);
        true
    }

    /// What Backspace in the custom answer does to `s`, giving `t` and `r`.
    pub open spec fn custom_erased(s: QuestionModal, t: QuestionModal, r: bool) -> bool {
        &&& (t.request == s.request)
        &&& (t.current_q == s.current_q)
        &&& (({
            let qi = s.current_q as int;
            let applies = qi < s.drafts@.len() && s.request.questions@[qi].custom
                && s.drafts@[qi].cursor == s.request.questions@[qi].options@.len();
            &&& r == applies
            &&& !applies ==> t.drafts@ == s.drafts@
            &&& applies ==> {
                let d = s.drafts@[qi];
                let nd = t.drafts@[qi];
                let input = if d.custom_input@.len() > 0 {
                    d.custom_input@.drop_last()
                } else {
                    d.custom_input@
                };
                &&& t.drafts@.len() == s.drafts@.len()
                &&& forall|j: int|
                    0 <= j < s.drafts@.len() && j != qi ==> #[trigger] t.drafts@[j] == s.drafts@[j]
                &&& nd.custom_input@ == input
                &&& nd.custom_selected == (d.custom_selected && input.len() > 0)
                &&& nd.cursor == d.cursor
                &&& nd.selected_options == d.selected_options
                &&& nd.selected_option == d.selected_option
            }
        }))
    }

    /// Erases the last character of the custom answer, when the cursor is on
    /// the custom row; an emptied custom answer is no longer selected.
    pub fn backspace_custom_input(&mut self) -> (r: bool)
        requires
            old(self).wf(),
        ensures
            final(self).wf(),
            Self::custom_erased(*old(self), *final(self), r),
    {
        let q = self.current_q;
        if q >= self.drafts.len() {
            return false;
        }
        if !self.request.questions[q].custom {
            return false;
        }
        let custom_index = self.request.questions[q].options.len();
        if self.drafts[q].cursor != custom_index {
            return false;
        }
        let mut d = self.drafts.remove(q);
        pop_char(&mut d.custom_input);
        if d.custom_input.as_str().unicode_len() == 0 {
            d.custom_selected = false;
        }
        self.drafts.insert(q, d);
        true
    }

    /// What toggling the row under the cursor does to `s`, giving `t` and `r`.
    pub open spec fn selection_toggled(s: QuestionModal, t: QuestionModal, r: bool) -> bool {
        &&& (t.request == s.request)
        &&& (t.current_q == s.current_q)
        &&& (({
            let qi = s.current_q as int;
            let ok = qi < s.drafts@.len() && s.request.questions@[qi].multiple;
            let q = s.request.questions@[qi];
            let d = s.drafts@[qi];
            let on_option = ok && d.cursor < q.options@.len();
            let on_custom = ok && q.custom && d.cursor == q.options@.len();
            &&& r == (on_option || on_custom)
            &&& !(on_option || on_custom) ==> t.drafts@ == s.drafts@
            &&& on_option ==> t.drafts@ == s.drafts@.update(
                qi,
                QuestionDraft {
                    selected_options: t.drafts@[qi].selected_options,
                    ..d
                },
            ) && t.drafts@[qi].selected_options@ == d.selected_options@.update(
                d.cursor as int,
                !d.selected_options@[d.cursor as int],
            )
            &&& on_custom ==> t.drafts@ == s.drafts@.update(
                qi,
                QuestionDraft { custom_selected: !d.custom_selected, ..d },
            )
        }))
    }

    /// Toggles the option (or custom row) under the cursor of a
    /// multiple-choice question.
    pub fn toggle_current_multi_selection(&mut self) -> (r: bool)
        requires
            old(self).wf(),
        ensures
            final(self).wf(),
            Self::selection_toggled(*old(self), *final(self), r),
    {
        let q = self.current_q;
        if q >= self.drafts.len() {
            return false;
        }
        if !self.request.questions[q].multiple {
            return false;
        }
        let options_len = self.request.questions[q].options.len();
        let custom = self.request.questions[q].custom;
        let cursor = self.drafts[q].cursor;
        if cursor < options_len {
            let mut d = self.drafts.remove(q);
            let flag = d.selected_options[cursor];
            d.selected_options.set(cursor, !flag);
            self.drafts.insert(q, d);
            proof {
                assert(self.drafts@ =~= old(self).drafts@.update(
                    q as int,
                    QuestionDraft { selected_options: self.drafts@[q as int].selected_options, ..old(self).drafts@[q as int] },
                ));
            }
            return true;
        }
        if custom && cursor == options_len {
            let mut d = self.drafts.remove(q);
            d.custom_selected = !d.custom_selected;
            self.drafts.insert(q, d);
            proof {
                assert(self.drafts@ =~= old(self).drafts@.update(
                    q as int,
                    QuestionDraft { custom_selected: !old(self).drafts@[q as int].custom_selected, ..old(self).drafts@[q as int] },
                ));
            }
            return true;
        }
        false
    }

    /// Goes back to the previous question.
    pub fn go_back(&mut self)
        ensures
            final(self).request == old(self).request,
            final(self).drafts == old(self).drafts,
            final(self).current_q == if old(self).current_q > 0 {
                (old(self).current_q - 1) as usize
            } else {
                0
            },
    {
        if self.current_q > 0 {
            self.current_q = self.current_q - 1;
        }
    }

    /// Moves to the next question, or replies with all answers after the last.
    fn advance_or_submit(&mut self) -> (r: Action)
        requires
            old(self).wf(),
        ensures
            final(self).wf(),
            final(self).request == old(self).request,
            final(self).drafts == old(self).drafts,
            old(self).current_q + 1 < old(self).request.questions@.len() ==> final(self).current_q
                == old(self).current_q + 1 && r == Action::NoAction,
            old(self).current_q + 1 >= old(self).request.questions@.len() ==> final(self).current_q
                == old(self).current_q && (r matches Action::ReplyQuestion(s, id, answers) && s
                == old(self).request.session_id && id == old(self).request.id
                && answers.deep_view() == old(self).answers()),
    {
        if self.current_q < self.request.questions.len() && self.current_q + 1
            < self.request.questions.len() {
            self.current_q = self.current_q + 1;
            Action::NoAction
        } else {
            Action::ReplyQuestion(
                self.request.session_id.clone(),
                self.request.id.clone(),
                self.collect_answers(),
            )
        }
    }

    /// What confirming the current question does to `s`, giving `t` and `r`.
    pub open spec fn question_submitted(s: QuestionModal, t: QuestionModal, r: Action) -> bool {
        &&& (t.request == s.request)
        &&& (({
            let qi = s.current_q as int;
            let q = s.request.questions@[qi];
            let d = s.drafts@[qi];
            if qi >= s.drafts@.len() {
                r == Action::NoAction && t == s
            } else if q.multiple {
                &&& t.drafts@ == s.drafts@
                &&& (qi + 1 < s.request.questions@.len() ==> t.current_q == qi
                    + 1 && r == Action::NoAction)
                &&& (qi + 1 >= s.request.questions@.len() ==> (r matches Action::ReplyQuestion(sid,
                    id,
                    answers,
                ) && sid == s.request.session_id && id == s.request.id
                    && answers.deep_view() == s.answers()))
            } else if (q.custom && d.cursor == q.options@.len() && d.custom_input@.len() == 0)
                || (!(q.custom && d.cursor == q.options@.len()) && d.cursor
                >= q.options@.len()) {
                r == Action::NoAction && t == s
            } else {
                let nd = if q.custom && d.cursor == q.options@.len() {
                    QuestionDraft { custom_selected: true, selected_option: None, ..d }
                } else {
                    QuestionDraft {
                        selected_option: Some(d.cursor),
                        custom_selected: false,
                        ..d
                    }
                };
                &&& t.drafts@ == s.drafts@.update(qi, nd)
                &&& (qi + 1 < s.request.questions@.len() ==> t.current_q == qi
                    + 1 && r == Action::NoAction)
                &&& (qi + 1 >= s.request.questions@.len() ==> (r matches Action::ReplyQuestion(sid,
                    id,
                    answers,
                ) && sid == s.request.session_id && id == s.request.id
                    && answers.deep_view() == t.answers()))
            }
        }))
    }

    /// Confirms the current question: a multiple-choice question moves on; a
    /// single-choice one takes the option or non-empty custom answer under
    /// the cursor first, and does nothing otherwise.
    pub fn submit_current_question(&mut self) -> (r: Action)
        requires
            old(self).wf(),
        ensures
            final(self).wf(),
            Self::question_submitted(*old(self), *final(self), r),
    {
        let q = self.current_q;
        if q >= self.drafts.len() {
            return Action::NoAction;
        }
        if self.request.questions[q].multiple {
            return self.advance_or_submit();
        }
        let options_len = self.request.questions[q].options.len();
        let custom = self.request.questions[q].custom;
        let cursor = self.drafts[q].cursor;
        if custom && cursor == options_len {
            if self.drafts[q].custom_input.as_str().unicode_len() == 0 {
                return Action::NoAction;
            }
            let mut d = self.drafts.remove(q);
            d.custom_selected = true;
            d.selected_option = None;
            self.drafts.insert(q, d);
        } else if cursor < options_len {
            let mut d = self.drafts.remove(q);
            d.selected_option = Some(cursor);
            d.custom_selected = false;
            self.drafts.insert(q, d);
        } else {
            return Action::NoAction;
        }
        proof {
            assert(self.drafts@ =~= old(self).drafts@.update(q as int, self.drafts@[q as int]));
        }
        self.advance_or_submit()
    }

    /// The answers of all questions, as the server expects them.
    pub fn collect_answers(&self) -> (r: Vec<Vec<String>>)
        requires
            self.wf(),
        ensures
            r.deep_view() == self.answers(),
    {
        let mut answers: Vec<Vec<String>> = Vec::new();
        let mut i: usize = 0;
        while i < self.request.questions.len()
            invariant
                self.wf(),
                i <= self.request.questions@.len(),
                answers@.len() == i,
                forall|k: int|
                    0 <= k < i ==> #[trigger] answers@[k].deep_view() == draft_answer(
                        self.request.questions@[k],
                        self.drafts@[k],
                    ),
            decreases self.request.questions@.len() - i,
        {
            let a = Self::answer_of(&self.request.questions[i], &self.drafts[i]);
            answers.push(a);
            i += 1;
        }
        assert(answers.deep_view() =~= self.answers());
        answers
    }

    fn answer_of(q: &QuestionInfo, d: &QuestionDraft) -> (r: Vec<String>)
        requires
            d.selected_options@.len() == q.options@.len(),
        ensures
            r.deep_view() == draft_answer(*q, *d),
    {
        let mut out: Vec<String> = Vec::new();
        if q.multiple {
            let mut k: usize = 0;
            while k < q.options.len()
                invariant
                    k <= q.options@.len(),
                    d.selected_options@.len() == q.options@.len(),
                    out.deep_view() == toggled_labels(*q, d.selected_options@, k as int),
                decreases q.options@.len() - k,
            {
                if d.selected_options[k] {
                    let ghost prev = out.deep_view();
                    out.push(q.options[k].label.clone());
                    assert(out.deep_view() =~= prev.push(q.options@[k as int].label@));
                }
                k += 1;
            }
            if q.custom && d.custom_selected && d.custom_input.as_str().unicode_len() > 0 {
                let ghost prev = out.deep_view();
                out.push(d.custom_input.clone());
                assert(out.deep_view() =~= prev + seq![d.custom_input@]);
            } else {
                assert(out.deep_view() =~= out.deep_view() + Seq::<Seq<char>>::empty());
            }
        } else if d.custom_selected {
            if d.custom_input.as_str().unicode_len() > 0 {
                out.push(d.custom_input.clone());
                assert(out.deep_view() =~= seq![d.custom_input@]);
            } else {
                assert(out.deep_view() =~= Seq::<Seq<char>>::empty());
            }
        } else {
            match d.selected_option {
                Some(i) => {
                    if i < q.options.len() {
                        out.push(q.options[i].label.clone());
                        assert(out.deep_view() =~= seq![q.options@[i as int].label@]);
                    } else {
                        assert(out.deep_view() =~= Seq::<Seq<char>>::empty());
                    }
                },
                None => {
                    assert(out.deep_view() =~= Seq::<Seq<char>>::empty());
                },
            }
        }
        out
    }

    /// What an event does to the dialog `s`, giving `t` and the action `r`
    /// (see `handle_event`).
    pub open spec fn event_handled(s: QuestionModal, t: QuestionModal, event: Event, r: Action) -> bool {
        &&& (t.request == s.request)
        &&& match event {
            Event::Key(ke) => match ke.scancode {
                Scancode::Up => r == Action::NoAction && Self::cursor_moved(s, t, -1isize),
                Scancode::Down => r == Action::NoAction && Self::cursor_moved(s, t, 1isize),
                Scancode::Right | Scancode::Enter => Self::question_submitted(s, t, r),
                Scancode::Backspace => r == Action::NoAction && exists|b: bool| Self::custom_erased(s, t, b),
                Scancode::Char(c) => r == Action::NoAction && if c == ' ' {
                    exists|b: bool| Self::selection_toggled(s, t, b)
                } else {
                    exists|b: bool| Self::custom_appended(s, t, c, b)
                },
                Scancode::Escape | Scancode::Left => true,
                _ => r == Action::NoAction && t == s,
            },
            _ => r == Action::NoAction && t == s,
        }
        &&& (event matches Event::Key(ke) && ke.scancode == Scancode::Escape ==> r
            == Action::RejectQuestion(s.request.id) && t == s)
        &&& (event matches Event::Key(ke) && ke.scancode == Scancode::Left ==> r == Action::NoAction
            && t.drafts == s.drafts && t.current_q == if s.current_q > 0 {
            (s.current_q - 1) as usize
        } else {
            0
        })
        &&& (r matches Action::ReplyQuestion(sid, id, answers) ==> sid == s.request.session_id
            && id == s.request.id && answers.deep_view() == t.answers())
        &&& (r is NoAction || r is ReplyQuestion || r is RejectQuestion)
    }

    /// Handles a key: Up and Down move, Left goes back, Right and Enter
    /// confirm, Space toggles, Backspace and other characters edit the custom
    /// answer, Escape rejects the request.
    pub fn handle_event(&mut self, event: Event) -> (r: Action)
        requires
            old(self).wf(),
        ensures
            final(self).wf(),
            Self::event_handled(*old(self), *final(self), event, r),
    {
        match event {
            Event::Key(ke) => match ke.scancode {
                Scancode::Up => {
                    self.move_cursor(-1);
                    Action::NoAction
                },
                Scancode::Down => {
                    self.move_cursor(1);
                    Action::NoAction
                },
                Scancode::Left => {
                    self.go_back();
                    Action::NoAction
                },
                Scancode::Right | Scancode::Enter => self.submit_current_question(),
                Scancode::Backspace => {
                    self.backspace_custom_input();
                    Action::NoAction
                },
                Scancode::Char(c) => {
                    if c == ' ' {
                        self.toggle_current_multi_selection();
                    } else {
                        self.append_custom_char(c);
                    }
                    Action::NoAction
                },
                Scancode::Escape => Action::RejectQuestion(self.request.id.clone()),
                _ => Action::NoAction,
            },
            _ => Action::NoAction,
        }
    }

    /// The dialog's title.
    pub fn title(&self) -> (r: &'static str)
        ensures
            r@ == "Question"@,
    {
        "Question"
    }
}


// --- Model picker ---
/// One selectable model.
#[derive(Debug, Clone, PartialEq, Eq)]
pub struct ModelChoice {
    /// "provider/model".
    pub id: String,
    pub label: String,
    pub provider: String,
    pub family: Option<String>,
}

impl ModelChoice {
    fn duplicate(&self) -> (r: ModelChoice)
        ensures
            r == *self,
    {
        ModelChoice {
            id: self.id.clone(),
            label: self.label.clone(),
            provider: self.provider.clone(),
            family: copy_opt_string(&self.family),
        }
    }
}

/// A choice with the id `id`.
pub open spec fn choice_with_id(id: Seq<char>) -> spec_fn(ModelChoice) -> bool {
    |c: ModelChoice| c.id@ == id
}

/// What a choice shows: its id, label, provider and family.
pub open spec fn choice_view(c: ModelChoice) -> (Seq<char>, Seq<char>, Seq<char>, Option<Seq<char>>) {
    (c.id@, c.label@, c.provider@, crate::chat::opt_view(c.family))
}

/// What each choice of `s` shows.
pub open spec fn choices_view(s: Seq<ModelChoice>) -> Seq<(Seq<char>, Seq<char>, Seq<char>, Option<Seq<char>>)> {
    s.map_values(|c: ModelChoice| choice_view(c))
}

/// The choice a model of the configuration makes: "provider/model", labelled
/// by its name, else its configured id, else its key.
pub open spec fn config_model_view(pid: Seq<char>, m: (String, ModelConfig)) -> (Seq<char>, Seq<char>, Seq<char>, Option<Seq<char>>) {
    (
        pid + "/"@ + m.0@,
        match m.1.name {
            Some(n) => n@,
            None => match m.1.id {
                Some(i) => i@,
                None => m.0@,
            },
        },
        pid,
        crate::chat::opt_view(m.1.family),
    )
}

/// The choices the models of one provider make, in order.
pub open spec fn provider_views(pid: Seq<char>, models: Seq<(String, ModelConfig)>) -> Seq<(Seq<char>, Seq<char>, Seq<char>, Option<Seq<char>>)> {
    models.map_values(|m: (String, ModelConfig)| config_model_view(pid, m))
}

/// The position of the agent that names a model and comes first by name
/// (the earliest of equal names).
pub open spec fn least_agent_with_model(agents: Seq<(String, AgentConfig)>) -> Option<int>
    decreases agents.len(),
{
    if agents.len() == 0 {
        None
    } else {
        let rest = least_agent_with_model(agents.drop_last());
        let k = agents.len() - 1;
        if agents[k].1.model is Some {
            match rest {
                Some(j) => if str_lt(agents[k].0@, agents[j].0@) {
                    Some(k)
                } else {
                    Some(j)
                },
                None => Some(k),
            }
        } else {
            rest
        }
    }
}

/// The model the agents name: that of the agent "build" where it names one,
/// else that of the agent first by name that names one.
pub open spec fn agents_model(agents: Seq<(String, AgentConfig)>) -> Option<String> {
    let build = match crate::chat::lookup(agents, "build"@) {
        Some(a) => a.model,
        None => None,
    };
    match build {
        Some(m) => Some(m),
        None => match least_agent_with_model(agents) {
            Some(j) => agents[j].1.model,
            None => None,
        },
    }
}

/// What the catalog `catalog` offers, as choices (nothing without one).
pub open spec fn catalog_views(catalog: Option<Seq<ModelSummary>>) -> Seq<(Seq<char>, Seq<char>, Seq<char>, Option<Seq<char>>)> {
    match catalog {
        Some(c) => c.map_values(|x: ModelSummary| catalog_view(x)),
        None => Seq::empty(),
    }
}

/// `m` lists, one per id and sorted by id, the models of `catalog` followed
/// by those that `config` declares.
pub open spec fn lists_models(m: ModelPickerModal, config: Config, catalog: Option<Seq<ModelSummary>>) -> bool {
    exists|input: Seq<ModelChoice>|
        choices_view(input) == catalog_views(catalog) + config_views(config.provider@) && dedup_sorted(
            input,
            m.models@,
        )
}

/// The choices the configuration declares, provider by provider.
pub open spec fn config_views(providers: Seq<(String, ProviderConfig)>) -> Seq<(Seq<char>, Seq<char>, Seq<char>, Option<Seq<char>>)>
    decreases providers.len(),
{
    if providers.len() == 0 {
        Seq::empty()
    } else {
        config_views(providers.drop_last()) + provider_views(providers.last().0@, providers.last().1.models@)
    }
}

/// The choice a catalog model makes: "provider/model", labelled by its name,
/// else its id.
pub open spec fn catalog_view(m: ModelSummary) -> (Seq<char>, Seq<char>, Seq<char>, Option<Seq<char>>) {
    (
        m.provider_id@ + "/"@ + m.id@,
        match m.name {
            Some(n) => n@,
            None => m.id@,
        },
        m.provider_id@,
        crate::chat::opt_view(m.family),
    )
}

/// The choices are in strictly increasing id order (so no id repeats).
pub open spec fn sorted_by_id(s: Seq<ModelChoice>) -> bool {
    forall|i: int, j: int| 0 <= i < j < s.len() ==> str_lt(#[trigger] s[i].id@, #[trigger] s[j].id@)
}

/// `k` is the first position of `input` with its id.
pub open spec fn first_of_its_id(input: Seq<ModelChoice>, k: int) -> bool {
    forall|k2: int| 0 <= k2 < k ==> #[trigger] input[k2].id@ != input[k].id@
}

/// Some choice of `out` has the id `id`.
#[verifier::opaque]
pub open spec fn id_in(out: Seq<ModelChoice>, id: Seq<char>) -> bool {
    exists|i: int| 0 <= i < out.len() && #[trigger] out[i].id@ == id
}

/// `c` is the first choice of `input` with its id.
#[verifier::opaque]
pub open spec fn first_in(input: Seq<ModelChoice>, c: ModelChoice) -> bool {
    exists|k: int| 0 <= k < input.len() && #[trigger] input[k] == c && first_of_its_id(input, k)
}

/// `out` holds, sorted by id, the first choice of each id in `input`.
pub open spec fn dedup_sorted(input: Seq<ModelChoice>, out: Seq<ModelChoice>) -> bool {
    &&& sorted_by_id(out)
    &&& forall|k: int| 0 <= k < input.len() ==> id_in(out, #[trigger] input[k].id@)
    &&& forall|i: int| 0 <= i < out.len() ==> first_in(input, #[trigger] out[i])
}

proof fn lemma_first_in_extend(pre: Seq<ModelChoice>, m: ModelChoice, c: ModelChoice)
    requires
        first_in(pre, c),
    ensures
        first_in(pre.push(m), c),
{
    reveal(first_in);
    let post = pre.push(m);
    let k = choose|k: int| 0 <= k < pre.len() && #[trigger] pre[k] == c && first_of_its_id(pre, k);
    assert(post[k] == pre[k]);
    assert forall|k2: int| 0 <= k2 < k implies #[trigger] post[k2].id@ != post[k].id@ by {
        assert(post[k2] == pre[k2]);
    }
}

proof fn lemma_dedup_step_dup(pre: Seq<ModelChoice>, prev: Seq<ModelChoice>, m: ModelChoice, pos: int)
    requires
        dedup_sorted(pre, prev),
        0 <= pos < prev.len(),
        prev[pos].id@ == m.id@,
    ensures
        dedup_sorted(pre.push(m), prev),
{
    let post = pre.push(m);
    assert forall|kk: int| 0 <= kk < post.len() implies id_in(prev, #[trigger] post[kk].id@) by {
        if kk == pre.len() {
            reveal(id_in);
            assert(prev[pos].id@ == post[kk].id@);
        } else {
            assert(post[kk] == pre[kk]);
        }
    }
    assert forall|i: int| 0 <= i < prev.len() implies first_in(post, #[trigger] prev[i]) by {
        lemma_first_in_extend(pre, m, prev[i]);
    }
}

proof fn lemma_not_in_sorted(prev: Seq<ModelChoice>, m: ModelChoice, pos: int, id: Seq<char>)
    requires
        sorted_by_id(prev),
        0 <= pos <= prev.len(),
        forall|j: int| 0 <= j < pos ==> str_lt(#[trigger] prev[j].id@, m.id@),
        pos < prev.len() ==> str_lt(m.id@, prev[pos].id@),
        id_in(prev, id),
    ensures
        id != m.id@,
{
    reveal(id_in);
    let j = choose|j: int| 0 <= j < prev.len() && #[trigger] prev[j].id@ == id;
    crate::text::lemma_str_lt_irreflexive(m.id@);
    if j < pos {
        assert(str_lt(prev[j].id@, m.id@));
    } else if j > pos {
        assert(str_lt(prev[pos].id@, prev[j].id@));
        crate::text::lemma_str_lt_transitive(m.id@, prev[pos].id@, prev[j].id@);
        crate::text::lemma_str_lt_total(m.id@, prev[j].id@);
    } else {
        crate::text::lemma_str_lt_total(m.id@, prev[j].id@);
    }
}

proof fn lemma_dedup_step_insert(pre: Seq<ModelChoice>, prev: Seq<ModelChoice>, m: ModelChoice, pos: int)
    requires
        dedup_sorted(pre, prev),
        0 <= pos <= prev.len(),
        forall|j: int| 0 <= j < pos ==> str_lt(#[trigger] prev[j].id@, m.id@),
        pos < prev.len() ==> str_lt(m.id@, prev[pos].id@),
    ensures
        dedup_sorted(pre.push(m), prev.insert(pos, m)),
{
    let post = pre.push(m);
    let out = prev.insert(pos, m);
    assert forall|a: int, b: int| 0 <= a < b < out.len() implies str_lt(
        #[trigger] out[a].id@,
        #[trigger] out[b].id@,
    ) by {
        if b < pos {
            assert(out[a] == prev[a] && out[b] == prev[b]);
        } else if a < pos && b == pos {
            assert(out[a] == prev[a]);
        } else if a < pos && b > pos {
            assert(out[a] == prev[a] && out[b] == prev[b - 1]);
            if b - 1 > pos {
                assert(str_lt(prev[pos].id@, prev[b - 1].id@));
                crate::text::lemma_str_lt_transitive(m.id@, prev[pos].id@, prev[b - 1].id@);
            }
            crate::text::lemma_str_lt_transitive(prev[a].id@, m.id@, prev[b - 1].id@);
        } else if a == pos {
            assert(out[b] == prev[b - 1]);
            if b - 1 > pos {
                assert(str_lt(prev[pos].id@, prev[b - 1].id@));
                crate::text::lemma_str_lt_transitive(m.id@, prev[pos].id@, prev[b - 1].id@);
            }
        } else {
            assert(out[a] == prev[a - 1] && out[b] == prev[b - 1]);
        }
    }
    assert forall|kk: int| 0 <= kk < post.len() implies id_in(out, #[trigger] post[kk].id@) by {
        reveal(id_in);
        if kk == pre.len() {
            assert(out[pos].id@ == post[kk].id@);
        } else {
            assert(post[kk] == pre[kk]);
            assert(id_in(prev, pre[kk].id@));
            let i = choose|i: int| 0 <= i < prev.len() && #[trigger] prev[i].id@ == pre[kk].id@;
            if i < pos {
                assert(out[i] == prev[i]);
            } else {
                assert(out[i + 1] == prev[i]);
            }
        }
    }
    assert forall|i: int| 0 <= i < out.len() implies first_in(post, #[trigger] out[i]) by {
        if i == pos {
            assert forall|k2: int| 0 <= k2 < pre.len() implies #[trigger] post[k2].id@
                != post[pre.len() as int].id@ by {
                assert(post[k2] == pre[k2]);
                lemma_not_in_sorted(prev, m, pos, pre[k2].id@);
            }
            reveal(first_in);
            assert(post[pre.len() as int] == out[i]);
        } else {
            let pi = if i < pos {
                i
            } else {
                i - 1
            };
            assert(out[i] == prev[pi]);
            lemma_first_in_extend(pre, m, prev[pi]);
        }
    }
}

/// A model matches a search when the search is empty or its id, label,
/// provider or family contains it, ignoring case.
pub open spec fn model_matches(m: ModelChoice, search: Seq<char>) -> bool {
    let q = lower_text(search);
    search.len() == 0 || has_infix(lower_text(m.id@), q) || has_infix(lower_text(m.label@), q)
        || has_infix(lower_text(m.provider@), q) || (m.family matches Some(f) && has_infix(
        lower_text(f@),
        q,
    ))
}

/// Indices, in order, of the first `n` models that match `search`.
pub open spec fn model_indices(models: Seq<ModelChoice>, search: Seq<char>, n: int) -> Seq<usize>
    decreases n,
{
    if n <= 0 {
        Seq::empty()
    } else if model_matches(models[n - 1], search) {
        model_indices(models, search, n - 1).push((n - 1) as usize)
    } else {
        model_indices(models, search, n - 1)
    }
}

pub proof fn lemma_model_indices_bounds(models: Seq<ModelChoice>, search: Seq<char>, n: int)
    requires
        0 <= n,
    ensures
        model_indices(models, search, n).len() <= n,
        forall|k: int|
            0 <= k < model_indices(models, search, n).len() ==> #[trigger] model_indices(
                models,
                search,
                n,
            )[k] < n,
    decreases n,
{
    if n > 0 {
        lemma_model_indices_bounds(models, search, n - 1);
    }
}

/// A shown position whose model has the id `id`.
pub open spec fn shown_with_id(models: Seq<ModelChoice>, id: Seq<char>) -> spec_fn(usize) -> bool {
    |k: usize| k < models.len() && models[k as int].id@ == id
}

/// The scroll offset that keeps `selected` within `rows` visible rows.
pub open spec fn picker_scroll(selected: usize, scroll: u16, rows: u16) -> u16 {
    let sel = selected as u16;
    if rows == 0 {
        scroll
    } else if sel < scroll {
        sel
    } else if sel as int >= scroll + rows {
        if sel >= rows - 1 {
            (sel - (rows - 1)) as u16
        } else {
            0
        }
    } else {
        scroll
    }
}

/// Lists the models the server offers, filters them by a search, and picks one.
pub struct ModelPickerModal {
    pub current_model: Option<String>,
    pub agent_model: Option<String>,
    pub models: Vec<ModelChoice>,
    pub filtered_indices: Vec<usize>,
    pub search: String,
    pub selected: usize,
    pub scroll: u16,
    /// Rows available for the list, as last drawn.
    pub visible_rows: u16,
    pub error: Option<String>,
}

impl ModelPickerModal {
    /// The shown models are those that match the search, and the selection
    /// is on one of them (or 0 when none is shown).
    pub open spec fn wf(&self) -> bool {
        &&& self.filtered_indices@ == model_indices(
            self.models@,
            self.search@,
            self.models@.len() as int,
        )
        &&& (self.selected < self.filtered_indices@.len() || self.selected == 0)
    }

    /// An empty picker.
    pub fn new() -> (r: ModelPickerModal)
        ensures
            r.wf(),
            r.current_model is None,
            r.agent_model is None,
            r.models@.len() == 0,
            r.filtered_indices@.len() == 0,
            r.search@.len() == 0,
            r.selected == 0,
            r.scroll == 0,
            r.visible_rows == 10,
            r.error is None,
    {
        ModelPickerModal {
            current_model: None,
            agent_model: None,
            models: Vec::new(),
            filtered_indices: Vec::new(),
            search: String::new(),
            selected: 0,
            scroll: 0,
            visible_rows: 10,
            error: None,
        }
    }

    /// Records how many rows the list has on screen.
    pub fn set_visible_rows(&mut self, rows: u16)
        requires
            old(self).wf(),
        ensures
            final(self).wf(),
            *final(self) == (ModelPickerModal { visible_rows: rows, ..*old(self) }),
    {
        self.visible_rows = rows;
    }

    /// Takes the current model and the build (or first) agent's model from
    /// `config`, and clears any error.
    pub fn update_current_from_config(&mut self, config: &Config)
        requires
            old(self).wf(),
        ensures
            final(self).wf(),
            *final(self) == (ModelPickerModal {
                current_model: config.model,
                agent_model: agents_model(config.agent@),
                error: None,
                ..*old(self)
            }),
    {
        self.current_model = copy_opt_string(&config.model);
        let mut agent_model: Option<String> = match crate::chat::find_key(&config.agent, "build") {
            Some(i) => copy_opt_string(&config.agent[i].1.model),
            None => None,
        };
        proof {
            reveal_strlit("build");
        }
        if agent_model.is_none() {
            let mut best: Option<usize> = None;
            let mut j: usize = 0;
            while j < config.agent.len()
                invariant
                    j <= config.agent@.len(),
                    match best {
                        Some(b) => b < j && least_agent_with_model(config.agent@.take(j as int)) == Some(
                            b as int,
                        ),
                        None => least_agent_with_model(config.agent@.take(j as int)) is None,
                    },
                decreases config.agent@.len() - j,
            {
                let ghost prefix = config.agent@.take(j + 1);
                assert(prefix.drop_last() =~= config.agent@.take(j as int));
                assert(prefix[j as int] == config.agent@[j as int]);
                if config.agent[j].1.model.is_some() {
                    match best {
                        Some(b) => {
                            assert(prefix[b as int] == config.agent@[b as int]);
                            if chars_lt(
                                &chars_of(config.agent[j].0.as_str()),
                                &chars_of(config.agent[b].0.as_str()),
                            ) {
                                best = Some(j);
                            }
                        },
                        None => {
                            best = Some(j);
                        },
                    }
                }
                j += 1;
            }
            assert(config.agent@.take(config.agent@.len() as int) =~= config.agent@);
            agent_model = match best {
                Some(b) => copy_opt_string(&config.agent[b].1.model),
                None => None,
            };
        }
        self.agent_model = agent_model;
        self.error = None;
    }

    /// Shows a load error instead of the list.
    pub fn set_error(&mut self, error: String)
        requires
            old(self).wf(),
        ensures
            final(self).wf(),
            *final(self) == (ModelPickerModal { error: Some(error), ..*old(self) }),
    {
        self.error = Some(error);
    }

    /// The id of the selected model, if any is shown.
    pub fn selected_model(&self) -> (r: Option<&str>)
        ensures
            (self.selected < self.filtered_indices@.len() && self.filtered_indices@[self.selected as int]
                < self.models@.len()) ==> (r matches Some(m) && m@ == self.models@[self.filtered_indices@[self.selected as int] as int].id@),
            !(self.selected < self.filtered_indices@.len() && self.filtered_indices@[self.selected as int]
                < self.models@.len()) ==> r is None,
    {
        if self.selected < self.filtered_indices.len() {
            let idx = self.filtered_indices[self.selected];
            if idx < self.models.len() {
                return Some(self.models[idx].id.as_str());
            }
        }
        None
    }

    /// Position of the selection.
    pub fn selected_index(&self) -> (r: usize)
        ensures
            r == self.selected,
    {
        self.selected
    }

    /// How many models match the search.
    pub fn filtered_len(&self) -> (r: usize)
        ensures
            r == self.filtered_indices@.len(),
    {
        self.filtered_indices.len()
    }

    /// How many models the search shows.
    pub fn visible_model_count(&self) -> (r: usize)
        ensures
            r == self.filtered_indices@.len(),
    {
        self.filtered_len()
    }

    /// Whether the model `model` is among those shown.
    pub fn search_matches(&self, model: &str) -> (r: bool)
        requires
            self.wf(),
        ensures
            r == exists|k: int|
                0 <= k < self.filtered_indices@.len() && self.models@[#[trigger] self.filtered_indices@[k] as int].id@
                    == model@,
    {
        proof {
            lemma_model_indices_bounds(self.models@, self.search@, self.models@.len() as int);
        }
        let mut k: usize = 0;
        while k < self.filtered_indices.len()
            invariant
                k <= self.filtered_indices@.len(),
                forall|j: int|
                    0 <= j < self.filtered_indices@.len() ==> #[trigger] self.filtered_indices@[j]
                        < self.models@.len(),
                forall|j: int|
                    0 <= j < k ==> self.models@[#[trigger] self.filtered_indices@[j] as int].id@
                        != model@,
            decreases self.filtered_indices@.len() - k,
        {
            if str_eq(self.models[self.filtered_indices[k]].id.as_str(), model) {
                return true;
            }
            k += 1;
        }
        false
    }

    /// The search text.
    pub fn search(&self) -> (r: &str)
        ensures
            r@ == self.search@,
    {
        self.search.as_str()
    }

    /// Index of the first visible row.
    pub fn scroll_offset(&self) -> (r: u16)
        ensures
            r == self.scroll,
    {
        self.scroll
    }

    fn ensure_selected_visible(&mut self, rows: u16)
        ensures
            final(self).scroll == picker_scroll(old(self).selected, old(self).scroll, rows),
            final(self).selected == old(self).selected,
            final(self).models == old(self).models,
            final(self).filtered_indices == old(self).filtered_indices,
            final(self).search == old(self).search,
            final(self).visible_rows == old(self).visible_rows,
            final(self).current_model == old(self).current_model,
            final(self).agent_model == old(self).agent_model,
            final(self).error == old(self).error,
    {
        if rows == 0 {
            return ;
        }
        let sel = self.selected as u16;
        if sel < self.scroll {
            self.scroll = sel;
        } else if sel as u32 >= self.scroll as u32 + rows as u32 {
            self.scroll = sel.saturating_sub(rows - 1);
        }
    }

    /// Shows the models that match the search, keeping the selection in range.
    fn refilter(&mut self)
        ensures
            final(self).wf(),
            final(self).models == old(self).models,
            final(self).search == old(self).search,
            final(self).visible_rows == old(self).visible_rows,
            final(self).current_model == old(self).current_model,
            final(self).agent_model == old(self).agent_model,
            final(self).error == old(self).error,
            final(self).filtered_indices@.len() == 0 ==> final(self).selected == 0 && final(self).scroll == 0,
            final(self).filtered_indices@.len() > 0 ==> {
                let sel = if old(self).selected < final(self).filtered_indices@.len() {
                    old(self).selected
                } else {
                    (final(self).filtered_indices@.len() - 1) as usize
                };
                final(self).selected == sel && final(self).scroll == picker_scroll(
                    sel,
                    old(self).scroll,
                    old(self).visible_rows,
                )
            },
    {
        let query = to_lowercase(self.search.as_str());
        let mut out: Vec<usize> = Vec::new();
        let mut i: usize = 0;
        while i < self.models.len()
            invariant
                i <= self.models@.len(),
                query@ == lower_text(self.search@),
                self.search@.len() == 0 ==> query@.len() == 0,
                out@ == model_indices(self.models@, self.search@, i as int),
            decreases self.models@.len() - i,
        {
            let m = &self.models[i];
            let id = to_lowercase(m.id.as_str());
            let label = to_lowercase(m.label.as_str());
            let provider = to_lowercase(m.provider.as_str());
            let fam = match &m.family {
                Some(f) => {
                    let lf = to_lowercase(f.as_str());
                    str_contains(lf.as_str(), query.as_str())
                },
                None => false,
            };
            let empty = query.as_str().unicode_len() == 0;
            proof {
                if self.search@.len() == 0 {
                    assert(id@.subrange(0, 0 + query@.len() as int) =~= query@);
                    assert(has_infix(id@, query@));
                }
                if empty {
                    assert(id@.subrange(0, 0 + query@.len() as int) =~= query@);
                }
            }
            let hit = empty || str_contains(id.as_str(), query.as_str()) || str_contains(
                label.as_str(),
                query.as_str(),
            ) || str_contains(provider.as_str(), query.as_str()) || fam;
            proof {
                assert(hit == model_matches(self.models@[i as int], self.search@));
            }
            if hit {
                out.push(i);
            }
            i += 1;
        }
        self.filtered_indices = out;
        if self.filtered_indices.len() == 0 {
            self.selected = 0;
            self.scroll = 0;
        } else {
            let last = self.filtered_indices.len() - 1;
            if self.selected > last {
                self.selected = last;
            }
            let rows = self.visible_rows;
            self.ensure_selected_visible(rows);
        }
    }

    /// Replaces the search text, selecting the first match.
    fn set_search(&mut self, search: String)
        ensures
            final(self).search == search,
            Self::search_replaced(*old(self), *final(self), search@),
    {
        self.search = search;
        self.selected = 0;
        self.scroll = 0;
        self.refilter();
    }

    /// Edits the search with a typed character or Backspace; other keys are
    /// not search input.
    fn search_input(&mut self, scancode: Scancode) -> (r: bool)
        requires
            old(self).wf(),
        ensures
            final(self).wf(),
            final(self).models == old(self).models,
            final(self).visible_rows == old(self).visible_rows,
            final(self).current_model == old(self).current_model,
            final(self).error == old(self).error,
            match scancode {
                Scancode::Char(c) => r && Self::search_replaced(*old(self), *final(self), old(self).search@.push(c)),
                Scancode::Backspace => r && Self::search_replaced(
                    *old(self),
                    *final(self),
                    if old(self).search@.len() > 0 {
                        old(self).search@.drop_last()
                    } else {
                        old(self).search@
                    },
                ),
                _ => !r && *final(self) == *old(self),
            },
    {
        match scancode {
            Scancode::Char(c) => {
                let mut s = self.search.clone();
                push_char(&mut s, c);
                self.set_search(s);
                true
            },
            Scancode::Backspace => {
                let mut s = self.search.clone();
                pop_char(&mut s);
                self.set_search(s);
                true
            },
            _ => false,
        }
    }

    /// Moves the selection by `delta` within the shown models.
    fn move_selected(&mut self, delta: isize)
        requires
            old(self).wf(),
        ensures
            final(self).wf(),
            Self::selection_moved(*old(self), *final(self), delta as int),
    {
        if self.filtered_indices.len() == 0 {
            self.selected = 0;
            self.scroll = 0;
            return ;
        }
        let last = self.filtered_indices.len() - 1;
        if delta < 0 {
            let m: usize = if delta == isize::MIN {
                (isize::MAX as usize) + 1
            } else {
                (-delta) as usize
            };
            self.selected = self.selected.saturating_sub(m);
        } else {
            let m = delta as usize;
            self.selected =
            if self.selected <= last && m <= last - self.selected {
                self.selected + m
            } else {
                last
            };
        }
        let rows = self.visible_rows;
        self.ensure_selected_visible(rows);
    }

    /// Rows moved by PageUp and PageDown.
    fn page_amount(&self) -> (r: usize)
        ensures
            r == if self.visible_rows >= 1 {
                self.visible_rows as usize
            } else {
                1
            },
    {
        if self.visible_rows >= 1 {
            self.visible_rows as usize
        } else {
            1
        }
    }

    /// Replaces the list: one choice per id (the first given), sorted by id;
    /// the current model is selected when it is shown.
    fn set_models(&mut self, models: Vec<ModelChoice>)
        ensures
            final(self).wf(),
            dedup_sorted(models@, final(self).models@),
            final(self).search == old(self).search,
            final(self).current_model == old(self).current_model,
            final(self).agent_model == old(self).agent_model,
            final(self).visible_rows == old(self).visible_rows,
            final(self).error == old(self).error,
            final(self).selected == Self::start_selection(*final(self)),
            final(self).scroll == Self::relisted_scroll(*old(self), *final(self)),
    {
        let ghost input = models@;
        let n = models.len();
        let mut rest = models;
        let mut out: Vec<ModelChoice> = Vec::new();
        let mut k: usize = 0;
        while rest.len() > 0
            invariant
                k <= input.len(),
                k + rest@.len() == input.len(),
                input.len() == n,
                rest@ == input.skip(k as int),
                dedup_sorted(input.take(k as int), out@),
            decreases rest@.len(),
        {
            let m = rest.remove(0);
            proof {
                assert(m == input[k as int]);
            }
            let mc = chars_of(m.id.as_str());
            let mut pos: usize = 0;
            while pos < out.len() && chars_lt(&chars_of(out[pos].id.as_str()), &mc)
                invariant
                    pos <= out@.len(),
                    mc@ == m.id@,
                    forall|j: int| 0 <= j < pos ==> str_lt(#[trigger] out@[j].id@, m.id@),
                decreases out@.len() - pos,
            {
                pos += 1;
            }
            let dup = pos < out.len() && str_eq(out[pos].id.as_str(), m.id.as_str());
            let ghost prev = out@;
            let ghost pre = input.take(k as int);
            let ghost post = input.take(k + 1);
            proof {
                assert(post == pre.push(m));
                if pos < out@.len() {
                    crate::text::lemma_str_lt_total(out@[pos as int].id@, m.id@);
                }
            }
            if dup {
                proof {
                    lemma_dedup_step_dup(pre, prev, m, pos as int);
                }
            } else {
                out.insert(pos, m.duplicate());
                proof {
                    lemma_dedup_step_insert(pre, prev, m, pos as int);
                }
            }
            k += 1;
        }
        proof {
            assert(input.take(k as int) =~= input);
        }
        self.models = out;
        let ghost models_now = self.models@;
        self.refilter();
        let mut sel: usize = 0;
        proof {
            lemma_model_indices_bounds(self.models@, self.search@, self.models@.len() as int);
        }
        if let Some(current) = &self.current_model {
            let ghost f = shown_with_id(self.models@, current@);
            let mut j: usize = 0;
            while j < self.filtered_indices.len() && !str_eq(
                self.models[self.filtered_indices[j]].id.as_str(),
                current.as_str(),
            )
                invariant
                    j <= self.filtered_indices@.len(),
                    self.wf(),
                    f == shown_with_id(self.models@, current@),
                    forall|k: int|
                        0 <= k < self.filtered_indices@.len() ==> #[trigger] self.filtered_indices@[k]
                            < self.models@.len(),
                    forall|k: int| 0 <= k < j ==> !f(#[trigger] self.filtered_indices@[k]),
                decreases self.filtered_indices@.len() - j,
            {
                j += 1;
            }
            proof {
                lemma_first_where(self.filtered_indices@, f, j as int);
            }
            if j < self.filtered_indices.len() {
                sel = j;
            }
        }
        self.selected = sel;
        let rows = self.visible_rows;
        self.ensure_selected_visible(rows);
    }

    fn config_choices(config: &Config, out: &mut Vec<ModelChoice>)
        ensures
            final(out)@.len() >= old(out)@.len(),
            final(out)@.take(old(out)@.len() as int) == old(out)@,
            choices_view(final(out)@) == choices_view(old(out)@) + config_views(config.provider@),
    {
        let mut p: usize = 0;
        assert(config.provider@.take(0) =~= Seq::<(String, ProviderConfig)>::empty());
        assert(choices_view(out@) =~= choices_view(old(out)@) + config_views(config.provider@.take(0)));
        while p < config.provider.len()
            invariant
                p <= config.provider@.len(),
                out@.len() >= old(out)@.len(),
                out@.take(old(out)@.len() as int) == old(out)@,
                choices_view(out@) == choices_view(old(out)@) + config_views(config.provider@.take(p as int)),
            decreases config.provider@.len() - p,
        {
            let provider_id = &config.provider[p].0;
            let provider = &config.provider[p].1;
            let mut m: usize = 0;
            let ghost base = choices_view(out@);
            assert(provider.models@.take(0) =~= Seq::<(String, ModelConfig)>::empty());
            assert(choices_view(out@) =~= base + provider_views(provider_id@, provider.models@.take(0)));
            while m < provider.models.len()
                invariant
                    m <= provider.models@.len(),
                    out@.len() >= old(out)@.len(),
                    out@.take(old(out)@.len() as int) == old(out)@,
                    choices_view(out@) == base + provider_views(provider_id@, provider.models@.take(m as int)),
                decreases provider.models@.len() - m,
            {
                let model_id = &provider.models[m].0;
                let model = &provider.models[m].1;
                let full_id = concat3(provider_id.as_str(), "/", model_id.as_str());
                let label = match &model.name {
                    Some(n) => n.clone(),
                    None => match &model.id {
                        Some(i) => i.clone(),
                        None => model_id.clone(),
                    },
                };
                let ghost before = out@;
                out.push(
                    ModelChoice {
                        id: full_id,
                        label,
                        provider: provider_id.clone(),
                        family: copy_opt_string(&model.family),
                    },
                );
                assert(out@.take(old(out)@.len() as int) =~= before.take(old(out)@.len() as int));
                proof {
                    reveal_strlit("/");
                    let ms = provider.models@;
                    assert(ms.take(m + 1) =~= ms.take(m as int).push(ms[m as int]));
                    assert(choice_view(out@.last()) == config_model_view(provider_id@, ms[m as int]));
                    assert(choices_view(out@) =~= choices_view(before).push(choice_view(out@.last())));
                    assert(provider_views(provider_id@, ms.take(m + 1)) =~= provider_views(provider_id@, ms.take(m as int)).push(
                        config_model_view(provider_id@, ms[m as int]),
                    ));
                }
                m += 1;
            }
            proof {
                let ps = config.provider@;
                assert(provider.models@.take(provider.models@.len() as int) =~= provider.models@);
                assert(ps.take(p + 1).drop_last() =~= ps.take(p as int));
                assert(ps.take(p + 1).last() == ps[p as int]);
                assert(choices_view(out@) =~= choices_view(old(out)@) + config_views(ps.take(p + 1)));
            }
            p += 1;
        }
        assert(config.provider@.take(config.provider@.len() as int) =~= config.provider@);
    }

    /// Lists the models that the server configuration declares.
    pub fn set_config(&mut self, config: Config)
        requires
            old(self).wf(),
        ensures
            final(self).wf(),
            final(self).current_model == config.model,
            final(self).error is None,
            sorted_by_id(final(self).models@),
            exists|input: Seq<ModelChoice>|
                choices_view(input) == config_views(config.provider@) && dedup_sorted(
                    input,
                    final(self).models@,
                ),
            final(self).selected == Self::start_selection(*final(self)),
            final(self).scroll == Self::relisted_scroll(*old(self), *final(self)),
            final(self).visible_rows == old(self).visible_rows,
            lists_models(*final(self), config, None),
            final(self).search == old(self).search,
    {
        self.update_current_from_config(&config);
        let mut choices: Vec<ModelChoice> = Vec::new();
        assert(choices_view(choices@) =~= Seq::empty());
        Self::config_choices(&config, &mut choices);
        assert(choices_view(choices@) =~= config_views(config.provider@));
        let ghost input = choices@;
        self.set_models(choices);
        assert(dedup_sorted(input, self.models@));
    }

    /// Lists the catalog models, then the models the configuration declares,
    /// one per id.
    pub fn set_models_from_config(&mut self, config: Config, models: &[ModelSummary])
        requires
            old(self).wf(),
        ensures
            final(self).wf(),
            final(self).current_model == config.model,
            final(self).error is None,
            sorted_by_id(final(self).models@),
            forall|i: int|
                #![trigger models@[i]]
                0 <= i < models@.len() ==> exists|j: int|
                    0 <= j < final(self).models@.len() && #[trigger] final(self).models@[j].id@
                        == models@[i].provider_id@ + "/"@ + models@[i].id@,
            exists|input: Seq<ModelChoice>|
                choices_view(input) == models@.map_values(|m: ModelSummary| catalog_view(m))
                    + config_views(config.provider@) && dedup_sorted(input, final(self).models@),
            final(self).selected == Self::start_selection(*final(self)),
            final(self).scroll == Self::relisted_scroll(*old(self), *final(self)),
            final(self).visible_rows == old(self).visible_rows,
            lists_models(*final(self), config, Some(models@)),
            final(self).search == old(self).search,
    {
        self.update_current_from_config(&config);
        let mut choices: Vec<ModelChoice> = Vec::new();
        let mut i: usize = 0;
        let ghost cat = |m: ModelSummary| catalog_view(m);
        while i < models.len()
            invariant
                i <= models@.len(),
                choices@.len() == i,
                forall|k: int|
                    0 <= k < i ==> #[trigger] choices@[k].id@ == models@[k].provider_id@ + "/"@
                        + models@[k].id@,
                choices_view(choices@) == models@.take(i as int).map_values(cat),
                cat == (|m: ModelSummary| catalog_view(m)),
            decreases models@.len() - i,
        {
            let model = &models[i];
            let label = match &model.name {
                Some(n) => n.clone(),
                None => model.id.clone(),
            };
            choices.push(
                ModelChoice {
                    id: concat3(model.provider_id.as_str(), "/", model.id.as_str()),
                    label,
                    provider: model.provider_id.clone(),
                    family: copy_opt_string(&model.family),
                },
            );
            proof {
                reveal_strlit("/");
                assert(models@.take(i + 1).map_values(cat) =~= models@.take(i as int).map_values(cat).push(
                    catalog_view(models@[i as int]),
                ));
                assert(choices_view(choices@) =~= models@.take(i + 1).map_values(cat));
            }
            i += 1;
        }
        assert(models@.take(models@.len() as int) =~= models@);
        let ghost catalog = choices@;
        Self::config_choices(&config, &mut choices);
        proof {
            assert forall|k: int| 0 <= k < models@.len() implies #[trigger] choices@[k].id@
                == models@[k].provider_id@ + "/"@ + models@[k].id@ by {
                assert(choices@.take(catalog.len() as int)[k] == catalog[k]);
            }
        }
        assert(choices_view(choices@) =~= models@.map_values(cat) + config_views(config.provider@));
        let ghost input = choices@;
        self.set_models(choices);
        assert(dedup_sorted(input, self.models@));
        proof {
            assert forall|ii: int| #![trigger models@[ii]] 0 <= ii < models@.len() implies exists|j: int|
                0 <= j < self.models@.len() && #[trigger] self.models@[j].id@
                    == models@[ii].provider_id@ + "/"@ + models@[ii].id@ by {
                assert(input[ii].id@ == models@[ii].provider_id@ + "/"@ + models@[ii].id@);
                assert(id_in(self.models@, input[ii].id@));
                reveal(id_in);
            }
        }
    }

    /// A picker just made for the configuration `config`, listing `catalog`:
    /// nothing searched, the selection on the configured model where it is
    /// shown and in view.
    pub open spec fn newly_listed(m: ModelPickerModal, config: Config, catalog: Option<Seq<ModelSummary>>) -> bool {
        &&& m.wf()
        &&& m.current_model == config.model
        &&& m.error is None
        &&& m.search@.len() == 0
        &&& m.visible_rows == 10
        &&& lists_models(m, config, catalog)
        &&& m.selected == Self::start_selection(m)
        &&& m.scroll == picker_scroll(m.selected, 0, m.visible_rows)
    }

    /// The scroll offset after a new list is shown: the old selection,
    /// clamped to the last shown row, is brought into view, then the new one.
    pub open spec fn relisted_scroll(s: ModelPickerModal, t: ModelPickerModal) -> u16 {
        let n = t.filtered_indices@.len();
        let mid: u16 = if n == 0 {
            0
        } else {
            picker_scroll(
                if s.selected < n {
                    s.selected
                } else {
                    (n - 1) as usize
                },
                s.scroll,
                s.visible_rows,
            )
        };
        picker_scroll(t.selected, mid, t.visible_rows)
    }

    /// Where the selection starts on a new list: on the configured model
    /// where it is shown, else on the first row.
    pub open spec fn start_selection(m: ModelPickerModal) -> usize {
        match m.current_model {
            Some(c) => match first_where(m.filtered_indices@, shown_with_id(m.models@, c@)) {
                Some(j) => j as usize,
                None => 0,
            },
            None => 0,
        }
    }

    /// How far PageUp and PageDown move: the rows shown, at least one.
    pub open spec fn page_spec(m: ModelPickerModal) -> int {
        if m.visible_rows >= 1 {
            m.visible_rows as int
        } else {
            1
        }
    }

    /// `t` is `s` with the selection moved by `delta` within the shown models
    /// and scrolled to stay visible.
    pub open spec fn selection_moved(s: ModelPickerModal, t: ModelPickerModal, delta: int) -> bool {
        &&& t.models == s.models
        &&& t.search == s.search
        &&& t.filtered_indices == s.filtered_indices
        &&& t.visible_rows == s.visible_rows
        &&& t.current_model == s.current_model
        &&& t.agent_model == s.agent_model
        &&& t.error == s.error
        &&& (s.filtered_indices@.len() == 0 ==> t.selected == 0 && t.scroll == 0)
        &&& (s.filtered_indices@.len() > 0 ==> {
            let last = s.filtered_indices@.len() - 1;
            let sel = if s.selected + delta < 0 {
                0
            } else if s.selected + delta <= last {
                s.selected + delta
            } else {
                last
            };
            t.selected == sel && t.scroll == picker_scroll(sel as usize, s.scroll, s.visible_rows)
        })
    }

    /// `t` is `s` with the search replaced by `search`: the matching models
    /// are shown from the top, with the first selected.
    pub open spec fn search_replaced(s: ModelPickerModal, t: ModelPickerModal, search: Seq<char>) -> bool {
        &&& t.wf()
        &&& t.search@ == search
        &&& t.selected == 0
        &&& t.scroll == 0
        &&& t.models == s.models
        &&& t.visible_rows == s.visible_rows
        &&& t.current_model == s.current_model
        &&& t.agent_model == s.agent_model
        &&& t.error == s.error
    }

    /// The model shown as current: the configured one, else the agent's.
    pub open spec fn current_id(&self) -> Option<Seq<char>> {
        match self.current_model {
            Some(c) => Some(c@),
            None => match self.agent_model {
                Some(a) => Some(a@),
                None => None,
            },
        }
    }

    /// The line describing the current model: the label and provider of the
    /// first listed choice with its id, else the id itself, or that none is
    /// configured.
    pub open spec fn current_display_spec(m: ModelPickerModal) -> Seq<char> {
        match m.current_id() {
            None => "No model configured"@,
            Some(c) => match first_where(m.models@, choice_with_id(c)) {
                Some(j) => m.models@[j].label@ + "  ["@ + m.models@[j].provider@ + "]"@,
                None => c,
            },
        }
    }

    /// The line describing the current model (see `current_display_spec`).
    pub fn current_display(&self) -> (r: String)
        ensures
            r@ == Self::current_display_spec(*self),
    {
        if self.current_model.is_none() && self.agent_model.is_none() {
            return "No model configured".to_owned();
        }
        let current: &String = match &self.current_model {
            Some(c) => c,
            None => self.agent_model.as_ref().unwrap(),
        };
        let ghost f = choice_with_id(current@);
        let mut i: usize = 0;
        while i < self.models.len()
            invariant
                i <= self.models@.len(),
                !(self.current_model is None && self.agent_model is None),
                self.current_id() == Some(current@),
                f == choice_with_id(current@),
                forall|k: int| 0 <= k < i ==> !f(#[trigger] self.models@[k]),
            decreases self.models@.len() - i,
        {
            if str_eq(self.models[i].id.as_str(), current.as_str()) {
                proof {
                    lemma_first_where(self.models@, f, i as int);
                }
                let head = concat3(self.models[i].label.as_str(), "  [", self.models[i].provider.as_str());
                return concat(head.as_str(), "]");
            }
            i += 1;
        }
        proof {
            lemma_first_where(self.models@, f, i as int);
        }
        current.clone()
    }

    /// What an event does to the dialog `s`, giving `t` and the action `r`
    /// (see `handle_event`).
    pub open spec fn event_handled(s: ModelPickerModal, t: ModelPickerModal, event: Event, r: Action) -> bool {
        &&& (t.models == s.models)
        &&& (match event {
            Event::Key(ke) => match ke.scancode {
                Scancode::Escape => r == Action::CloseModal && t == s,
                Scancode::Enter => t == s && (if s.selected
                    < s.filtered_indices@.len() && s.filtered_indices@[s.selected as int]
                    < s.models@.len() {
                    (r matches Action::SelectModel(m) && m@ == s.models@[s.filtered_indices@[s.selected as int] as int].id@)
                } else {
                    r == Action::NoAction
                }),
                Scancode::Up => r == Action::NoAction && Self::selection_moved(s, t, -1),
                Scancode::Down => r == Action::NoAction && Self::selection_moved(s, t, 1),
                Scancode::PageUp => r == Action::NoAction && Self::selection_moved(s, t, -Self::page_spec(s)),
                Scancode::PageDown => r == Action::NoAction && Self::selection_moved(s, t, Self::page_spec(s)),
                Scancode::Char(c) => r == Action::NoAction && Self::search_replaced(s, t, s.search@.push(c)),
                Scancode::Backspace => r == Action::NoAction && Self::search_replaced(
                    s,
                    t,
                    if s.search@.len() > 0 {
                        s.search@.drop_last()
                    } else {
                        s.search@
                    },
                ),
                _ => r == Action::NoAction && t == s,
            },
            _ => r == Action::NoAction && t == s,
        })
    }

    /// Handles a key: Escape closes; arrows and page keys move; Enter picks
    /// the selected model; typing and Backspace edit the search.
    pub fn handle_event(&mut self, event: Event) -> (r: Action)
        requires
            old(self).wf(),
        ensures
            final(self).wf(),
            Self::event_handled(*old(self), *final(self), event, r),
    {
        match event {
            Event::Key(ke) => match ke.scancode {
                Scancode::Escape => Action::CloseModal,
                Scancode::Up => {
                    self.move_selected(-1);
                    Action::NoAction
                },
                Scancode::Down => {
                    self.move_selected(1);
                    Action::NoAction
                },
                Scancode::PageUp => {
                    let page = self.page_amount();
                    self.move_selected(-(page as isize));
                    Action::NoAction
                },
                Scancode::PageDown => {
                    let page = self.page_amount();
                    self.move_selected(page as isize);
                    Action::NoAction
                },
                Scancode::Enter => match self.selected_model() {
                    Some(model) => Action::SelectModel(model.to_owned()),
                    None => Action::NoAction,
                },
                sc => {
                    self.search_input(sc);
                    Action::NoAction
                },
            },
            _ => Action::NoAction,
        }
    }

    /// The dialog's title.
    pub fn title(&self) -> (r: &'static str)
        ensures
            r@ == "Model Picker"@,
    {
        "Model Picker"
    }
}

/// The marker before a model: `*` for the configured model, else a space.
pub open spec fn model_marker(m: ModelPickerModal, c: ModelChoice) -> Seq<char> {
    if m.current_model matches Some(cur) && cur@ == c.id@ {
        "*"@
    } else {
        " "@
    }
}

/// The row of a model: its marker, label and provider.
pub open spec fn model_row(m: ModelPickerModal, c: ModelChoice) -> Seq<char> {
    model_marker(m, c) + " "@ + c.label@ + "  ["@ + c.provider@ + "]"@
}

/// Rows the list shows: those on screen, at least one.
pub open spec fn picker_rows(m: ModelPickerModal) -> int {
    if m.visible_rows >= 1 {
        m.visible_rows as int
    } else {
        1
    }
}

/// How many rows the list draws from its scroll offset.
pub open spec fn picker_row_count(m: ModelPickerModal) -> int {
    let n = m.filtered_indices@.len() as int;
    let sc = m.scroll as int;
    if sc >= n {
        0
    } else if n - sc < picker_rows(m) {
        n - sc
    } else {
        picker_rows(m)
    }
}

/// The width of a row: one column less when a scrollbar is drawn.
pub open spec fn picker_row_width(m: ModelPickerModal, width: int) -> int {
    if m.filtered_indices@.len() > picker_rows(m) && width > 1 {
        width - 1
    } else {
        width
    }
}

/// The `k`-th row the list draws: the shown model at the scroll offset plus
/// `k`, cut to the row width, highlighted when selected.
pub open spec fn picker_line(m: ModelPickerModal, width: int) -> spec_fn(int) -> (Seq<char>, LineStyle) {
    |k: int|
        (
            fit_spec(
                model_row(m, m.models@[m.filtered_indices@[m.scroll as int + k] as int]),
                picker_row_width(m, width) as nat,
            ),
            if m.scroll as int + k == m.selected as int {
                LineStyle::Selection
            } else {
                LineStyle::Text
            },
        )
}

/// The lines of the model picker `width` columns wide: the error alone when
/// there is one; otherwise the current model, the search, a blank line, and
/// the shown models from the scroll offset (the selected one highlighted), or
/// a note that there are none.
pub open spec fn model_picker_lines_spec(m: ModelPickerModal, width: int) -> Seq<(Seq<char>, LineStyle)> {
    match m.error {
        Some(e) => seq![(e@, LineStyle::TextError)],
        None => {
            let head = seq![
                (fit_spec("Current: "@ + ModelPickerModal::current_display_spec(m), width as nat), LineStyle::TextDim),
                (fit_spec("Search: "@ + m.search@, width as nat), LineStyle::Text),
                (Seq::<char>::empty(), LineStyle::Text),
            ];
            if m.models@.len() == 0 {
                head.push(("No models found in server config"@, LineStyle::TextDim))
            } else if m.filtered_indices@.len() == 0 {
                head.push(("No models match search"@, LineStyle::TextDim))
            } else {
                head + Seq::new(picker_row_count(m) as nat, picker_line(m, width))
            }
        },
    }
}

/// The lines the model picker draws, `width` columns wide.
pub fn model_picker_lines(m: &ModelPickerModal, width: usize) -> (r: Vec<StyledLine>)
    requires
        m.wf(),
    ensures
        lines_view(r@) == model_picker_lines_spec(*m, width as int),
{
    let mut lines: Vec<StyledLine> = Vec::new();
    assert(lines_view(lines@) =~= Seq::<(Seq<char>, LineStyle)>::empty());
    match &m.error {
        Some(e) => {
            push_line(&mut lines, e.clone(), LineStyle::TextError);
            assert(lines_view(lines@) =~= model_picker_lines_spec(*m, width as int));
            return lines;
        },
        None => {},
    }
    let cur = concat("Current: ", m.current_display().as_str());
    push_line(&mut lines, fit_with_ellipsis(cur, width), LineStyle::TextDim);
    let se = concat("Search: ", m.search.as_str());
    push_line(&mut lines, fit_with_ellipsis(se, width), LineStyle::Text);
    push_text(&mut lines, "", LineStyle::Text);
    proof {
        reveal_strlit("");
        assert(""@ =~= Seq::<char>::empty());
    }
    let ghost head = lines_view(lines@);
    if m.models.len() == 0 {
        push_text(&mut lines, "No models found in server config", LineStyle::TextDim);
        assert(lines_view(lines@) =~= model_picker_lines_spec(*m, width as int));
        return lines;
    }
    if m.filtered_indices.len() == 0 {
        push_text(&mut lines, "No models match search", LineStyle::TextDim);
        assert(lines_view(lines@) =~= model_picker_lines_spec(*m, width as int));
        return lines;
    }
    proof {
        lemma_model_indices_bounds(m.models@, m.search@, m.models@.len() as int);
    }
    let rows: usize = if m.visible_rows >= 1 {
        m.visible_rows as usize
    } else {
        1
    };
    let row_width: usize = if m.filtered_indices.len() > rows && width > 1 {
        width - 1
    } else {
        width
    };
    let n = m.filtered_indices.len();
    let sc = m.scroll as usize;
    let count: usize = if sc >= n {
        0
    } else if n - sc < rows {
        n - sc
    } else {
        rows
    };
    let ghost f = picker_line(*m, width as int);
    let mut k: usize = 0;
    assert(lines_view(lines@) =~= head + Seq::new(0, f));
    while k < count
        invariant
            k <= count,
            count == picker_row_count(*m),
            row_width == picker_row_width(*m, width as int),
            sc == m.scroll as int,
            n == m.filtered_indices@.len(),
            count == 0 || sc + count <= n,
            f == picker_line(*m, width as int),
            m.wf(),
            forall|j: int|
                0 <= j < m.filtered_indices@.len() ==> #[trigger] m.filtered_indices@[j]
                    < m.models@.len(),
            lines_view(lines@) == head + Seq::new(k as nat, f),
        decreases count - k,
    {
        let pos = sc + k;
        let idx = m.filtered_indices[pos];
        let c = &m.models[idx];
        let marker: &str = match &m.current_model {
            Some(cur) => if str_eq(cur.as_str(), c.id.as_str()) {
                "*"
            } else {
                " "
            },
            None => " ",
        };
        let mut t = marker.to_owned();
        t.append(" ");
        t.append(c.label.as_str());
        t.append("  [");
        t.append(c.provider.as_str());
        t.append("]");
        let style = if pos == m.selected {
            LineStyle::Selection
        } else {
            LineStyle::Text
        };
        let ghost before = lines_view(lines@);
        assert(t@ == model_row(*m, m.models@[m.filtered_indices@[pos as int] as int]));
        let fitted = fit_with_ellipsis(t, row_width);
        assert(f(k as int) == (fitted@, style));
        push_line(&mut lines, fitted, style);
        assert(Seq::new((k + 1) as nat, f) =~= Seq::new(k as nat, f).push(f(k as int)));
        assert(lines_view(lines@) =~= head + Seq::new((k + 1) as nat, f));
        k += 1;
    }
    assert(lines_view(lines@) =~= model_picker_lines_spec(*m, width as int));
    lines
}

/// The row of a session: its title and short id.
pub open spec fn session_row(s: Session) -> Seq<char> {
    s.title@ + "  ["@ + short_id_spec(s.id@) + "]"@
}

/// The `k`-th row the session list draws from `scroll`, `w` columns wide:
/// marked and highlighted when selected.
pub open spec fn session_line(m: SessionListModal, scroll: int, w: int) -> spec_fn(int) -> (Seq<char>, LineStyle) {
    |k: int|
        (
            (if scroll + k == m.selected as int {
                "> "@
            } else {
                "  "@
            }) + fit_spec(session_row(m.sessions@[scroll + k]), w as nat),
            if scroll + k == m.selected as int {
                LineStyle::Selection
            } else {
                LineStyle::Text
            },
        )
}

/// The lines of the session list in `width` columns and `height` rows:
/// a note while loading, when empty or on error; otherwise the delete
/// confirmation when one is pending, then the sessions from the scroll offset
/// (clamped to the last screenful), the selected one marked and highlighted.
pub open spec fn session_list_lines_spec(m: SessionListModal, width: int, height: int) -> Seq<(Seq<char>, LineStyle)> {
    match m.state {
        SessionListState::Loading => seq![("Loading sessions..."@, LineStyle::TextDim)],
        SessionListState::Empty => seq![("No sessions yet"@, LineStyle::TextDim)],
        SessionListState::Error(e) => seq![(e@, LineStyle::TextError)],
        SessionListState::Loaded => {
            let confirm = m.confirm_delete == Some(m.selected);
            let head = if confirm {
                seq![("Press Delete again to confirm, Escape to cancel"@, LineStyle::TextError)]
            } else {
                Seq::empty()
            };
            let h = if confirm {
                if height >= 1 {
                    height - 1
                } else {
                    0
                }
            } else {
                height
            };
            let n = m.sessions@.len() as int;
            let max_scroll = if n > h {
                n - h
            } else {
                0
            };
            let scroll = if (m.scroll as int) < max_scroll {
                m.scroll as int
            } else {
                max_scroll
            };
            let w = if n > h && width > 1 {
                width - 1
            } else {
                width
            };
            let count = if scroll >= n {
                0
            } else if n - scroll < h {
                n - scroll
            } else {
                h
            };
            head + Seq::new(count as nat, session_line(m, scroll, w))
        },
    }
}

/// The lines the session list draws in `width` columns and `height` rows.
pub fn session_list_lines(m: &SessionListModal, width: usize, height: usize) -> (r: Vec<StyledLine>)
    ensures
        lines_view(r@) == session_list_lines_spec(*m, width as int, height as int),
{
    let mut lines: Vec<StyledLine> = Vec::new();
    assert(lines_view(lines@) =~= Seq::<(Seq<char>, LineStyle)>::empty());
    match &m.state {
        SessionListState::Loading => {
            push_text(&mut lines, "Loading sessions...", LineStyle::TextDim);
            assert(lines_view(lines@) =~= session_list_lines_spec(*m, width as int, height as int));
            return lines;
        },
        SessionListState::Empty => {
            push_text(&mut lines, "No sessions yet", LineStyle::TextDim);
            assert(lines_view(lines@) =~= session_list_lines_spec(*m, width as int, height as int));
            return lines;
        },
        SessionListState::Error(e) => {
            push_line(&mut lines, e.clone(), LineStyle::TextError);
            assert(lines_view(lines@) =~= session_list_lines_spec(*m, width as int, height as int));
            return lines;
        },
        SessionListState::Loaded => {},
    }
    let confirm = m.confirm_delete == Some(m.selected);
    let mut h: usize = height;
    if confirm {
        push_text(&mut lines, "Press Delete again to confirm, Escape to cancel", LineStyle::TextError);
        h = if height >= 1 {
            height - 1
        } else {
            0
        };
    }
    let ghost head = lines_view(lines@);
    let n = m.sessions.len();
    let max_scroll: usize = if n > h {
        n - h
    } else {
        0
    };
    let scroll: usize = if (m.scroll as usize) < max_scroll {
        m.scroll as usize
    } else {
        max_scroll
    };
    let w: usize = if n > h && width > 1 {
        width - 1
    } else {
        width
    };
    let count: usize = if scroll >= n {
        0
    } else if n - scroll < h {
        n - scroll
    } else {
        h
    };
    let ghost f = session_line(*m, scroll as int, w as int);
    assert(lines_view(lines@) =~= head + Seq::new(0, f));
    let mut k: usize = 0;
    while k < count
        invariant
            k <= count,
            count == 0 || scroll + count <= n,
            n == m.sessions@.len(),
            f == session_line(*m, scroll as int, w as int),
            lines_view(lines@) == head + Seq::new(k as nat, f),
        decreases count - k,
    {
        let i = scroll + k;
        let s = &m.sessions[i];
        let mut row = s.title.clone();
        row.append("  [");
        row.append(short_id(s.id.as_str()).as_str());
        row.append("]");
        let fitted = fit_with_ellipsis(row, w);
        let mut t = if i == m.selected {
            "> ".to_owned()
        } else {
            "  ".to_owned()
        };
        t.append(fitted.as_str());
        let style = if i == m.selected {
            LineStyle::Selection
        } else {
            LineStyle::Text
        };
        assert(f(k as int) == (t@, style));
        push_line(&mut lines, t, style);
        assert(Seq::new((k + 1) as nat, f) =~= Seq::new(k as nat, f).push(f(k as int)));
        assert(lines_view(lines@) =~= head + Seq::new((k + 1) as nat, f));
        k += 1;
    }
    assert(lines_view(lines@) =~= session_list_lines_spec(*m, width as int, height as int));
    lines
}

} // verus!
