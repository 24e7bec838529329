//! The command palette: a searchable list of commands.
use vstd::prelude::*;

use crate::event::{Event, Scancode};
use crate::screen::{same_action, Action, ModalId};
use crate::text::{has_infix, lower_text, pop_char, push_char, str_contains, to_lowercase};

verus! {

/// A single command entry in the palette.
#[derive(Debug, Clone)]
pub struct PaletteCommand {
    pub name: &'static str,
    pub slash_command: &'static str,
    pub keybinding: &'static str,
    pub action: Action,
}

/// The default command list: name, slash command and keybinding of each entry.
pub open spec fn default_command_table() -> Seq<(Seq<char>, Seq<char>, Seq<char>)> {
    seq![
        ("Help"@, "/help"@, "Ctrl+X H"@),
        ("New Session"@, "/new"@, "Ctrl+X N"@),
        ("Sessions"@, "/sessions"@, "Ctrl+X L"@),
        ("Settings"@, "/settings"@, "Ctrl+X M"@),
        ("Todos"@, "/todos"@, ""@),
        ("Diagnostics"@, "/diagnostics"@, ""@),
        ("Terminal"@, "/pty"@, "Ctrl+X T"@),
        ("Exit"@, "/exit"@, "Ctrl+X Q"@),
        ("Toggle Details"@, "/details"@, ""@),
        ("Cycle Agent"@, ""@, "Tab"@),
    ]
}

/// The action of each default command, in the same order.
pub open spec fn default_command_action(i: int, a: Action) -> bool {
    if i == 0 {
        a == Action::OpenModal(ModalId::Help)
    } else if i == 1 {
        a == Action::NewSession
    } else if i == 2 {
        a == Action::OpenModal(ModalId::SessionList)
    } else if i == 3 {
        a == Action::OpenSettings
    } else if i == 4 || i == 5 {
        a == Action::ToggleSidePanel
    } else if i == 6 {
        a matches Action::OpenTerminal(s) && s@.len() == 0
    } else if i == 7 {
        a == Action::Quit
    } else if i == 8 {
        a == Action::ToggleDetails
    } else {
        a == Action::CycleAgent
    }
}

/// The palette's commands: help, sessions, settings, panels, terminal, exit,
/// details and agent cycling.
pub fn default_commands() -> (r: Vec<PaletteCommand>)
    ensures
        r@.len() == default_command_table().len(),
        forall|i: int|
            0 <= i < r@.len() ==> (#[trigger] r@[i].name@, r@[i].slash_command@, r@[i].keybinding@)
                == default_command_table()[i] && default_command_action(i, r@[i].action),
{
    let mut v: Vec<PaletteCommand> = Vec::new();
    v.push(
        PaletteCommand {
            name: "Help",
            slash_command: "/help",
            keybinding: "Ctrl+X H",
            action: Action::OpenModal(ModalId::Help),
        },
    );
    v.push(
        PaletteCommand {
            name: "New Session",
            slash_command: "/new",
            keybinding: "Ctrl+X N",
            action: Action::NewSession,
        },
    );
    v.push(
        PaletteCommand {
            name: "Sessions",
            slash_command: "/sessions",
            keybinding: "Ctrl+X L",
            action: Action::OpenModal(ModalId::SessionList),
        },
    );
    v.push(
        PaletteCommand {
            name: "Settings",
            slash_command: "/settings",
            keybinding: "Ctrl+X M",
            action: Action::OpenSettings,
        },
    );
    v.push(
        PaletteCommand {
            name: "Todos",
            slash_command: "/todos",
            keybinding: "",
            action: Action::ToggleSidePanel,
        },
    );
    v.push(
        PaletteCommand {
            name: "Diagnostics",
            slash_command: "/diagnostics",
            keybinding: "",
            action: Action::ToggleSidePanel,
        },
    );
    v.push(
        PaletteCommand {
            name: "Terminal",
            slash_command: "/pty",
            keybinding: "Ctrl+X T",
            action: Action::OpenTerminal(String::new()),
        },
    );
    v.push(
        PaletteCommand {
            name: "Exit",
            slash_command: "/exit",
            keybinding: "Ctrl+X Q",
            action: Action::Quit,
        },
    );
    v.push(
        PaletteCommand {
            name: "Toggle Details",
            slash_command: "/details",
            keybinding: "",
            action: Action::ToggleDetails,
        },
    );
    v.push(
        PaletteCommand {
            name: "Cycle Agent",
            slash_command: "",
            keybinding: "Tab",
            action: Action::CycleAgent,
        },
    );
    v
}

/// A command matches a query when its name or slash command contains it,
/// ignoring case. The empty query matches everything.
pub open spec fn command_matches(cmd: PaletteCommand, query: Seq<char>) -> bool {
    query.len() == 0 || has_infix(lower_text(cmd.name@), lower_text(query)) || has_infix(
        lower_text(cmd.slash_command@),
        lower_text(query),
    )
}

/// Indices, in order, of the first `n` commands that match `query`.
pub open spec fn matching_indices(cmds: Seq<PaletteCommand>, query: Seq<char>, n: int) -> Seq<
    usize,
>
    decreases n,
{
    if n <= 0 {
        Seq::empty()
    } else if command_matches(cmds[n - 1], query) {
        matching_indices(cmds, query, n - 1).push((n - 1) as usize)
    } else {
        matching_indices(cmds, query, n - 1)
    }
}

pub proof fn lemma_matching_indices_bounds(cmds: Seq<PaletteCommand>, query: Seq<char>, n: int)
    requires
        0 <= n,
    ensures
        matching_indices(cmds, query, n).len() <= n,
        forall|k: int|
            0 <= k < matching_indices(cmds, query, n).len() ==> #[trigger] matching_indices(
                cmds,
                query,
                n,
            )[k] < n,
    decreases n,
{
    if n > 0 {
        lemma_matching_indices_bounds(cmds, query, n - 1);
    }
}

/// An empty query matches every command.
pub proof fn lemma_empty_query_matches_all(cmds: Seq<PaletteCommand>, n: int)
    requires
        0 <= n,
    ensures
        matching_indices(cmds, Seq::empty(), n) == Seq::new(n as nat, |i: int| i as usize),
    decreases n,
{
    if n > 0 {
        lemma_empty_query_matches_all(cmds, n - 1);
        assert(matching_indices(cmds, Seq::empty(), n) =~= Seq::new(n as nat, |i: int| i as usize));
    } else {
        assert(matching_indices(cmds, Seq::empty(), n) =~= Seq::new(n as nat, |i: int| i as usize));
    }
}

/// A searchable list of commands with a selection.
pub struct CommandPaletteModal {
    search: String,
    commands: Vec<PaletteCommand>,
    filtered_indices: Vec<usize>,
    selected: usize,
}

impl CommandPaletteModal {
    /// The search text.
    pub closed spec fn search_spec(&self) -> Seq<char> {
        self.search@
    }

    /// All commands, matching or not.
    pub closed spec fn commands_spec(&self) -> Seq<PaletteCommand> {
        self.commands@
    }

    /// Indices of the commands shown, in list order.
    pub closed spec fn shown(&self) -> Seq<usize> {
        self.filtered_indices@
    }

    /// Position of the selection within the shown commands.
    pub closed spec fn selected_spec(&self) -> nat {
        self.selected as nat
    }

    /// The shown commands are exactly those that match the search, in list
    /// order, and the selection is on one of them (or at 0 when none is shown).
    pub open spec fn shows_matches(&self) -> bool {
        &&& self.shown() == matching_indices(
            self.commands_spec(),
            self.search_spec(),
            self.commands_spec().len() as int,
        )
        &&& (self.selected_spec() < self.shown().len() || self.selected_spec() == 0)
    }

    /// The palette's invariant, which `shows_matches` states.
    pub closed spec fn wf(&self) -> bool {
        &&& self.filtered_indices@ == matching_indices(
            self.commands@,
            self.search@,
            self.commands@.len() as int,
        )
        &&& (self.selected < self.filtered_indices@.len() || self.selected == 0)
    }

    /// A palette over `commands`, with an empty search that shows them all.
    pub fn new(commands: Vec<PaletteCommand>) -> (r: CommandPaletteModal)
        ensures
            r.wf(),
            r.shows_matches(),
            r.search_spec().len() == 0,
            r.commands_spec() == commands@,
            r.selected_spec() == 0,
            r.shown() == Seq::new(commands@.len(), |i: int| i as usize),
    {
        let mut filtered_indices: Vec<usize> = Vec::new();
        let mut i: usize = 0;
        while i < commands.len()
            invariant
                i <= commands@.len(),
                filtered_indices@ == Seq::new(i as nat, |k: int| k as usize),
            decreases commands@.len() - i,
        {
            filtered_indices.push(i);
            assert(filtered_indices@ =~= Seq::new((i + 1) as nat, |k: int| k as usize));
            i += 1;
        }
        let ghost cmds = commands@;
        let r = CommandPaletteModal { search: String::new(), commands, filtered_indices, selected: 0 };
        proof {
            lemma_empty_query_matches_all(cmds, cmds.len() as int);
        }
        r
    }

    /// The search text.
    pub fn search(&self) -> (r: &str)
        ensures
            r@ == self.search_spec(),
    {
        self.search.as_str()
    }

    /// Position of the selection in the shown list.
    pub fn selected_index(&self) -> (r: usize)
        ensures
            r == self.selected_spec(),
    {
        self.selected
    }

    /// How many commands are shown.
    pub fn filtered_count(&self) -> (r: usize)
        ensures
            r == self.shown().len(),
    {
        self.filtered_indices.len()
    }

    /// Shows the commands that match the search, and selects the first.
    fn update_filter(&mut self)
        ensures
            final(self).wf(),
            final(self).search_spec() == old(self).search_spec(),
            final(self).commands_spec() == old(self).commands_spec(),
            final(self).selected_spec() == 0,
    {
        let query = to_lowercase(self.search.as_str());
        let mut out: Vec<usize> = Vec::new();
        let mut i: usize = 0;
        while i < self.commands.len()
            invariant
                i <= self.commands@.len(),
                query@ == lower_text(self.search@),
                self.search@.len() == 0 ==> query@.len() == 0,
                out@ == matching_indices(self.commands@, self.search@, i as int),
            decreases self.commands@.len() - i,
        {
            let name = to_lowercase(self.commands[i].name);
            let slash = to_lowercase(self.commands[i].slash_command);
            proof {
                if self.search@.len() == 0 {
                    assert(name@.subrange(0, 0 + query@.len() as int) =~= query@);
                    assert(has_infix(name@, query@));
                }
            }
            let hit = str_contains(name.as_str(), query.as_str()) || str_contains(
                slash.as_str(),
                query.as_str(),
            );
            proof {
                assert(hit == command_matches(self.commands@[i as int], self.search@));
            }
            if hit {
                out.push(i);
            }
            i += 1;
        }
        self.filtered_indices = out;
        self.selected = 0;
    }

    /// What an event does to the palette `s`, giving `t` and the action `r`
    /// (see `handle_event`).
    pub open spec fn event_handled(s: CommandPaletteModal, t: CommandPaletteModal, event: Event, r: Action) -> bool {
        &&& (t.commands_spec() == s.commands_spec())
        &&& t.shows_matches()
        &&& (match event {
            Event::Key(key) => match key.scancode {
                Scancode::Escape => r == Action::CloseModal && t == s,
                Scancode::Enter => {
                    &&& t == s
                    &&& (s.selected_spec() < s.shown().len() ==> same_action(
                        r,
                        s.commands_spec()[s.shown()[s.selected_spec() as int] as int].action,
                    ))
                    &&& (s.selected_spec() >= s.shown().len() ==> r
                        == Action::NoAction)
                },
                Scancode::Up => {
                    &&& r == Action::NoAction
                    &&& t.search_spec() == s.search_spec()
                    &&& t.selected_spec() == if s.selected_spec() > 0 {
                        (s.selected_spec() - 1) as nat
                    } else {
                        0
                    }
                },
                Scancode::Down => {
                    &&& r == Action::NoAction
                    &&& t.search_spec() == s.search_spec()
                    &&& t.selected_spec() == if s.selected_spec() + 1 < s.shown().len() {
                        s.selected_spec() + 1
                    } else {
                        s.selected_spec()
                    }
                },
                Scancode::Char(c) => {
                    &&& r == Action::NoAction
                    &&& t.search_spec() == s.search_spec().push(c)
                    &&& t.selected_spec() == 0
                },
                Scancode::Backspace => {
                    &&& r == Action::NoAction
                    &&& (s.search_spec().len() > 0 ==> t.search_spec()
                        == s.search_spec().drop_last() && t.selected_spec()
                        == 0)
                    &&& (s.search_spec().len() == 0 ==> t == s)
                },
                _ => r == Action::NoAction && t == s,
            },
            _ => r == Action::NoAction && t == s,
        })
    }

    /// Handles a key: Escape closes, Enter runs the selected command, Up and
    /// Down move the selection, typing and Backspace edit the search.
    pub fn handle_event(&mut self, event: Event) -> (r: Action)
        requires
            old(self).wf(),
        ensures
            final(self).wf(),
            Self::event_handled(*old(self), *final(self), event, r),
    {
        match event {
            Event::Key(key) => match key.scancode {
                Scancode::Escape => Action::CloseModal,
                Scancode::Enter => {
                    if self.selected < self.filtered_indices.len() {
                        let idx = self.filtered_indices[self.selected];
                        proof {
                            lemma_matching_indices_bounds(
                                self.commands@,
                                self.search@,
                                self.commands@.len() as int,
                            );
                        }
                        self.commands[idx].action.duplicate()
                    } else {
                        Action::NoAction
                    }
                },
                Scancode::Up => {
                    if self.selected > 0 {
                        self.selected = self.selected - 1;
                    }
                    Action::NoAction
                },
                Scancode::Down => {
                    if self.selected < self.filtered_indices.len() && self.selected + 1
                        < self.filtered_indices.len() {
                        self.selected = self.selected + 1;
                    }
                    Action::NoAction
                },
                Scancode::Char(c) => {
                    push_char(&mut self.search, c);
                    self.update_filter();
                    Action::NoAction
                },
                Scancode::Backspace => {
                    if self.search.as_str().unicode_len() > 0 {
                        pop_char(&mut self.search);
                        self.update_filter();
                    }
                    Action::NoAction
                },
                _ => Action::NoAction,
            },
            _ => Action::NoAction,
        }
    }

    /// The palette's title.
    pub fn title(&self) -> (r: &'static str)
        ensures
            r@ == "Command Palette"@,
    {
        "Command Palette"
    }
}

/// Typing a character and erasing it again restores the search and the full
/// set of shown commands.
pub proof fn law_type_then_backspace_restores(
    cmds: Seq<PaletteCommand>,
    search: Seq<char>,
    c: char,
)
    ensures
        search.push(c).drop_last() == search,
        matching_indices(cmds, search.push(c).drop_last(), cmds.len() as int) == matching_indices(
            cmds,
            search,
            cmds.len() as int,
        ),
{
    assert(search.push(c).drop_last() =~= search);
}

} // verus!
