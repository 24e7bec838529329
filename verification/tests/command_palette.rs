use ocpncord_tui::command_palette::{default_commands, CommandPaletteModal, PaletteCommand};
use ocpncord_tui::event::{Event, KeyEvent, Modifiers, Scancode};
use ocpncord_tui::screen::{Action, ModalId};

fn key_event(scancode: Scancode, modifiers: Modifiers) -> KeyEvent {
    KeyEvent { scancode, modifiers }
}

fn press(palette: &mut CommandPaletteModal, scancode: Scancode) -> Action {
    palette.handle_event(Event::Key(key_event(scancode, Modifiers::default())))
}

fn commands() -> Vec<PaletteCommand> {
    vec![
        PaletteCommand {
            name: "Help",
            slash_command: "/help",
            keybinding: "Ctrl+X H",
            action: Action::OpenModal(ModalId::Help),
        },
        PaletteCommand {
            name: "New Session",
            slash_command: "/new",
            keybinding: "Ctrl+X N",
            action: Action::NewSession,
        },
        PaletteCommand {
            name: "Exit",
            slash_command: "/exit",
            keybinding: "Ctrl+X Q",
            action: Action::Quit,
        },
    ]
}

#[test]
fn palette_filters_on_search_typing() {
    let mut palette = CommandPaletteModal::new(commands());
    press(&mut palette, Scancode::Char('e'));
    press(&mut palette, Scancode::Char('x'));
    assert_eq!(palette.search(), "ex");
    assert_eq!(palette.filtered_count(), 1, "only 'Exit' matches 'ex'");
}

#[test]
fn palette_filters_by_slash_command() {
    let mut palette = CommandPaletteModal::new(commands());
    press(&mut palette, Scancode::Char('/'));
    press(&mut palette, Scancode::Char('n'));
    assert_eq!(palette.search(), "/n");
    assert_eq!(palette.filtered_count(), 1);
}

#[test]
fn palette_backspace_removes_filter_char() {
    let mut palette = CommandPaletteModal::new(commands());
    press(&mut palette, Scancode::Char('h'));
    assert_eq!(palette.search(), "h");
    assert_eq!(palette.filtered_count(), 1);
    press(&mut palette, Scancode::Backspace);
    assert_eq!(palette.search(), "");
    assert_eq!(palette.filtered_count(), 3, "all commands shown after backspace");
}

#[test]
fn palette_arrow_keys_navigate_filtered_list() {
    let mut palette = CommandPaletteModal::new(commands());
    assert_eq!(palette.selected_index(), 0);
    press(&mut palette, Scancode::Down);
    assert_eq!(palette.selected_index(), 1);
    press(&mut palette, Scancode::Down);
    assert_eq!(palette.selected_index(), 2);
    press(&mut palette, Scancode::Down);
    assert_eq!(palette.selected_index(), 2);
    press(&mut palette, Scancode::Up);
    assert_eq!(palette.selected_index(), 1);
    press(&mut palette, Scancode::Up);
    assert_eq!(palette.selected_index(), 0);
    press(&mut palette, Scancode::Up);
    assert_eq!(palette.selected_index(), 0);
}

#[test]
fn palette_enter_returns_selected_command_action() {
    let mut palette = CommandPaletteModal::new(commands());
    press(&mut palette, Scancode::Down);
    press(&mut palette, Scancode::Down);
    let action = press(&mut palette, Scancode::Enter);
    assert_eq!(action, Action::Quit);
}

#[test]
fn palette_escape_returns_close_modal() {
    let mut palette = CommandPaletteModal::new(commands());
    let action = press(&mut palette, Scancode::Escape);
    assert_eq!(action, Action::CloseModal);
}

#[test]
fn palette_enter_on_filtered_list_returns_correct_action() {
    let mut palette = CommandPaletteModal::new(commands());
    press(&mut palette, Scancode::Char('h'));
    assert_eq!(palette.filtered_count(), 1);
    let action = press(&mut palette, Scancode::Enter);
    assert_eq!(action, Action::OpenModal(ModalId::Help));
}

#[test]
fn palette_empty_search_shows_all_commands() {
    let mut palette = CommandPaletteModal::new(commands());
    press(&mut palette, Scancode::Char('h'));
    assert_eq!(palette.filtered_count(), 1);
    press(&mut palette, Scancode::Backspace);
    assert_eq!(palette.filtered_count(), 3, "empty search shows all commands");
}

#[test]
fn palette_search_ignores_case() {
    let mut palette = CommandPaletteModal::new(commands());
    press(&mut palette, Scancode::Char('H'));
    press(&mut palette, Scancode::Char('E'));
    assert_eq!(palette.filtered_count(), 1);
    assert_eq!(press(&mut palette, Scancode::Enter), Action::OpenModal(ModalId::Help));
}

#[test]
fn palette_enter_with_no_match_does_nothing() {
    let mut palette = CommandPaletteModal::new(commands());
    press(&mut palette, Scancode::Char('z'));
    press(&mut palette, Scancode::Char('z'));
    assert_eq!(palette.filtered_count(), 0);
    assert_eq!(press(&mut palette, Scancode::Enter), Action::NoAction);
}

#[test]
fn default_commands_list_the_standard_entries() {
    let cmds = default_commands();
    assert_eq!(cmds.len(), 10);
    assert_eq!(cmds[0].name, "Help");
    assert_eq!(cmds[0].action, Action::OpenModal(ModalId::Help));
    assert_eq!(cmds[7].slash_command, "/exit");
    assert_eq!(cmds[7].action, Action::Quit);
    assert_eq!(cmds[9].keybinding, "Tab");
}

#[test]
fn palette_title_is_command_palette() {
    let palette = CommandPaletteModal::new(commands());
    assert_eq!(palette.title(), "Command Palette");
}
