use ocpncord_tui::app::Action;
use ocpncord_tui::event::{KeyEvent, Modifiers, Scancode};
use ocpncord_tui::prompt_bar::{InputMode, PromptBar};

fn key_event(c: char) -> KeyEvent {
    KeyEvent { scancode: Scancode::Char(c), modifiers: Modifiers::default() }
}

fn backspace() -> KeyEvent {
    KeyEvent { scancode: Scancode::Backspace, modifiers: Modifiers::default() }
}

fn key(scancode: Scancode) -> KeyEvent {
    KeyEvent { scancode, modifiers: Modifiers::default() }
}

#[test]
fn insert_char_appends_text() {
    let mut bar = PromptBar::new();
    bar.handle_key(&key_event('h'));
    assert_eq!(bar.text(), "h");
}

#[test]
fn backspace_removes_last_char() {
    let mut bar = PromptBar::new();
    bar.handle_key(&key_event('a'));
    bar.handle_key(&key_event('b'));
    bar.handle_key(&key_event('c'));
    assert_eq!(bar.text(), "abc");
    bar.handle_key(&backspace());
    assert_eq!(bar.text(), "ab");
}

#[test]
fn insert_multibyte_does_not_panic() {
    let mut bar = PromptBar::new();
    bar.handle_key(&key_event('é'));
    bar.handle_key(&key_event('x'));
    bar.handle_key(&key_event('😀'));
    bar.handle_key(&key_event('y'));
    assert_eq!(bar.text(), "éx😀y");
}

#[test]
fn backspace_removes_whole_multibyte_char() {
    let mut bar = PromptBar::new();
    bar.append_text("a😀");
    bar.handle_key(&backspace());
    assert_eq!(bar.text(), "a");
    bar.handle_key(&backspace());
    assert_eq!(bar.text(), "");
}

#[test]
fn cursor_left_then_insert_inserts_midstring() {
    let mut bar = PromptBar::new();
    bar.append_text("abc");
    bar.handle_key(&key(Scancode::Left));
    bar.handle_key(&key(Scancode::Left));
    bar.handle_key(&key_event('X'));
    assert_eq!(bar.text(), "aXbc");
}

#[test]
fn cursor_movement_is_char_safe_across_multibyte() {
    let mut bar = PromptBar::new();
    bar.append_text("é😀");
    bar.handle_key(&key(Scancode::End));
    bar.handle_key(&key(Scancode::Left));
    bar.handle_key(&key_event('z'));
    assert_eq!(bar.text(), "éz😀");
}

#[test]
fn delete_at_cursor_removes_following_char() {
    let mut bar = PromptBar::new();
    bar.append_text("abc");
    bar.handle_key(&key(Scancode::Home));
    bar.handle_key(&key(Scancode::Delete));
    assert_eq!(bar.text(), "bc");
}

#[test]
fn home_end_move_to_bounds() {
    let mut bar = PromptBar::new();
    bar.append_text("hello");
    bar.handle_key(&key(Scancode::Home));
    bar.handle_key(&key_event('>'));
    assert_eq!(bar.text(), ">hello");
    bar.handle_key(&key(Scancode::End));
    bar.handle_key(&key_event('<'));
    assert_eq!(bar.text(), ">hello<");
}

#[test]
fn leading_slash_is_command_mode() {
    let mut bar = PromptBar::new();
    bar.handle_key(&key_event('/'));
    assert_eq!(bar.input_mode(), InputMode::Command);
}

#[test]
fn leading_bang_is_shell_mode() {
    let mut bar = PromptBar::new();
    bar.handle_key(&key_event('!'));
    assert_eq!(bar.input_mode(), InputMode::Shell);
}

#[test]
fn leading_at_is_fileref_mode() {
    let mut bar = PromptBar::new();
    bar.handle_key(&key_event('@'));
    assert_eq!(bar.input_mode(), InputMode::FileRef);
}

#[test]
fn empty_input_is_normal_mode() {
    let bar = PromptBar::new();
    assert_eq!(bar.input_mode(), InputMode::Normal);
}

#[test]
fn normal_text_is_normal_mode() {
    let mut bar = PromptBar::new();
    bar.handle_key(&key_event('h'));
    bar.handle_key(&key_event('i'));
    assert_eq!(bar.input_mode(), InputMode::Normal);
}

#[test]
fn leading_hash_is_toolref_mode() {
    let mut bar = PromptBar::new();
    bar.handle_key(&key_event('#'));
    assert_eq!(bar.input_mode(), InputMode::ToolRef);
}

#[test]
fn command_prefix_is_not_rendered_twice() {
    let mut bar = PromptBar::new();
    bar.append_text("/help");
    let (line, _) = bar.visible_line(38);
    assert!(line.contains("/ help"));
    assert!(!line.contains("//help"));
}

#[test]
fn long_input_is_clamped_to_prompt_area() {
    let mut bar = PromptBar::new();
    bar.append_text("this input is intentionally longer than the prompt area");
    let (line, caret) = bar.visible_line(20);
    assert!(line.chars().count() <= 20);
    assert_eq!(caret, 19, "the caret stays in the last column");
    assert!(line.ends_with("area"));
}

#[test]
fn enter_sends_only_when_text_is_present() {
    let mut bar = PromptBar::new();
    assert_eq!(bar.handle_key(&key(Scancode::Enter)), None);
    bar.append_text("hi");
    assert_eq!(bar.handle_key(&key(Scancode::Enter)), Some(Action::SendMessage));
    assert_eq!(bar.text(), "hi");
}

#[test]
fn insert_then_backspace_restores_text() {
    let mut bar = PromptBar::new();
    bar.append_text("abc");
    bar.handle_key(&key(Scancode::Left));
    bar.handle_key(&key_event('Z'));
    bar.handle_key(&backspace());
    assert_eq!(bar.text(), "abc");
}

#[test]
fn clear_empties_the_prompt() {
    let mut bar = PromptBar::new();
    bar.append_text("abc");
    assert!(!bar.is_empty());
    bar.clear();
    assert!(bar.is_empty());
    assert_eq!(bar.text(), "");
}

#[test]
fn leading_whitespace_before_marker_keeps_mode() {
    let mut bar = PromptBar::new();
    bar.append_text("  !ls");
    assert_eq!(bar.input_mode(), InputMode::Shell);
}
