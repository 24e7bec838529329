use ocpncord_tui::app::Action;
use ocpncord_tui::event::{KeyEvent, Modifiers, Scancode};
use ocpncord_tui::key_chord::KeyChord;

fn ctrl(key: char) -> KeyEvent {
    KeyEvent {
        scancode: Scancode::Char(key),
        modifiers: Modifiers { ctrl: true, shift: false, alt: false, meta: false },
    }
}

fn key(key: char) -> KeyEvent {
    KeyEvent { scancode: Scancode::Char(key), modifiers: Modifiers::default() }
}

#[test]
fn ctrl_c_returns_quit() {
    let mut chord = KeyChord::new();
    assert_eq!(chord.handle(&ctrl('c'), 0), Some(Action::Quit));
}

#[test]
fn ctrl_c_capital_also_quits() {
    let mut chord = KeyChord::new();
    assert_eq!(chord.handle(&ctrl('C'), 0), Some(Action::Quit));
}

#[test]
fn ctrl_x_enters_leader_mode() {
    let mut chord = KeyChord::new();
    assert_eq!(chord.handle(&ctrl('x'), 0), None);
    assert!(chord.is_leader_active());
}

#[test]
fn leader_q_completes_quit_chord() {
    let mut chord = KeyChord::new();
    chord.handle(&ctrl('x'), 0);
    assert_eq!(chord.handle(&key('q'), 1), Some(Action::Quit));
    assert!(!chord.is_leader_active());
}

#[test]
fn leader_capital_q_also_quits() {
    let mut chord = KeyChord::new();
    chord.handle(&ctrl('x'), 0);
    assert_eq!(chord.handle(&key('Q'), 1), Some(Action::Quit));
}

#[test]
fn leader_times_out() {
    let mut chord = KeyChord::new();
    chord.handle(&ctrl('x'), 0);
    assert!(chord.is_leader_active());

    chord.tick(40);
    assert!(!chord.is_leader_active(), "leader should timeout at tick 40");
}

#[test]
fn leader_does_not_timeout_early() {
    let mut chord = KeyChord::new();
    chord.handle(&ctrl('x'), 0);
    chord.tick(39);
    assert!(chord.is_leader_active(), "leader should still be active at tick 39");
}

#[test]
fn handle_also_checks_timeout() {
    let mut chord = KeyChord::new();
    chord.handle(&ctrl('x'), 0);
    chord.handle(&key('q'), 41);
    assert!(!chord.is_leader_active(), "leader should have timed out before key press");
}

#[test]
fn modifier_during_leader_keeps_leader_active() {
    let mut chord = KeyChord::new();
    chord.handle(&ctrl('x'), 0);
    let shift_key = KeyEvent {
        scancode: Scancode::Char('q'),
        modifiers: Modifiers { ctrl: false, shift: true, alt: false, meta: false },
    };
    assert_eq!(chord.handle(&shift_key, 1), None);
    assert!(chord.is_leader_active(), "leader should remain active after modifier");
}

#[test]
fn leader_h_opens_help_modal() {
    let mut chord = KeyChord::new();
    chord.handle(&ctrl('x'), 0);
    assert_eq!(chord.handle(&key('h'), 1), Some(Action::ExecuteCommand("/help".into())));
    assert!(!chord.is_leader_active());
}

#[test]
fn leader_d_toggles_diagnostics_panel() {
    let mut chord = KeyChord::new();
    chord.handle(&ctrl('x'), 0);
    assert_eq!(chord.handle(&key('d'), 1), Some(Action::ExecuteCommand("/diagnostics".into())));
}

#[test]
fn leader_o_toggles_todos_panel() {
    let mut chord = KeyChord::new();
    chord.handle(&ctrl('x'), 0);
    assert_eq!(chord.handle(&key('o'), 1), Some(Action::ExecuteCommand("/todos".into())));
}

#[test]
fn leader_capital_h_also_opens_help_modal() {
    let mut chord = KeyChord::new();
    chord.handle(&ctrl('x'), 0);
    assert_eq!(chord.handle(&key('H'), 1), Some(Action::ExecuteCommand("/help".into())));
}

#[test]
fn leader_n_starts_new_session_command() {
    let mut chord = KeyChord::new();
    chord.handle(&ctrl('x'), 0);
    assert_eq!(chord.handle(&key('n'), 1), Some(Action::ExecuteCommand("/new".into())));
}

#[test]
fn unknown_keypress_does_nothing() {
    let mut chord = KeyChord::new();
    assert_eq!(chord.handle(&key('a'), 0), None);
    assert!(!chord.is_leader_active());
}

#[test]
fn leader_m_and_l_run_model_and_session_commands() {
    let mut chord = KeyChord::new();
    chord.handle(&ctrl('x'), 0);
    assert_eq!(chord.handle(&key('m'), 1), Some(Action::ExecuteCommand("/models".into())));
    chord.handle(&ctrl('x'), 2);
    assert_eq!(chord.handle(&key('L'), 3), Some(Action::ExecuteCommand("/sessions".into())));
}

#[test]
fn leader_t_opens_terminal_and_ctrl_p_opens_palette() {
    let mut chord = KeyChord::new();
    chord.handle(&ctrl('x'), 0);
    assert_eq!(chord.handle(&key('t'), 1), Some(Action::OpenTerminal(String::new())));
    assert_eq!(chord.handle(&ctrl('p'), 2), Some(Action::OpenPalette));
}

#[test]
fn leader_consumes_one_unknown_plain_key() {
    let mut chord = KeyChord::new();
    chord.handle(&ctrl('x'), 0);
    assert_eq!(chord.handle(&key('z'), 1), None);
    assert!(!chord.is_leader_active());
}
